use memory_buffer::handle::{BufferHandle, HandleState};

#[test]
fn new_handle_is_owned() {
    let h = BufferHandle::new(0x1000);
    assert_eq!(h.address(), 0x1000);
    assert_eq!(h.state(), HandleState::Owned);
    assert!(h.is_owned());
}

#[test]
fn release_hands_out_the_address_once() {
    let mut h = BufferHandle::new(42);
    assert_eq!(h.release(), Some(42));
    assert_eq!(h.state(), HandleState::Released);
    assert_eq!(h.release(), None);
    assert_eq!(h.release(), None);
    assert_eq!(h.address(), 42);
}

#[test]
fn transfer_suppresses_release() {
    let mut h = BufferHandle::new(7);
    assert_eq!(h.transfer(), 7);
    assert_eq!(h.state(), HandleState::Transferred);
    assert!(!h.is_owned());
    assert_eq!(h.release(), None);
    assert_eq!(h.state(), HandleState::Transferred);
}

#[test]
fn repeated_transfer_cycles_never_release() {
    for address in 1usize..=1000 {
        let mut h = BufferHandle::new(address);
        assert_eq!(h.transfer(), address);
        assert_eq!(h.release(), None);
    }
}
