use vstd::prelude::*;

verus! {

/// Where a native buffer handle stands in its life.
#[derive(PartialEq, Eq, Structural, Clone, Copy, Debug)]
pub enum HandleState {
    /// The handle is held and must still be released by its holder.
    Owned,
    /// The handle was handed to a derived object, which now releases it.
    Transferred,
    /// The holder has released the handle.
    Released,
}

/// The owning side of one native buffer handle.
///
/// The address is never zero. A handle is released at most once, and never
/// after it has been transferred to another owner.
#[derive(Debug)]
pub struct BufferHandle {
    address: usize,
    state: HandleState,
}

/// The mathematical model of a `BufferHandle`.
pub struct HandleView {
    pub address: nat,
    pub state: HandleState,
}

impl View for BufferHandle {
    type V = HandleView;

    closed spec fn view(&self) -> HandleView {
        HandleView { address: self.address as nat, state: self.state }
    }
}

/// What a release request hands back on a handle in state `v`: the address to
/// dispose of, exactly when the handle is still owned.
pub open spec fn release_outcome(v: HandleView) -> Option<nat> {
    if v.state == HandleState::Owned {
        Some(v.address)
    } else {
        None
    }
}

/// The state a handle is in after a release request.
pub open spec fn after_release(v: HandleView) -> HandleView {
    if v.state == HandleState::Owned {
        HandleView { address: v.address, state: HandleState::Released }
    } else {
        v
    }
}

/// The state a handle is in after it has been transferred.
pub open spec fn after_transfer(v: HandleView) -> HandleView {
    HandleView { address: v.address, state: HandleState::Transferred }
}

impl BufferHandle {
    #[verifier::type_invariant]
    closed spec fn non_null(&self) -> bool {
        self.address != 0
    }

    /// Takes ownership of the native handle at `address`.
    pub fn new(address: usize) -> (r: Self)
        requires
            address != 0,
        ensures
            r@.address == address as nat,
            r@.state == HandleState::Owned,
    {
        BufferHandle { address, state: HandleState::Owned }
    }

    /// The address of the native handle.
    pub fn address(&self) -> (r: usize)
        ensures
            r as nat == self@.address,
            r != 0,
    {
        proof {
            use_type_invariant(self);
        }
        self.address
    }

    /// The current state of the handle.
    pub fn state(&self) -> (r: HandleState)
        ensures
            r == self@.state,
    {
        self.state
    }

    /// Whether this holder still has to release the handle.
    pub fn is_owned(&self) -> (r: bool)
        ensures
            r == (self@.state == HandleState::Owned),
    {
        self.state == HandleState::Owned
    }

    /// Asks to release the handle: returns the address to dispose of if the
    /// handle is still owned, and nothing if it was released or transferred
    /// already.
    pub fn release(&mut self) -> (r: Option<usize>)
        ensures
            r matches Some(a) ==> a as nat == old(self)@.address,
            r is Some <==> release_outcome(old(self)@) is Some,
            final(self)@ == after_release(old(self)@),
    {
        proof {
            use_type_invariant(&*self);
        }
        if self.state == HandleState::Owned {
            self.state = HandleState::Released;
            Some(self.address)
        } else {
            None
        }
    }

    /// Hands the handle over to a derived object and returns its address; from
    /// now on this holder never releases it.
    pub fn transfer(&mut self) -> (r: usize)
        requires
            old(self)@.state == HandleState::Owned,
        ensures
            r as nat == old(self)@.address,
            r != 0,
            final(self)@ == after_transfer(old(self)@),
    {
        proof {
            use_type_invariant(&*self);
        }
        self.state = HandleState::Transferred;
        self.address
    }
}

/// A handle is released at most once: once a release request has returned
/// the address, every further request returns nothing.
pub proof fn lemma_release_at_most_once(v: HandleView)
    ensures
        release_outcome(after_release(after_release(v))) is None,
        after_release(after_release(v)) == after_release(v),
{
}

/// After ownership has been transferred, tearing down the former holder
/// releases nothing and leaves the handle with its new owner.
pub proof fn lemma_no_release_after_transfer(v: HandleView)
    requires
        v.state == HandleState::Owned,
    ensures
        release_outcome(after_transfer(v)) is None,
        after_release(after_transfer(v)) == after_transfer(v),
        release_outcome(v) == Some(v.address),
{
}

} // verus!
