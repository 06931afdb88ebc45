use vstd::prelude::*;
use vstd::utf8::{decode_utf8, valid_utf8};

verus! {

/// Relies on std::str::from_utf8: it accepts exactly the byte strings that
/// are valid UTF-8, and then yields the text they encode.
#[verifier::external_body]
fn decode_name(bytes: &[u8]) -> (r: Option<String>)
    ensures
        r is Some <==> valid_utf8(bytes@),
        r matches Some(s) ==> s@ == decode_utf8(bytes@),
{
    match std::str::from_utf8(bytes) {
        Ok(s) => Some(s.to_string()),
        Err(_) => None,
    }
}

/// Whether every reported name is valid UTF-8.
pub open spec fn all_valid(names: Seq<Vec<u8>>) -> bool {
    forall|i: int| 0 <= i < names.len() ==> valid_utf8(#[trigger] names[i]@)
}

/// Turns the undefined symbols that the native runtime reported, each name
/// as the bytes before its terminating zero, into text in the reported order.
///
/// An empty report gives an empty list. A name that is not UTF-8 breaks the
/// runtime's contract; the index of the first such name is returned.
pub fn undefined_symbols(reported: &[Vec<u8>]) -> (r: Result<Vec<String>, usize>)
    ensures
        r is Ok <==> all_valid(reported@),
        reported@.len() == 0 ==> (r matches Ok(names) && names@.len() == 0),
        r matches Ok(names) ==> names@.len() == reported@.len() && forall|i: int|
            0 <= i < names@.len() ==> #[trigger] names@[i]@ == decode_utf8(reported@[i]@),
        r matches Err(k) ==> k < reported@.len() && !valid_utf8(reported@[k as int]@)
            && all_valid(reported@.take(k as int)),
{
    let mut names: Vec<String> = Vec::new();
    let mut i: usize = 0;
    while i < reported.len()
        invariant
            i <= reported@.len(),
            names@.len() == i,
            all_valid(reported@.take(i as int)),
            forall|k: int| 0 <= k < i ==> #[trigger] names@[k]@ == decode_utf8(reported@[k]@),
        decreases reported@.len() - i,
    {
        match decode_name(reported[i].as_slice()) {
            Some(name) => {
                names.push(name);
                assert forall|k: int| 0 <= k < i + 1 implies valid_utf8(
                    #[trigger] reported@.take(i + 1)[k]@,
                ) by {
                    if k < i {
                        assert(reported@.take(i as int)[k] == reported@[k]);
                    }
                }
            },
            None => {
                return Err(i);
            },
        }
        i = i + 1;
    }
    assert(reported@.take(i as int) =~= reported@);
    Ok(names)
}

} // verus!
