use vstd::prelude::*;
use crate::error::Error;

verus! {

/// No byte of `s` is zero.
pub open spec fn no_interior_nul(s: Seq<u8>) -> bool {
    forall|i: int| 0 <= i < s.len() ==> s[i] != 0u8
}

/// `i` is the position of the first zero byte of `s`.
pub open spec fn first_nul(s: Seq<u8>, i: int) -> bool {
    &&& 0 <= i < s.len()
    &&& s[i] == 0u8
    &&& no_interior_nul(s.take(i))
}

/// Finds the first zero byte of `bytes`, if there is one.
pub fn find_nul(bytes: &[u8]) -> (r: Option<usize>)
    ensures
        r is None <==> no_interior_nul(bytes@),
        r matches Some(i) ==> first_nul(bytes@, i as int),
{
    let mut i: usize = 0;
    while i < bytes.len()
        invariant
            0 <= i <= bytes.len(),
            no_interior_nul(bytes@.take(i as int)),
        decreases bytes.len() - i,
    {
        if bytes[i] == 0u8 {
            return Some(i);
        }
        assert(bytes@.take(i + 1) =~= bytes@.take(i as int).push(bytes@[i as int]));
        i = i + 1;
    }
    assert(bytes@.take(i as int) =~= bytes@);
    None
}

/// Turns bytes into a zero-terminated string for the engine.
///
/// Text with a zero byte inside is refused with the position of the first
/// one, rather than cut short at it.
pub fn encode_c_string(bytes: Vec<u8>) -> (r: Result<Vec<u8>, Error>)
    ensures
        no_interior_nul(bytes@) <==> r is Ok,
        r matches Ok(v) ==> v@ == bytes@.push(0u8),
        r matches Err(e) ==> e matches Error::NulError(i) && first_nul(bytes@, i as int),
{
    match find_nul(bytes.as_slice()) {
        Some(i) => Err(Error::NulError(i)),
        None => {
            let mut v = bytes;
            v.push(0u8);
            Ok(v)
        },
    }
}

/// A path can be handed on only if no byte of it is zero; otherwise the
/// position of the first zero byte is reported before anything reads it.
pub fn check_path(path: &[u8]) -> (r: Result<(), Error>)
    ensures
        r is Ok <==> no_interior_nul(path@),
        r matches Err(e) ==> e matches Error::NulError(i) && first_nul(path@, i as int),
{
    match find_nul(path) {
        Some(i) => Err(Error::NulError(i)),
        None => Ok(()),
    }
}

} // verus!
