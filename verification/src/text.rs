//! Strings as the host holds them: bytes that end at the first zero byte.

use vstd::prelude::*;
use crate::result::MgpError;

verus! {

/// Whether the host's representation can hold `bytes`: none of them is zero.
pub open spec fn is_c_string(bytes: Seq<u8>) -> bool {
    forall|i: int| 0 <= i < bytes.len() ==> bytes[i] != 0
}

/// A result that carries a string, with the string taken by its view.
pub open spec fn text_result(r: Result<Vec<u8>, MgpError>) -> Result<Seq<u8>, MgpError> {
    match r {
        Ok(text) => Ok(text@),
        Err(e) => Err(e),
    }
}

/// What checking `bytes` for the host comes to.
pub open spec fn c_string_result(bytes: Seq<u8>) -> Result<Seq<u8>, MgpError> {
    if is_c_string(bytes) {
        Ok(bytes)
    } else {
        Err(MgpError::UnableToCreateCString)
    }
}

/// Copies `bytes` for the host, or refuses them if they hold a zero byte.
pub fn c_string(bytes: &[u8]) -> (r: Result<Vec<u8>, MgpError>)
    ensures
        text_result(r) == c_string_result(bytes@),
{
    let mut copy: Vec<u8> = Vec::new();
    let mut i: usize = 0;
    while i < bytes.len()
        invariant
            i <= bytes.len(),
            copy@ == bytes@.take(i as int),
            is_c_string(bytes@.take(i as int)),
        decreases bytes.len() - i,
    {
        let byte = bytes[i];
        if byte == 0 {
            return Err(MgpError::UnableToCreateCString);
        }
        copy.push(byte);
        assert(bytes@.take(i + 1) =~= bytes@.take(i as int).push(byte));
        i = i + 1;
    }
    assert(bytes@.take(i as int) =~= bytes@);
    Ok(copy)
}

} // verus!
