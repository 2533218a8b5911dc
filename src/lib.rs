use vstd::prelude::*;
use vstd::string::{StrSliceExecFns, StringSliceAdditionalSpecFns};

pub mod classify;
pub mod dispatch;
pub mod engine;
pub mod registry;

verus! {

/// Bytes of `s` (its UTF-8 encoding) followed by a terminating zero, the form
/// that the narrow-string C APIs expect.
pub fn to_pcstr(s: &str) -> (r: Vec<u8>)
    ensures
        r@ == s.spec_bytes().push(0u8),
{
    let mut v = s.as_bytes_vec();
    v.push(0u8);
    v
}

} // verus!
