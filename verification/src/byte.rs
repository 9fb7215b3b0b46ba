//! Random bytes, one at a time or as many as asked for.
use vstd::prelude::*;
use crate::number::some_number;

verus! {

/// A random byte: any of the 256.
pub fn some_byte() -> u8 {
    some_number::<u8>()
}

/// `bound` random bytes, each drawn on its own.
pub fn some_byte_vector(bound: usize) -> (bytes: Vec<u8>)
    ensures
        bytes@.len() == bound,
{
    let mut bytes: Vec<u8> = Vec::new();
    let mut drawn: usize = 0;
    while drawn < bound
        invariant
            drawn <= bound,
            bytes@.len() == drawn,
        decreases bound - drawn,
    {
        bytes.push(some_number::<u8>());
        drawn = drawn + 1;
    }
    bytes
}

} // verus!
