//! Copying bytes into arrays of a fixed length.

use vstd::prelude::*;

verus! {

/// The array that holds the `N` bytes of `bytes`.
pub fn to_array<const N: usize>(bytes: &[u8]) -> (out: [u8; N])
    requires
        bytes@.len() == N,
    ensures
        out@ == bytes@,
{
    let mut out: [u8; N] = [0u8; N];
    let mut i: usize = 0;
    while i < N
        invariant
            i <= N,
            bytes@.len() == N,
            forall|j: int| 0 <= j < i ==> out@[j] == bytes@[j],
        decreases N - i,
    {
        out[i] = bytes[i];
        i += 1;
    }
    assert(out@ =~= bytes@);
    out
}

/// The array that holds the bytes of `bytes`, where there are `N` of them.
pub fn try_to_array<const N: usize>(bytes: &[u8]) -> (out: Option<[u8; N]>)
    ensures
        out is Some <==> bytes@.len() == N,
        out matches Some(array) ==> array@ == bytes@,
{
    if bytes.len() == N {
        Some(to_array(bytes))
    } else {
        None
    }
}

} // verus!
