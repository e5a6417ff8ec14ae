//! Borsh encoding of the byte arrays that the library stores, through the
//! `borsh` crate.

use vstd::prelude::*;

verus! {

/// The error type of borsh's reader and writer (std's I/O error).
#[verifier::external_type_specification]
#[verifier::external_body]
pub struct ExBorshIoError(borsh::io::Error);

/// Calls `borsh::to_vec` on a byte array. Borsh writes a `[u8; N]` with
/// one `write_all` of its bytes into a fresh `Vec<u8>`, and writing into a
/// `Vec<u8>` does not fail: the result is `Ok` with exactly the array's
/// bytes.
#[verifier::external_body]
pub(crate) fn borsh_encode_array<const N: usize>(bytes: &[u8; N]) -> (res: Result<
    Vec<u8>,
    borsh::io::Error,
>)
    ensures
        res is Ok,
        res->Ok_0@ == bytes@,
{
    borsh::to_vec(bytes)
}

/// Calls `BorshDeserialize::try_from_slice` for `[u8; N]`. Borsh reads the
/// array with one `read_exact` of `N` bytes and then fails if any input is
/// left: the result is `Ok` exactly when the slice holds `N` bytes, and
/// then it holds those bytes.
#[verifier::external_body]
pub(crate) fn borsh_decode_array<const N: usize>(data: &[u8]) -> (res: Result<
    [u8; N],
    borsh::io::Error,
>)
    ensures
        res is Ok <==> data@.len() == N,
        res is Ok ==> res->Ok_0@ == data@,
{
    <[u8; N] as borsh::BorshDeserialize>::try_from_slice(data)
}

} // verus!
