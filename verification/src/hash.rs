use vstd::prelude::*;

verus! {

/// The SHA-256 digest of `data`.
pub uninterp spec fn sha256(data: Seq<u8>) -> Seq<u8>;

/// Whether two byte strings are a collision of the digest: different strings
/// with one digest.
pub open spec fn collide(first: Seq<u8>, second: Seq<u8>) -> bool {
    first != second && sha256(first) == sha256(second)
}

/// Digest of three byte strings taken as one.
///
/// Calls `solana_sdk::hash::hashv`, which feeds the slices it is given to one
/// SHA-256 state in the order given and returns the 32-byte digest. The
/// contract claims that the result is the digest of the three slices joined
/// end to end.
#[verifier::external_body]
pub(crate) fn hashv(first: &[u8], second: &[u8], third: &[u8]) -> (digest: [u8; 32])
    ensures
        digest@ == sha256(first@ + second@ + third@),
{
    solana_sdk::hash::hashv(&[first, second, third]).to_bytes()
}

} // verus!
