//! The cryptographic digest on which every Merkle root in this crate is built.

use vstd::prelude::*;

verus! {

/// The digest that the hashing collaborator computes over a byte sequence.
/// It is a function of the input bytes alone; nothing in this crate states
/// what it is on given values.
pub uninterp spec fn sha256_of(input: Seq<u8>) -> Seq<u8>;

/// Relies on sha2::Sha256::digest: the SHA-256 digest of the input bytes,
/// always 32 bytes long and a function of the input alone.
#[verifier::external_body]
pub fn sha256(input: &Vec<u8>) -> (r: Vec<u8>)
    ensures
        r@ == sha256_of(input@),
        r@.len() == 32,
{
    let digest = <sha2::Sha256 as sha2::Digest>::digest(input.as_slice());
    digest.to_vec()
}

/// The root of an interior Merkle node: the digest of the two child roots,
/// left first.
pub open spec fn hash_pair(left: Seq<u8>, right: Seq<u8>) -> Seq<u8> {
    sha256_of(left + right)
}

/// Digest the concatenation of two 32-byte nodes.
pub fn hash_two(left: &Vec<u8>, right: &Vec<u8>) -> (r: Vec<u8>)
    requires
        left@.len() == 32,
        right@.len() == 32,
    ensures
        r@ == hash_pair(left@, right@),
        r@.len() == 32,
{
    let mut buf: Vec<u8> = Vec::new();
    buf.extend_from_slice(left.as_slice());
    buf.extend_from_slice(right.as_slice());
    assert(buf@ =~= left@ + right@);
    sha256(&buf)
}

} // verus!
