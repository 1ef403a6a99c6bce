//! The calls into the `bitcoin` crate.
use vstd::prelude::*;
use crate::types::{PaymentHash, PaymentPreimage, Txid};

verus! {

/// The SHA-256 digest of a byte string.
pub uninterp spec fn sha256_digest(data: Seq<u8>) -> Seq<u8>;

/// Calls `from_byte_array` of `bitcoin::Txid`, which keeps the given bytes, in their
/// order, as those of the transaction id. They are read back with `to_byte_array`.
#[verifier::external_body]
pub(crate) fn txid_from_byte_array(bytes: [u8; 32]) -> (txid: Txid)
    ensures
        txid.0 == bytes,
{
    let txid: bitcoin::Txid = bitcoin::hashes::Hash::from_byte_array(bytes);
    Txid(bitcoin::hashes::Hash::to_byte_array(txid))
}

/// Calls `hash` of `bitcoin::hashes::sha256::Hash`: the digest depends on the hashed bytes
/// alone. What the digest of given bytes is, the contract leaves to its name.
#[verifier::external_body]
pub(crate) fn hash_preimage(preimage: &PaymentPreimage) -> (hash: PaymentHash)
    ensures
        hash.0@ == sha256_digest(preimage.0@),
{
    let digest: bitcoin::hashes::sha256::Hash = bitcoin::hashes::Hash::hash(&preimage.0);
    PaymentHash(bitcoin::hashes::Hash::to_byte_array(digest))
}

} // verus!
