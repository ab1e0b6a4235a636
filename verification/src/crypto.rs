//! The cryptographic capabilities the simulator consumes: detached-signature
//! verification and the digest that derives content addresses.
//!
//! Both are opaque: their results are named, not restated, and everything the
//! library proves about quorums and content addressing is relative to those
//! names.

use vstd::prelude::*;
use crate::identity::NodeIdentity;
use crate::identity::PublicKey;
use crate::identity::Signature;
use crate::identity::IDENTITY_LEN;

verus! {

/// Whether `sig` is a valid detached signature over `msg` under the public
/// key `pk`.  The outcome depends on the three byte strings alone.
pub uninterp spec fn sig_verifies(sig: Seq<u8>, msg: Seq<u8>, pk: Seq<u8>) -> bool;

/// The digest that derives a record's content address from its bytes.  The
/// outcome depends on the content bytes alone.
pub uninterp spec fn content_digest(content: Seq<u8>) -> Seq<u8>;

/// Relies on sodiumoxide's `crypto::sign::verify_detached` (Ed25519): whether
/// a detached signature verifies is a deterministic function of the signature
/// bytes, the message bytes and the public key bytes.  A byte string that
/// does not parse as a signature verifies under no key and no message.
#[verifier::external_body]
pub fn verify_signature(sig: &Signature, msg: &Vec<u8>, pk: &PublicKey) -> (r: bool)
    requires
        sig.wf(),
        pk.wf(),
    ensures
        r == sig_verifies(sig@, msg@, pk@),
{
    let parsed_sig = match sodiumoxide::crypto::sign::Signature::from_bytes(&sig.bytes) {
        Ok(s) => s,
        Err(_) => return false,
    };
    let parsed_pk = match sodiumoxide::crypto::sign::PublicKey::from_slice(&pk.bytes) {
        Some(k) => k,
        None => return false,
    };
    sodiumoxide::crypto::sign::verify_detached(&parsed_sig, msg.as_slice(), &parsed_pk)
}

/// Relies on sodiumoxide's `crypto::hash::hash` (SHA-512): the digest is a
/// deterministic function of the input bytes alone and is 64 bytes wide.
#[verifier::external_body]
pub fn digest(content: &Vec<u8>) -> (r: Vec<u8>)
    ensures
        r@ == content_digest(content@),
        r@.len() == IDENTITY_LEN,
{
    sodiumoxide::crypto::hash::hash(content.as_slice()).0.to_vec()
}

/// Derives the content address of immutable content: the digest of its bytes,
/// as a node identity.
pub fn content_address(content: &Vec<u8>) -> (r: NodeIdentity)
    ensures
        r@ == content_digest(content@),
        r.wf(),
{
    NodeIdentity { bytes: digest(content) }
}

} // verus!
