//! Plain value types for the fixed-width identifiers the simulated network
//! speaks of: node/record addresses, owner public keys and signatures.
//!
//! Each type wraps the raw bytes; equality and ordering are bitwise.

use vstd::prelude::*;

verus! {

/// Byte width of a network address (the width of the digest that derives
/// content addresses).
pub const IDENTITY_LEN: usize = 64;

/// Byte width of an owner public key.
pub const PUBLIC_KEY_LEN: usize = 32;

/// Byte width of a detached signature.
pub const SIGNATURE_LEN: usize = 64;

/// The address whose bytes all hold `b`: the shape of the simulator's
/// well-known placeholder nodes.
pub open spec fn repeated_address(b: u8) -> Seq<u8> {
    Seq::new(IDENTITY_LEN as nat, |i: int| b)
}

/// A fixed-width opaque identifier naming a network participant or a stored
/// record.  Immutable once created; equality is bitwise.
pub struct NodeIdentity {
    pub bytes: Vec<u8>,
}

/// An owner's public key, as carried inside versioned records and client
/// authorities.
pub struct PublicKey {
    pub bytes: Vec<u8>,
}

/// A detached signature over a versioned record's signable representation.
pub struct Signature {
    pub bytes: Vec<u8>,
}

impl View for NodeIdentity {
    type V = Seq<u8>;

    open spec fn view(&self) -> Seq<u8> {
        self.bytes@
    }
}

impl View for PublicKey {
    type V = Seq<u8>;

    open spec fn view(&self) -> Seq<u8> {
        self.bytes@
    }
}

impl View for Signature {
    type V = Seq<u8>;

    open spec fn view(&self) -> Seq<u8> {
        self.bytes@
    }
}

/// Bitwise comparison of two byte strings.
pub fn bytes_eq(a: &Vec<u8>, b: &Vec<u8>) -> (r: bool)
    ensures
        r == (a@ == b@),
{
    if a.len() != b.len() {
        assert(a@ != b@) by {
            assert(a@.len() != b@.len());
        }
        return false;
    }
    let n: usize = a.len();
    let mut i: usize = 0;
    while i < n
        invariant
            n == a@.len() == b@.len(),
            i <= n,
            forall|j: int| 0 <= j < i ==> a@[j] == b@[j],
        decreases n - i,
    {
        if a[i] != b[i] {
            return false;
        }
        i += 1;
    }
    assert(a@ =~= b@);
    true
}

/// Copy a byte string.
pub fn bytes_dup(a: &Vec<u8>) -> (r: Vec<u8>)
    ensures
        r@ == a@,
{
    let mut out: Vec<u8> = Vec::new();
    let n: usize = a.len();
    let mut i: usize = 0;
    while i < n
        invariant
            n == a@.len(),
            i <= n,
            out@ =~= a@.take(i as int),
        decreases n - i,
    {
        out.push(a[i]);
        i += 1;
    }
    assert(out@ =~= a@);
    out
}

impl NodeIdentity {
    /// The identity is exactly one address wide.
    pub open spec fn wf(&self) -> bool {
        self@.len() == IDENTITY_LEN
    }

    /// Builds an identity from raw address bytes.
    pub fn from_bytes(bytes: Vec<u8>) -> (r: Option<NodeIdentity>)
        ensures
            match r {
                Some(id) => id@ == bytes@ && id.wf(),
                None => bytes@.len() != IDENTITY_LEN,
            },
    {
        if bytes.len() == IDENTITY_LEN {
            Some(NodeIdentity { bytes })
        } else {
            None
        }
    }

    /// Builds the identity whose 64 address bytes all hold `b`, the shape the
    /// simulator's well-known placeholder nodes use.
    pub fn repeated(b: u8) -> (r: NodeIdentity)
        ensures
            r.wf(),
            r@ == repeated_address(b),
    {
        let mut bytes: Vec<u8> = Vec::new();
        let mut i: usize = 0;
        while i < IDENTITY_LEN
            invariant
                i <= IDENTITY_LEN,
                bytes@ =~= Seq::new(i as nat, |j: int| b),
            decreases IDENTITY_LEN - i,
        {
            bytes.push(b);
            i += 1;
        }
        assert(bytes@ =~= Seq::new(IDENTITY_LEN as nat, |i: int| b));
        NodeIdentity { bytes }
    }

    /// Bitwise equality of two identities.
    pub fn equals(&self, other: &NodeIdentity) -> (r: bool)
        ensures
            r == (self@ == other@),
    {
        bytes_eq(&self.bytes, &other.bytes)
    }

    /// An independent copy of this identity.
    pub fn duplicate(&self) -> (r: NodeIdentity)
        ensures
            r@ == self@,
    {
        NodeIdentity { bytes: bytes_dup(&self.bytes) }
    }
}

impl PublicKey {
    /// The key is exactly one public key wide.
    pub open spec fn wf(&self) -> bool {
        self@.len() == PUBLIC_KEY_LEN
    }

    /// Builds a key from raw bytes.
    pub fn from_bytes(bytes: Vec<u8>) -> (r: Option<PublicKey>)
        ensures
            match r {
                Some(k) => k@ == bytes@ && k.wf(),
                None => bytes@.len() != PUBLIC_KEY_LEN,
            },
    {
        if bytes.len() == PUBLIC_KEY_LEN {
            Some(PublicKey { bytes })
        } else {
            None
        }
    }

    /// An independent copy of this key.
    pub fn duplicate(&self) -> (r: PublicKey)
        ensures
            r@ == self@,
    {
        PublicKey { bytes: bytes_dup(&self.bytes) }
    }
}

impl Signature {
    /// The signature is exactly one detached signature wide.
    pub open spec fn wf(&self) -> bool {
        self@.len() == SIGNATURE_LEN
    }

    /// Builds a signature from raw bytes.
    pub fn from_bytes(bytes: Vec<u8>) -> (r: Option<Signature>)
        ensures
            match r {
                Some(s) => s@ == bytes@ && s.wf(),
                None => bytes@.len() != SIGNATURE_LEN,
            },
    {
        if bytes.len() == SIGNATURE_LEN {
            Some(Signature { bytes })
        } else {
            None
        }
    }

    /// An independent copy of this signature.
    pub fn duplicate(&self) -> (r: Signature)
        ensures
            r@ == self@,
    {
        Signature { bytes: bytes_dup(&self.bytes) }
    }
}

} // verus!
