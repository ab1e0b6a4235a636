//! The canonical signable representation of a versioned record: the byte
//! string owners countersign to authorize a conditional write.
//!
//! The framing covers everything but the signature list: type tag, identity,
//! version, payload (length-prefixed) and the owner set.  All integers are
//! eight little-endian bytes.

use vstd::prelude::*;
use crate::record::Record;
use crate::record::RecordModel;
use crate::identity::PublicKey;
use crate::record::key_views;

verus! {

/// The eight little-endian bytes of `x`.
pub open spec fn u64_le(x: u64) -> Seq<u8> {
    seq![
        (x % 256) as u8,
        ((x / 256) % 256) as u8,
        ((x / 65536) % 256) as u8,
        ((x / 16777216) % 256) as u8,
        ((x / 4294967296) % 256) as u8,
        ((x / 1099511627776) % 256) as u8,
        ((x / 281474976710656) % 256) as u8,
        ((x / 72057594037927936) % 256) as u8,
    ]
}

/// The concatenation of a sequence of byte strings.
pub open spec fn concat_all(parts: Seq<Seq<u8>>) -> Seq<u8>
    decreases parts.len(),
{
    if parts.len() == 0 {
        Seq::empty()
    } else {
        concat_all(parts.drop_last()) + parts.last()
    }
}

/// The signable bytes of a versioned record model.
pub open spec fn spec_signable(m: RecordModel) -> Seq<u8>
    recommends
        m is Versioned,
{
    u64_le(m->type_tag) + m->identity + u64_le(m->version) + u64_le(m->payload.len() as u64)
        + m->payload + u64_le(m->owners.len() as u64) + concat_all(m->owners)
}

/// Appends the eight little-endian bytes of `x`.
fn push_u64_le(out: &mut Vec<u8>, x: u64)
    ensures
        final(out)@ == old(out)@ + u64_le(x),
{
    out.push((x % 256) as u8);
    out.push(((x / 256) % 256) as u8);
    out.push(((x / 65536) % 256) as u8);
    out.push(((x / 16777216) % 256) as u8);
    out.push(((x / 4294967296) % 256) as u8);
    out.push(((x / 1099511627776) % 256) as u8);
    out.push(((x / 281474976710656) % 256) as u8);
    out.push(((x / 72057594037927936) % 256) as u8);
    assert(out@ =~= old(out)@ + u64_le(x));
}

/// Appends a byte string.
fn push_bytes(out: &mut Vec<u8>, data: &Vec<u8>)
    ensures
        final(out)@ == old(out)@ + data@,
{
    let n: usize = data.len();
    let mut i: usize = 0;
    while i < n
        invariant
            n == data@.len(),
            i <= n,
            out@ =~= old(out)@ + data@.take(i as int),
        decreases n - i,
    {
        out.push(data[i]);
        i += 1;
    }
    assert(out@ =~= old(out)@ + data@);
}

/// Appends the concatenation of the owner keys.
fn push_keys(out: &mut Vec<u8>, keys: &Vec<PublicKey>)
    ensures
        final(out)@ == old(out)@ + concat_all(key_views(keys@)),
{
    let n: usize = keys.len();
    let mut i: usize = 0;
    while i < n
        invariant
            n == keys@.len(),
            i <= n,
            out@ =~= old(out)@ + concat_all(key_views(keys@).take(i as int)),
        decreases n - i,
    {
        let ghost prefix = key_views(keys@).take(i as int);
        push_bytes(out, &keys[i].bytes);
        proof {
            let next = key_views(keys@).take(i + 1);
            assert(next.drop_last() =~= prefix);
            assert(next.last() == keys@[i as int]@);
            assert(concat_all(next) == concat_all(prefix) + keys@[i as int]@);
        }
        i += 1;
    }
    assert(key_views(keys@).take(n as int) =~= key_views(keys@));
}

impl Record {
    /// The canonical signable bytes of this versioned record.  Owners sign
    /// exactly this byte string; the quorum check verifies against it.
    pub fn signable_bytes(&self) -> (r: Vec<u8>)
        requires
            self@ is Versioned,
        ensures
            r@ == spec_signable(self@),
    {
        match self {
            Record::Versioned { type_tag, identity, version, payload, owners, .. } => {
                let mut out: Vec<u8> = Vec::new();
                push_u64_le(&mut out, *type_tag);
                push_bytes(&mut out, &identity.bytes);
                push_u64_le(&mut out, *version);
                push_u64_le(&mut out, payload.len() as u64);
                push_bytes(&mut out, payload);
                push_u64_le(&mut out, owners.len() as u64);
                push_keys(&mut out, owners);
                assert(out@ =~= spec_signable(self@));
                out
            },
            Record::Immutable { .. } => {
                proof {
                    assert(false);
                }
                Vec::new()
            },
        }
    }
}

} // verus!
