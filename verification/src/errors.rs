//! The error kinds the simulator reports.  Validation failures are returned
//! synchronously from the mutation entry points, never as delayed events, so
//! callers learn of a rejected write before any simulated latency.

use vstd::prelude::*;

verus! {

/// Why an operation was refused.
#[derive(Clone, Copy, PartialEq, Eq, Structural, Debug)]
pub enum SimError {
    /// GET, POST or DELETE addressed an identity with no stored record.
    NotFound,
    /// Duplicate immutable content with a mismatched classification, or a
    /// versioned PUT to an existing identity, or a versioned PUT whose
    /// version is not 0, or a POST/DELETE whose stored or incoming record is
    /// not versioned.
    Conflict,
    /// A POST or DELETE whose incoming version is not exactly one above the
    /// stored version.
    VersionMismatch,
    /// A POST or DELETE whose incoming identity differs from the stored one.
    IdentityMismatch,
    /// A POST or DELETE countersigned by no strict majority of the stored
    /// owners.
    QuorumNotMet,
    /// A GET request whose descriptor kind is not a supported record class.
    MalformedRequest,
    /// A PUT routed at an authority variant that cannot own a PUT
    /// destination.
    UnsupportedAuthority,
}

} // verus!
