//! An in-process simulator of a content-addressable storage network's
//! message-routing layer.
//!
//! The simulator has two halves.  The authority router resolves GET/PUT
//! requests and responses, tagged with sender/receiver roles, into the typed
//! events a simulated node observes.  The mutation validator enforces the
//! deduplication, version-monotonicity and owner-quorum rules for writes to
//! the backing data store, so that code under test exercises the same failure
//! paths a real network would produce.

pub mod authority;
pub mod crypto;
pub mod errors;
pub mod events;
pub mod identity;
pub mod laws;
pub mod record;
pub mod router;
pub mod signable;
pub mod store;
pub mod validator;

pub use authority::Authority;
pub use errors::SimError;
pub use events::Delivery;
pub use events::NetworkEvent;
pub use events::RecordRequest;
pub use events::RequestKind;
pub use events::ResponseKind;
pub use identity::NodeIdentity;
pub use identity::PublicKey;
pub use identity::Signature;
pub use record::ContentKind;
pub use record::Record;
pub use router::MockRouting;
pub use store::DataStore;
