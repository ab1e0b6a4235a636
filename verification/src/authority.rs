//! Authorities: the role-plus-address pairs a message is addressed from and
//! to within the simulated network hierarchy.

use vstd::prelude::*;
use crate::identity::NodeIdentity;
use crate::identity::PublicKey;

verus! {

/// A message's logical sender or recipient.  The variant determines which
/// fields are meaningful: only `Client` carries a public key.
pub enum Authority {
    /// A client, with its address and public key.
    Client { address: NodeIdentity, public_key: PublicKey },
    /// The manager group of a client's own address.
    ClientManager { address: NodeIdentity },
    /// The network-address-element manager responsible for a record by its
    /// identity.
    NaeManager { address: NodeIdentity },
    /// The manager group of a storing node.
    NodeManager { address: NodeIdentity },
    /// A storing node itself.
    ManagedNode { address: NodeIdentity },
    /// An unresolved authority.
    Unknown,
}

/// The mathematical shadow of an [`Authority`].
pub enum AuthorityModel {
    Client { address: Seq<u8>, public_key: Seq<u8> },
    ClientManager { address: Seq<u8> },
    NaeManager { address: Seq<u8> },
    NodeManager { address: Seq<u8> },
    ManagedNode { address: Seq<u8> },
    Unknown,
}

impl View for Authority {
    type V = AuthorityModel;

    open spec fn view(&self) -> AuthorityModel {
        match self {
            Authority::Client { address, public_key } => AuthorityModel::Client {
                address: address@,
                public_key: public_key@,
            },
            Authority::ClientManager { address } => AuthorityModel::ClientManager {
                address: address@,
            },
            Authority::NaeManager { address } => AuthorityModel::NaeManager { address: address@ },
            Authority::NodeManager { address } => AuthorityModel::NodeManager { address: address@ },
            Authority::ManagedNode { address } => AuthorityModel::ManagedNode { address: address@ },
            Authority::Unknown => AuthorityModel::Unknown,
        }
    }
}

} // verus!
