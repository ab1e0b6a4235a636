//! The typed events delivered on the event channel, and the request
//! descriptors they carry.

use vstd::prelude::*;
use crate::authority::Authority;
use crate::identity::NodeIdentity;
use crate::record::ContentKind;
use crate::record::Record;

verus! {

/// A record-request descriptor: which class of record a GET names.
pub enum RecordRequest {
    /// Immutable content of the given classification.
    Immutable { identity: NodeIdentity, kind: ContentKind },
    /// A versioned record of the given type tag.
    Versioned { identity: NodeIdentity, type_tag: u64 },
    /// A plain blob: not a supported record class on the routed GET path.
    Plain { identity: NodeIdentity },
}

/// The mathematical shadow of a [`RecordRequest`].
pub enum RecordRequestModel {
    Immutable { identity: Seq<u8>, kind: ContentKind },
    Versioned { identity: Seq<u8>, type_tag: u64 },
    Plain { identity: Seq<u8> },
}

impl RecordRequestModel {
    /// The record identity the descriptor names.
    pub open spec fn identity(&self) -> Seq<u8> {
        match *self {
            RecordRequestModel::Immutable { identity, .. } => identity,
            RecordRequestModel::Versioned { identity, .. } => identity,
            RecordRequestModel::Plain { identity } => identity,
        }
    }
}

impl View for RecordRequest {
    type V = RecordRequestModel;

    open spec fn view(&self) -> RecordRequestModel {
        match self {
            RecordRequest::Immutable { identity, kind } => RecordRequestModel::Immutable {
                identity: identity@,
                kind: *kind,
            },
            RecordRequest::Versioned { identity, type_tag } => RecordRequestModel::Versioned {
                identity: identity@,
                type_tag: *type_tag,
            },
            RecordRequest::Plain { identity } => RecordRequestModel::Plain { identity: identity@ },
        }
    }
}

/// The operation a routed request asks for.
pub enum RequestKind {
    Get { identity: NodeIdentity, request: RecordRequest },
    Put { record: Record },
    Post { record: Record },
    Delete { record: Record },
}

/// The payload of a routed response.
pub enum ResponseKind {
    Get { record: Record, request: RecordRequest, token: Option<Vec<u8>> },
}

/// An event delivered to the subscriber of the event channel.
pub enum NetworkEvent {
    /// A request addressed to the simulated node.
    IncomingRequest {
        kind: RequestKind,
        our_authority: Authority,
        from_authority: Authority,
        response_token: Option<Vec<u8>>,
    },
    /// A response addressed to the simulated node.
    IncomingResponse { kind: ResponseKind, our_authority: Authority, from_authority: Authority },
    /// A membership change among the simulated network's participants.
    MembershipChanged { nodes: Vec<NodeIdentity> },
    /// The last observable event: the producer side is retiring.
    Terminated,
}

/// How a routing call asks for its outcome to be delivered.
pub enum Delivery {
    /// Emit `event` on the shared event channel after `delay_ms`.
    Subscriber { event: NetworkEvent, delay_ms: u32 },
    /// Emit the raw record on the per-request client response channel.
    ClientResponse { record: Record },
    /// A silent no-op: the real network may legitimately address this hop,
    /// but this simulator does not model it.
    Dropped,
}

} // verus!
