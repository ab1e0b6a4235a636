//! The authority router: the simulated routing endpoint a node or client
//! under test talks to.
//!
//! Each routing method decides the concrete source/destination authority
//! pair, the event the recipient should observe, and the delay before
//! delivery.  The decision is returned as a [`Delivery`]; performing the
//! asynchronous send is the embedding harness's job.  Mutations go through
//! the validator on the owned data store and report their outcome
//! synchronously, before any simulated latency.

use vstd::prelude::*;
use crate::authority::Authority;
use crate::authority::AuthorityModel;
use crate::errors::SimError;
use crate::events::Delivery;
use crate::events::NetworkEvent;
use crate::events::RecordRequest;
use crate::events::RecordRequestModel;
use crate::events::RequestKind;
use crate::events::ResponseKind;
use crate::identity::repeated_address;
use crate::identity::NodeIdentity;
use crate::identity::PublicKey;
use crate::record::ContentKind;
use crate::record::Record;
use crate::record::RecordModel;
use crate::store::DataStore;
use crate::validator::delete_decision;
use crate::validator::post_decision;
use crate::validator::put_decision;

verus! {

/// The byte every address byte of the well-known placeholder node holds.
pub const WELL_KNOWN_NODE_BYTE: u8 = 7;

/// The byte every address byte of the well-known node-manager placeholder
/// holds.
pub const WELL_KNOWN_MANAGER_BYTE: u8 = 6;

/// The simulated routing endpoint: owns the data store and the configured
/// delivery delay.
pub struct MockRouting {
    pub network_delay_ms: u32,
    pub store: DataStore,
}

impl MockRouting {
    /// The owned store is well formed.
    pub open spec fn wf(&self) -> bool {
        self.store.wf()
    }

    /// A fresh endpoint with an empty store and the default 1000 ms delay.
    pub fn new() -> (r: MockRouting)
        ensures
            r.wf(),
            r.network_delay_ms == 1000,
            r.store@ == Map::<Seq<u8>, RecordModel>::empty(),
    {
        MockRouting { network_delay_ms: 1000, store: DataStore::new() }
    }

    /// Adjusts the simulated network delay.
    pub fn set_network_delay_for_delay_simulation(&mut self, delay_ms: u32)
        ensures
            final(self).network_delay_ms == delay_ms,
            final(self).store == old(self).store,
    {
        self.network_delay_ms = delay_ms;
    }

    /// Joining the simulated network always succeeds and changes nothing.
    pub fn bootstrap(&mut self) -> (r: Result<(), SimError>)
        ensures
            r is Ok,
            *final(self) == *old(self),
    {
        Ok(())
    }

    /// The last observable event: the producer side is retiring.
    pub fn close(&self) -> (e: NetworkEvent)
        ensures
            e is Terminated,
    {
        NetworkEvent::Terminated
    }

    /// A client GET for immutable content of classification `Normal` at
    /// `name`: delivered immediately to the subscriber as a request the
    /// responsible address-element manager observes.
    pub fn client_get(
        &self,
        client_address: NodeIdentity,
        client_pub_key: PublicKey,
        name: NodeIdentity,
    ) -> (d: Delivery)
        ensures
            ({
                &&& d matches Delivery::Subscriber { event, delay_ms }
                &&& delay_ms == 0
                &&& event matches NetworkEvent::IncomingRequest {
                    kind,
                    our_authority,
                    from_authority,
                    response_token,
                }
                &&& kind matches RequestKind::Get { identity, request }
                &&& identity@ == name@
                &&& request@ == (RecordRequestModel::Immutable {
                    identity: name@,
                    kind: ContentKind::Normal,
                })
                &&& our_authority@ == (AuthorityModel::NaeManager { address: name@ })
                &&& from_authority@ == (AuthorityModel::Client {
                    address: client_address@,
                    public_key: client_pub_key@,
                })
                &&& response_token is None
            }),
    {
        let req_identity = name.duplicate();
        let our_authority = Authority::NaeManager { address: name.duplicate() };
        let from_authority = Authority::Client { address: client_address, public_key: client_pub_key };
        let request = RecordRequest::Immutable { identity: name, kind: ContentKind::Normal };
        Delivery::Subscriber {
            event: NetworkEvent::IncomingRequest {
                kind: RequestKind::Get { identity: req_identity, request },
                our_authority,
                from_authority,
                response_token: None,
            },
            delay_ms: 0,
        }
    }

    /// A client PUT of `record`: delivered to the subscriber after the
    /// configured delay as a request the client's own manager observes.
    pub fn client_put(
        &self,
        client_address: NodeIdentity,
        client_pub_key: PublicKey,
        record: Record,
    ) -> (d: Delivery)
        ensures
            ({
                &&& d matches Delivery::Subscriber { event, delay_ms }
                &&& delay_ms == self.network_delay_ms
                &&& event matches NetworkEvent::IncomingRequest {
                    kind,
                    our_authority,
                    from_authority,
                    response_token,
                }
                &&& kind matches RequestKind::Put { record: rec }
                &&& rec@ == record@
                &&& our_authority@ == (AuthorityModel::ClientManager { address: client_address@ })
                &&& from_authority@ == (AuthorityModel::Client {
                    address: client_address@,
                    public_key: client_pub_key@,
                })
                &&& response_token is None
            }),
    {
        let our_authority = Authority::ClientManager { address: client_address.duplicate() };
        let from_authority = Authority::Client { address: client_address, public_key: client_pub_key };
        Delivery::Subscriber {
            event: NetworkEvent::IncomingRequest {
                kind: RequestKind::Put { record },
                our_authority,
                from_authority,
                response_token: None,
            },
            delay_ms: self.network_delay_ms,
        }
    }

    /// A membership change: delivered immediately, with no validation.
    pub fn churn_event(&self, nodes: Vec<NodeIdentity>) -> (d: Delivery)
        ensures
            ({
                &&& d matches Delivery::Subscriber { event, delay_ms }
                &&& delay_ms == 0
                &&& event matches NetworkEvent::MembershipChanged { nodes: n }
                &&& n == nodes
            }),
    {
        Delivery::Subscriber { event: NetworkEvent::MembershipChanged { nodes }, delay_ms: 0 }
    }

    /// Routes a GET response to its destination: an address-element manager
    /// observes it as an incoming response from the well-known storing node;
    /// a client receives the raw record on its per-request channel; any
    /// other destination is a silent no-op.
    pub fn get_response(
        &self,
        location: Authority,
        record: Record,
        request: RecordRequest,
        token: Option<Vec<u8>>,
    ) -> (d: Delivery)
        ensures
            location@ is NaeManager ==> ({
                &&& d matches Delivery::Subscriber { event, delay_ms }
                &&& delay_ms == 0
                &&& event matches NetworkEvent::IncomingResponse {
                    kind,
                    our_authority,
                    from_authority,
                }
                &&& kind matches ResponseKind::Get { record: rec, request: req, token: tok }
                &&& rec@ == record@
                &&& req@ == request@
                &&& tok == token
                &&& our_authority@ == location@
                &&& from_authority@ == (AuthorityModel::ManagedNode {
                    address: repeated_address(WELL_KNOWN_NODE_BYTE),
                })
            }),
            location@ is Client ==> ({
                &&& d matches Delivery::ClientResponse { record: rec }
                &&& rec@ == record@
            }),
            !(location@ is NaeManager) && !(location@ is Client) ==> d is Dropped,
    {
        match location {
            Authority::NaeManager { .. } => {
                let from_authority = Authority::ManagedNode {
                    address: NodeIdentity::repeated(WELL_KNOWN_NODE_BYTE),
                };
                Delivery::Subscriber {
                    event: NetworkEvent::IncomingResponse {
                        kind: ResponseKind::Get { record, request, token },
                        our_authority: location,
                        from_authority,
                    },
                    delay_ms: 0,
                }
            },
            Authority::Client { .. } => Delivery::ClientResponse { record },
            _ => Delivery::Dropped,
        }
    }

    /// Routes a node-forwarding GET request.  The descriptor must name a
    /// supported record class, else the call fails with `MalformedRequest`;
    /// a `ManagedNode` destination observes the request, after the
    /// configured delay, as coming from the responsible address-element
    /// manager; any other destination is a silent no-op.
    pub fn get_request(&self, location: Authority, request_for: RecordRequest) -> (r: Result<
        Delivery,
        SimError,
    >)
        ensures
            r is Err <==> request_for@ is Plain,
            r matches Err(e) ==> e == SimError::MalformedRequest,
            !(request_for@ is Plain) && location@ is ManagedNode ==> ({
                &&& r matches Ok(d)
                &&& d matches Delivery::Subscriber { event, delay_ms }
                &&& delay_ms == self.network_delay_ms
                &&& event matches NetworkEvent::IncomingRequest {
                    kind,
                    our_authority,
                    from_authority,
                    response_token,
                }
                &&& kind matches RequestKind::Get { identity, request }
                &&& identity@ == request_for@.identity()
                &&& request@ == request_for@
                &&& our_authority@ == (AuthorityModel::ManagedNode {
                    address: repeated_address(WELL_KNOWN_NODE_BYTE),
                })
                &&& from_authority@ == (AuthorityModel::NaeManager {
                    address: request_for@.identity(),
                })
                &&& response_token is None
            }),
            !(request_for@ is Plain) && !(location@ is ManagedNode) ==> ({
                &&& r matches Ok(d)
                &&& d is Dropped
            }),
    {
        let name = match &request_for {
            RecordRequest::Immutable { identity, .. } => identity.duplicate(),
            RecordRequest::Versioned { identity, .. } => identity.duplicate(),
            RecordRequest::Plain { .. } => {
                return Err(SimError::MalformedRequest);
            },
        };
        match location {
            Authority::ManagedNode { .. } => {
                let our_authority = Authority::ManagedNode {
                    address: NodeIdentity::repeated(WELL_KNOWN_NODE_BYTE),
                };
                let from_authority = Authority::NaeManager { address: name.duplicate() };
                Ok(
                    Delivery::Subscriber {
                        event: NetworkEvent::IncomingRequest {
                            kind: RequestKind::Get { identity: name, request: request_for },
                            our_authority,
                            from_authority,
                            response_token: None,
                        },
                        delay_ms: self.network_delay_ms,
                    },
                )
            },
            _ => Ok(Delivery::Dropped),
        }
    }

    /// Routes a PUT request one hop down the simulated hierarchy.  The
    /// destination is the authority's embedded address; a variant that
    /// cannot own a PUT destination fails with `UnsupportedAuthority`.  The
    /// from-authority is the fixed one-hop-up mapping: an address-element
    /// manager hears from the well-known client manager, a node manager from
    /// the address-element manager of the record's identity, a storing node
    /// from the well-known node manager, and a client manager is the unused
    /// terminal.
    pub fn put_request(&self, location: Authority, record: Record) -> (r: Result<
        Delivery,
        SimError,
    >)
        ensures
            r is Err <==> (location@ is Client || location@ is Unknown),
            r matches Err(e) ==> e == SimError::UnsupportedAuthority,
            location@ is ClientManager ==> ({
                &&& r matches Ok(d)
                &&& d is Dropped
            }),
            location@ is NaeManager ==> ({
                &&& r matches Ok(d)
                &&& d matches Delivery::Subscriber { event, delay_ms }
                &&& delay_ms == self.network_delay_ms
                &&& event matches NetworkEvent::IncomingRequest {
                    kind,
                    our_authority,
                    from_authority,
                    response_token,
                }
                &&& kind matches RequestKind::Put { record: rec }
                &&& rec@ == record@
                &&& our_authority@ == location@
                &&& from_authority@ == (AuthorityModel::ClientManager {
                    address: repeated_address(WELL_KNOWN_NODE_BYTE),
                })
                &&& response_token is None
            }),
            location@ is NodeManager ==> ({
                &&& r matches Ok(d)
                &&& d matches Delivery::Subscriber { event, delay_ms }
                &&& delay_ms == self.network_delay_ms
                &&& event matches NetworkEvent::IncomingRequest {
                    kind,
                    our_authority,
                    from_authority,
                    response_token,
                }
                &&& kind matches RequestKind::Put { record: rec }
                &&& rec@ == record@
                &&& our_authority@ == location@
                &&& from_authority@ == (AuthorityModel::NaeManager { address: record@.identity() })
                &&& response_token is None
            }),
            location@ is ManagedNode ==> ({
                &&& r matches Ok(d)
                &&& d matches Delivery::Subscriber { event, delay_ms }
                &&& delay_ms == self.network_delay_ms
                &&& event matches NetworkEvent::IncomingRequest {
                    kind,
                    our_authority,
                    from_authority,
                    response_token,
                }
                &&& kind matches RequestKind::Put { record: rec }
                &&& rec@ == record@
                &&& our_authority@ == location@
                &&& from_authority@ == (AuthorityModel::NodeManager {
                    address: repeated_address(WELL_KNOWN_MANAGER_BYTE),
                })
                &&& response_token is None
            }),
    {
        match location {
            Authority::Client { .. } => Err(SimError::UnsupportedAuthority),
            Authority::Unknown => Err(SimError::UnsupportedAuthority),
            Authority::ClientManager { .. } => Ok(Delivery::Dropped),
            Authority::NaeManager { .. } => {
                let from_authority = Authority::ClientManager {
                    address: NodeIdentity::repeated(WELL_KNOWN_NODE_BYTE),
                };
                Ok(
                    Delivery::Subscriber {
                        event: NetworkEvent::IncomingRequest {
                            kind: RequestKind::Put { record },
                            our_authority: location,
                            from_authority,
                            response_token: None,
                        },
                        delay_ms: self.network_delay_ms,
                    },
                )
            },
            Authority::NodeManager { .. } => {
                let from_authority = Authority::NaeManager { address: record.record_identity() };
                Ok(
                    Delivery::Subscriber {
                        event: NetworkEvent::IncomingRequest {
                            kind: RequestKind::Put { record },
                            our_authority: location,
                            from_authority,
                            response_token: None,
                        },
                        delay_ms: self.network_delay_ms,
                    },
                )
            },
            Authority::ManagedNode { .. } => {
                let from_authority = Authority::NodeManager {
                    address: NodeIdentity::repeated(WELL_KNOWN_MANAGER_BYTE),
                };
                Ok(
                    Delivery::Subscriber {
                        event: NetworkEvent::IncomingRequest {
                            kind: RequestKind::Put { record },
                            our_authority: location,
                            from_authority,
                            response_token: None,
                        },
                        delay_ms: self.network_delay_ms,
                    },
                )
            },
        }
    }

    /// GET against the owned store: never mutates.
    pub fn get(&self, location: &NodeIdentity) -> (r: Result<&Record, SimError>)
        requires
            self.wf(),
        ensures
            match r {
                Ok(rec) => self.store@.contains_key(location@) && rec@ == self.store@[location@],
                Err(e) => e == SimError::NotFound && !self.store@.contains_key(location@),
            },
    {
        self.store.get(location)
    }

    /// PUT against the owned store, subject to the validator's
    /// [`put_decision`].
    pub fn put(&mut self, record: Record) -> (r: Result<(), SimError>)
        requires
            old(self).wf(),
            record@.wf(),
        ensures
            final(self).wf(),
            final(self).network_delay_ms == old(self).network_delay_ms,
            r == put_decision(old(self).store@, record@),
            final(self).store@ == (if r is Ok {
                old(self).store@.insert(record@.identity(), record@)
            } else {
                old(self).store@
            }),
    {
        self.store.put(record)
    }

    /// POST against the owned store, subject to the validator's
    /// [`post_decision`].
    pub fn post(&mut self, location: &NodeIdentity, incoming: Record) -> (r: Result<(), SimError>)
        requires
            old(self).wf(),
            incoming@.wf(),
        ensures
            final(self).wf(),
            final(self).network_delay_ms == old(self).network_delay_ms,
            r == post_decision(old(self).store@, location@, incoming@),
            final(self).store@ == (if r is Ok {
                old(self).store@.insert(location@, incoming@)
            } else {
                old(self).store@
            }),
    {
        self.store.post(location, incoming)
    }

    /// DELETE against the owned store, subject to the validator's
    /// [`delete_decision`].
    pub fn delete(&mut self, location: &NodeIdentity, incoming: &Record) -> (r: Result<
        (),
        SimError,
    >)
        requires
            old(self).wf(),
            incoming@.wf(),
        ensures
            final(self).wf(),
            final(self).network_delay_ms == old(self).network_delay_ms,
            r == delete_decision(old(self).store@, location@, incoming@),
            final(self).store@ == (if r is Ok {
                old(self).store@.remove(location@)
            } else {
                old(self).store@
            }),
    {
        self.store.delete(location, incoming)
    }
}

} // verus!
