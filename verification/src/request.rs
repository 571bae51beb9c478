//! A request as it arrives, and its resolution against the forward table.

use std::collections::HashMap;
use vstd::prelude::*;
use crate::identifier::{fresh_identifier, is_random, NIL_IDENTIFIER};
use crate::kind::RequestType;

verus! {

broadcast use vstd::std_specs::hash::group_hash_axioms;

/// A message as it travels: who sends it, the identifier that selects its kind,
/// and a payload that this library carries and never reads.
#[derive(Clone, Debug)]
pub struct SerializableRequest {
    pub client_id: u128,
    pub req_type: u128,
    pub contents: Vec<u8>,
}

/// The mathematical content of a `SerializableRequest`.
pub struct WireMessage {
    pub client_id: u128,
    pub req_type: u128,
    pub contents: Seq<u8>,
}

impl View for SerializableRequest {
    type V = WireMessage;

    open spec fn view(&self) -> WireMessage {
        WireMessage { client_id: self.client_id, req_type: self.req_type, contents: self.contents@ }
    }
}

/// The address at the far end of a connection, as the transport reports it.
#[allow(inconsistent_fields)]
#[derive(Clone, Copy, Debug, PartialEq, Eq, Hash, Structural)]
pub enum PeerAddress {
    /// An IPv4 address, its first octet in the most significant byte, and a port.
    V4 { ip: u32, port: u16 },
    /// An IPv6 address, its first segment in the most significant bits, a
    /// port, the flow information and the scope.
    V6 { ip: u128, port: u16, flowinfo: u32, scope_id: u32 },
}

/// Why a message did not become a request. None of these ends the process: the
/// caller decides what becomes of the message and of its connection.
#[derive(Clone, Copy, Debug, PartialEq, Eq, Hash, Structural)]
pub enum ParseOutcome {
    /// The bytes did not decode into a wire message.
    MalformedWire,
    /// The forward table has no entry for the message's kind identifier.
    UnrecognizedKind,
    /// The transport could not tell the address of the peer.
    PeerUnavailable,
}

/// One resolved request. It is made once per message and not changed afterwards.
#[derive(Clone, Debug)]
pub struct Request {
    /// Numbers this request; drawn afresh for each.
    pub id: u128,
    pub client_id: u128,
    pub req_type: RequestType,
    pub contents: Vec<u8>,
    /// Where the message came from, by the connection and not by the message.
    pub addr: PeerAddress,
}

/// The mathematical content of a `Request`.
pub struct ResolvedRequest {
    pub id: u128,
    pub client_id: u128,
    pub req_type: RequestType,
    pub contents: Seq<u8>,
    pub addr: PeerAddress,
}

impl View for Request {
    type V = ResolvedRequest;

    open spec fn view(&self) -> ResolvedRequest {
        ResolvedRequest {
            id: self.id,
            client_id: self.client_id,
            req_type: self.req_type,
            contents: self.contents@,
            addr: self.addr,
        }
    }
}

/// The kind that `table` gives for the identifier `req_type`, if it has one.
pub open spec fn resolved_kind(req_type: u128, table: Map<u128, RequestType>) -> Option<
    RequestType,
> {
    if table.contains_key(req_type) {
        Some(table[req_type])
    } else {
        None
    }
}

/// Why a message is turned away, or `None` where it is not. What did not decode
/// is malformed whatever else holds; an unknown kind is reported before a
/// missing address.
pub open spec fn rejection(
    decoded: Option<WireMessage>,
    table: Map<u128, RequestType>,
    peer: Option<PeerAddress>,
) -> Option<ParseOutcome> {
    if decoded is None {
        Some(ParseOutcome::MalformedWire)
    } else if !table.contains_key(decoded->0.req_type) {
        Some(ParseOutcome::UnrecognizedKind)
    } else if peer is None {
        Some(ParseOutcome::PeerUnavailable)
    } else {
        None
    }
}

/// The request that a message becomes under the number `id`: the kind is the
/// table's, the address is the connection's, the rest is the message's.
pub open spec fn accepted(
    id: u128,
    wire: WireMessage,
    table: Map<u128, RequestType>,
    peer: PeerAddress,
) -> ResolvedRequest {
    ResolvedRequest {
        id,
        client_id: wire.client_id,
        req_type: table[wire.req_type],
        contents: wire.contents,
        addr: peer,
    }
}

/// What becomes of a message under the number `id`.
pub open spec fn resolution(
    id: u128,
    decoded: Option<WireMessage>,
    table: Map<u128, RequestType>,
    peer: Option<PeerAddress>,
) -> Result<ResolvedRequest, ParseOutcome> {
    match rejection(decoded, table, peer) {
        Some(outcome) => Err(outcome),
        None => Ok(accepted(id, decoded->0, table, peer->0)),
    }
}

/// The view of what `Request::new` and `Request::resolve` return.
pub open spec fn outcome_view(outcome: Result<Request, ParseOutcome>) -> Result<
    ResolvedRequest,
    ParseOutcome,
> {
    match outcome {
        Ok(request) => Ok(request@),
        Err(why) => Err(why),
    }
}

/// The view of what the decoder handed over.
pub open spec fn decoded_view(decoded: Option<SerializableRequest>) -> Option<WireMessage> {
    match decoded {
        Some(wire) => Some(wire@),
        None => None,
    }
}

/// Looks the identifier `req_type` up in the forward table.
pub fn resolve_kind(req_type: u128, type_hashes: &HashMap<u128, RequestType>) -> (kind: Option<
    RequestType,
>)
    ensures
        kind == resolved_kind(req_type, type_hashes@),
{
    match type_hashes.get(&req_type) {
        Some(kind) => Some(*kind),
        None => None,
    }
}

/// The parts of a request that the message, the table and the connection give,
/// or the reason why there is no request.
fn screen(
    decoded: Option<SerializableRequest>,
    type_hashes: &HashMap<u128, RequestType>,
    peer: Option<PeerAddress>,
) -> (parts: Result<(SerializableRequest, RequestType, PeerAddress), ParseOutcome>)
    ensures
        match parts {
            Ok((wire, kind, addr)) => {
                &&& rejection(decoded_view(decoded), type_hashes@, peer) is None
                &&& decoded == Some(wire)
                &&& kind == type_hashes@[wire.req_type]
                &&& peer == Some(addr)
            },
            Err(why) => rejection(decoded_view(decoded), type_hashes@, peer) == Some(why),
        },
{
    let wire = match decoded {
        Some(wire) => wire,
        None => {
            return Err(ParseOutcome::MalformedWire);
        },
    };
    let kind = match resolve_kind(wire.req_type, type_hashes) {
        Some(kind) => kind,
        None => {
            return Err(ParseOutcome::UnrecognizedKind);
        },
    };
    match peer {
        Some(addr) => Ok((wire, kind, addr)),
        None => Err(ParseOutcome::PeerUnavailable),
    }
}

impl Request {
    /// Resolves one message under the number `id`. `decoded` is what the
    /// decoder made of the bytes, `None` where it could not; `peer` is what the
    /// connection gave as the address of its far end, `None` where it could
    /// not.
    pub fn resolve(
        id: u128,
        decoded: Option<SerializableRequest>,
        type_hashes: &HashMap<u128, RequestType>,
        peer: Option<PeerAddress>,
    ) -> (outcome: Result<Request, ParseOutcome>)
        ensures
            outcome_view(outcome) == resolution(id, decoded_view(decoded), type_hashes@, peer),
            decoded is Some && !type_hashes@.contains_key(decoded->0.req_type) ==> outcome
                == Err::<Request, ParseOutcome>(ParseOutcome::UnrecognizedKind),
    {
        match screen(decoded, type_hashes, peer) {
            Ok((wire, kind, addr)) => Ok(
                Request {
                    id,
                    client_id: wire.client_id,
                    req_type: kind,
                    contents: wire.contents,
                    addr,
                },
            ),
            Err(why) => Err(why),
        }
    }

    /// Resolves one message and numbers the request afresh. A message that is
    /// turned away draws no number.
    pub fn new(
        decoded: Option<SerializableRequest>,
        type_hashes: &HashMap<u128, RequestType>,
        peer: Option<PeerAddress>,
    ) -> (outcome: Result<Request, ParseOutcome>)
        ensures
            match outcome {
                Ok(request) => {
                    &&& is_random(request.id)
                    &&& request.id != NIL_IDENTIFIER
                    &&& Ok::<ResolvedRequest, ParseOutcome>(request@) == resolution(
                        request.id,
                        decoded_view(decoded),
                        type_hashes@,
                        peer,
                    )
                },
                Err(why) => rejection(decoded_view(decoded), type_hashes@, peer) == Some(why),
            },
            decoded is Some && !type_hashes@.contains_key(decoded->0.req_type) ==> outcome
                == Err::<Request, ParseOutcome>(ParseOutcome::UnrecognizedKind),
    {
        match screen(decoded, type_hashes, peer) {
            Ok((wire, kind, addr)) => Ok(
                Request {
                    id: fresh_identifier(),
                    client_id: wire.client_id,
                    req_type: kind,
                    contents: wire.contents,
                    addr,
                },
            ),
            Err(why) => Err(why),
        }
    }
}

} // verus!
