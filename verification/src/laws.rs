//! What holds of the tables and of resolution under every token.

use vstd::prelude::*;
use crate::identifier::{wire_name, NAME_SEPARATOR, NIL_IDENTIFIER};
use crate::kind::{lemma_verb_table, lemma_verbs, verb_count, RequestType};
use crate::request::{
    resolution, resolved_kind, ParseOutcome, PeerAddress, ResolvedRequest, WireMessage,
};
use crate::tables::{
    collision_free, forward_table, identifier_of, lemma_forward_table, lemma_knock_resolves,
    lemma_reverse_table, reverse_table, unshadowed,
};

verus! {

/// The identifier of a kind resolves to that kind in the forward table of the
/// same token, unless a kind further down the verb table has the same
/// identifier and so took its place.
pub proof fn lemma_identifier_resolves(kind: RequestType, token: Seq<char>)
    requires
        unshadowed(kind, token),
    ensures
        resolved_kind(identifier_of(kind, token), forward_table(token)) == Some(kind),
{
    lemma_forward_table(token);
}

/// Whatever the forward table resolves an identifier to, the reverse table of
/// the same token gives that identifier back.
pub proof fn lemma_reverse_after_forward(id: u128, token: Seq<char>)
    requires
        forward_table(token).contains_key(id),
    ensures
        reverse_table(token).contains_key(forward_table(token)[id]),
        reverse_table(token)[forward_table(token)[id]] == id,
{
    lemma_forward_table(token);
    lemma_reverse_table(token);
}

/// The two tables of a token under which no two kinds share an identifier are
/// inverses of each other: sending a kind's identifier and resolving it gives
/// the kind back, for every kind.
pub proof fn lemma_forward_after_reverse(kind: RequestType, token: Seq<char>)
    requires
        collision_free(token),
    ensures
        reverse_table(token).contains_key(kind),
        forward_table(token).contains_key(reverse_table(token)[kind]),
        forward_table(token)[reverse_table(token)[kind]] == kind,
{
    lemma_forward_table(token);
    lemma_reverse_table(token);
    assert(unshadowed(kind, token));
}

/// A message whose kind identifier is the nil one resolves to a knock under the
/// forward table of every token, wherever a peer address is at hand.
pub proof fn lemma_nil_request_is_knock(
    id: u128,
    wire: WireMessage,
    token: Seq<char>,
    peer: PeerAddress,
)
    requires
        wire.req_type == NIL_IDENTIFIER,
    ensures
        resolution(id, Some(wire), forward_table(token), Some(peer)) is Ok,
        resolution(id, Some(wire), forward_table(token), Some(peer))->Ok_0.req_type
            == RequestType::Knock,
{
    lemma_knock_resolves(token);
}

/// A message whose kind identifier the table does not hold is turned away as
/// unrecognized, whatever the rest of it and whatever the connection says.
pub proof fn lemma_unknown_kind_is_rejected(
    id: u128,
    wire: WireMessage,
    table: Map<u128, RequestType>,
    peer: Option<PeerAddress>,
)
    requires
        !table.contains_key(wire.req_type),
    ensures
        resolution(id, Some(wire), table, peer) == Err::<ResolvedRequest, ParseOutcome>(
            ParseOutcome::UnrecognizedKind,
        ),
{
}

/// No two pairs of a kind and a token give the hash the same name: where the
/// names agree, so do the kinds and the tokens. (Whether different names give
/// different identifiers is the hash's affair and not stated here.)
pub proof fn lemma_names_are_distinct(
    kind_a: RequestType,
    token_a: Seq<char>,
    kind_b: RequestType,
    token_b: Seq<char>,
)
    requires
        wire_name(kind_a.spec_verb(), token_a) == wire_name(kind_b.spec_verb(), token_b),
    ensures
        kind_a == kind_b,
        token_a == token_b,
{
    lemma_verbs();
    reveal_strlit("_");
    reveal_strlit("CONNECT");
    reveal_strlit("DISCONNECT");
    reveal_strlit("HEARTBEAT");
    let name_a = wire_name(kind_a.spec_verb(), token_a);
    let name_b = wire_name(kind_b.spec_verb(), token_b);
    assert(NAME_SEPARATOR@.len() == 1);
    assert(name_a[0] == name_b[0]);
    assert(kind_a == kind_b);
    let skip = kind_a.spec_verb().len() + 1;
    assert(token_a =~= name_a.subrange(skip as int, name_a.len() as int));
    assert(token_b =~= name_b.subrange(skip as int, name_b.len() as int));
}

/// Under a token that gives no two kinds the same identifier, the forward
/// table has one entry for each row of the verb table and no other.
pub proof fn lemma_forward_table_size(token: Seq<char>)
    requires
        collision_free(token),
    ensures
        forward_table(token).dom().finite(),
        forward_table(token).len() == verb_count(),
{
    lemma_forward_table(token);
    lemma_verb_table();
    let knock = identifier_of(RequestType::Knock, token);
    let connect = identifier_of(RequestType::Connect, token);
    let disconnect = identifier_of(RequestType::Disconnect, token);
    let heartbeat = identifier_of(RequestType::Heartbeat, token);
    let keys = Set::<u128>::empty().insert(knock).insert(connect).insert(disconnect).insert(
        heartbeat,
    );
    assert(forward_table(token).dom() =~= keys);
}

} // verus!
