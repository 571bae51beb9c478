//! The two lookup tables that a secret token gives: from identifier to kind,
//! for the side that receives, and from kind to identifier, for the side that
//! sends.

use std::collections::HashMap;
use vstd::prelude::*;
use crate::identifier::{
    derive_identifier, derived_identifier, lemma_name_based_layout, name_based_identifier,
    wire_name, NIL_IDENTIFIER,
};
use crate::kind::{kind_at, lemma_verb_table, verb_at, verb_count, RequestType, REQUEST_TYPE_VERB_MAP};
use crate::request::Request;

verus! {

broadcast use vstd::std_specs::hash::group_hash_axioms;

/// The identifier of row `row` of the verb table under `token`: the nil one for
/// the knock, which is never hashed, and for every other kind the one that its
/// verb derives.
pub open spec fn identifier_at(row: int, token: Seq<char>) -> u128 {
    if kind_at(row) == RequestType::Knock {
        NIL_IDENTIFIER
    } else {
        derived_identifier(wire_name(verb_at(row), token))
    }
}

/// The identifier that stands for `kind` under `token`.
pub open spec fn identifier_of(kind: RequestType, token: Seq<char>) -> u128 {
    identifier_at(kind.spec_row(), token)
}

/// The forward table after the first `rows` rows of the verb table went in, one
/// after the other: a later row takes the place of an earlier one with the same
/// identifier.
pub open spec fn forward_rows(token: Seq<char>, rows: nat) -> Map<u128, RequestType>
    decreases rows,
{
    if rows == 0 {
        Map::empty()
    } else {
        forward_rows(token, (rows - 1) as nat).insert(
            identifier_at(rows - 1, token),
            kind_at(rows - 1),
        )
    }
}

/// The table from identifier to kind under `token`.
pub open spec fn forward_table(token: Seq<char>) -> Map<u128, RequestType> {
    forward_rows(token, verb_count())
}

/// The reverse table after the first `rows` rows of the verb table went in.
pub open spec fn reverse_rows(token: Seq<char>, rows: nat) -> Map<RequestType, u128>
    decreases rows,
{
    if rows == 0 {
        Map::empty()
    } else {
        reverse_rows(token, (rows - 1) as nat).insert(
            kind_at(rows - 1),
            identifier_at(rows - 1, token),
        )
    }
}

/// The table from kind to identifier under `token`.
pub open spec fn reverse_table(token: Seq<char>) -> Map<RequestType, u128> {
    reverse_rows(token, verb_count())
}

/// No kind that the verb table lists after `kind` has the identifier of `kind`
/// under `token`.
pub open spec fn unshadowed(kind: RequestType, token: Seq<char>) -> bool {
    forall|later: RequestType|
        kind.spec_row() < later.spec_row() ==> #[trigger] identifier_of(later, token)
            != identifier_of(kind, token)
}

/// No two kinds have the same identifier under `token`.
pub open spec fn collision_free(token: Seq<char>) -> bool {
    forall|a: RequestType, b: RequestType|
        a != b ==> #[trigger] identifier_of(a, token) != #[trigger] identifier_of(b, token)
}

/// The identifier that stands for `kind` under the secret `token`.
pub fn identifier_for(kind: RequestType, token: &str) -> (id: u128)
    ensures
        id == identifier_of(kind, token@),
        (id == NIL_IDENTIFIER) == (kind == RequestType::Knock),
{
    proof {
        lemma_identifier_nil(kind, token@);
    }
    if kind == RequestType::Knock {
        NIL_IDENTIFIER
    } else {
        derive_identifier(kind.verb(), token)
    }
}

/// Only the knock has the nil identifier, under any token.
pub proof fn lemma_identifier_nil(kind: RequestType, token: Seq<char>)
    ensures
        (identifier_of(kind, token) == NIL_IDENTIFIER) == (kind == RequestType::Knock),
{
    lemma_verb_table();
    lemma_name_based_layout(name_based_identifier(wire_name(kind.spec_verb(), token)));
}

/// What the forward table holds: an identifier is a key exactly if some kind has
/// it; under the identifier of a kind stands that kind, unless a later row of
/// the verb table has the same identifier; and whatever kind stands under an
/// identifier has that identifier.
pub proof fn lemma_forward_table(token: Seq<char>)
    ensures
        forall|id: u128|
            forward_table(token).contains_key(id) <==> exists|kind: RequestType|
                #[trigger] identifier_of(kind, token) == id,
        forall|kind: RequestType|
            unshadowed(kind, token) ==> forward_table(token)[#[trigger] identifier_of(kind, token)]
                == kind,
        forall|id: u128| #[trigger]
            forward_table(token).contains_key(id) ==> identifier_of(forward_table(token)[id], token)
                == id,
{
    lemma_verb_table();
    reveal_with_fuel(forward_rows, 5);
    let table = forward_table(token);
    assert forall|id: u128| table.contains_key(id) implies exists|kind: RequestType|
        #[trigger] identifier_of(kind, token) == id by {
        if id == identifier_at(3, token) {
            assert(identifier_of(RequestType::Heartbeat, token) == id);
        } else if id == identifier_at(2, token) {
            assert(identifier_of(RequestType::Disconnect, token) == id);
        } else if id == identifier_at(1, token) {
            assert(identifier_of(RequestType::Connect, token) == id);
        } else {
            assert(identifier_of(RequestType::Knock, token) == id);
        }
    }
    assert forall|kind: RequestType| unshadowed(kind, token) implies table[#[trigger] identifier_of(
        kind,
        token,
    )] == kind by {
        assert(identifier_of(RequestType::Connect, token) == identifier_at(1, token));
        assert(identifier_of(RequestType::Disconnect, token) == identifier_at(2, token));
        assert(identifier_of(RequestType::Heartbeat, token) == identifier_at(3, token));
    }
}

impl Request {
    /// Builds the table from identifier to kind under the secret
    /// `validation_token`, for the side that receives: the rows of the verb
    /// table go in one after the other.
    pub fn create_request_type_hashes(validation_token: &str) -> (hashes: HashMap<
        u128,
        RequestType,
    >)
        ensures
            hashes@ == forward_table(validation_token@),
            hashes@.contains_key(NIL_IDENTIFIER),
            hashes@[NIL_IDENTIFIER] == RequestType::Knock,
            forall|kind: RequestType|
                hashes@.contains_key(#[trigger] identifier_of(kind, validation_token@)),
            forall|kind: RequestType|
                unshadowed(kind, validation_token@) ==> hashes@[#[trigger] identifier_of(
                    kind,
                    validation_token@,
                )] == kind,
    {
        let mut hashes: HashMap<u128, RequestType> = HashMap::new();
        let mut row: usize = 0;
        while row < REQUEST_TYPE_VERB_MAP.len()
            invariant
                row <= verb_count(),
                hashes@ == forward_rows(validation_token@, row as nat),
            decreases verb_count() - row,
        {
            let kind = REQUEST_TYPE_VERB_MAP[row].1;
            proof {
                lemma_verb_table();
            }
            let id = identifier_for(kind, validation_token);
            hashes.insert(id, kind);
            row += 1;
        }
        proof {
            lemma_forward_table(validation_token@);
            lemma_knock_resolves(validation_token@);
        }
        hashes
    }
}

/// Under every token the nil identifier resolves, and to the knock.
pub proof fn lemma_knock_resolves(token: Seq<char>)
    ensures
        forward_table(token).contains_key(NIL_IDENTIFIER),
        forward_table(token)[NIL_IDENTIFIER] == RequestType::Knock,
{
    lemma_forward_table(token);
    lemma_identifier_nil(RequestType::Knock, token);
    assert forall|later: RequestType|
        RequestType::Knock.spec_row() < later.spec_row() implies #[trigger] identifier_of(
        later,
        token,
    ) != identifier_of(RequestType::Knock, token) by {
        lemma_identifier_nil(later, token);
    }
}

/// The table from kind to identifier, for the side that sends. It is made by
/// `Request::create_request_type_reverse_hashes` and never changes afterwards.
pub struct ReverseTable {
    /// The identifiers, each under the row that its kind has in the verb table.
    by_row: HashMap<usize, u128>,
}

impl View for ReverseTable {
    type V = Map<RequestType, u128>;

    closed spec fn view(&self) -> Map<RequestType, u128> {
        Map::new(
            |kind: RequestType| self.by_row@.contains_key(kind.spec_row() as usize),
            |kind: RequestType| self.by_row@[kind.spec_row() as usize],
        )
    }
}

impl ReverseTable {
    /// The identifier to send for `kind`, if the table has one.
    pub fn get(&self, kind: RequestType) -> (id: Option<u128>)
        ensures
            id == (if self@.contains_key(kind) {
                Some(self@[kind])
            } else {
                None
            }),
    {
        let row = kind.row();
        match self.by_row.get(&row) {
            Some(id) => Some(*id),
            None => None,
        }
    }

    /// Whether the table has an identifier for `kind`.
    pub fn contains_key(&self, kind: RequestType) -> (found: bool)
        ensures
            found == self@.contains_key(kind),
    {
        let row = kind.row();
        self.by_row.contains_key(&row)
    }
}

/// What the reverse table holds: every kind is a key, and under it stands the
/// kind's identifier.
pub proof fn lemma_reverse_table(token: Seq<char>)
    ensures
        forall|kind: RequestType| #[trigger] reverse_table(token).contains_key(kind),
        forall|kind: RequestType| #[trigger]
            reverse_table(token)[kind] == identifier_of(kind, token),
{
    lemma_verb_table();
    reveal_with_fuel(reverse_rows, 5);
}

impl Request {
    /// Builds the table from kind to identifier under the secret
    /// `validation_token`, for the side that sends.
    pub fn create_request_type_reverse_hashes(validation_token: &str) -> (hashes: ReverseTable)
        ensures
            hashes@ == reverse_table(validation_token@),
            forall|kind: RequestType| #[trigger] hashes@.contains_key(kind),
            forall|kind: RequestType| #[trigger]
                hashes@[kind] == identifier_of(kind, validation_token@),
            forall|kind: RequestType|
                (#[trigger] hashes@[kind] == NIL_IDENTIFIER) == (kind == RequestType::Knock),
    {
        let mut by_row: HashMap<usize, u128> = HashMap::new();
        let mut row: usize = 0;
        while row < REQUEST_TYPE_VERB_MAP.len()
            invariant
                row <= verb_count(),
                forall|r: usize| by_row@.contains_key(r) <==> r < row,
                forall|r: usize| r < row ==> #[trigger] by_row@[r] == identifier_at(r as int, validation_token@),
            decreases verb_count() - row,
        {
            let kind = REQUEST_TYPE_VERB_MAP[row].1;
            proof {
                lemma_verb_table();
            }
            let id = identifier_for(kind, validation_token);
            by_row.insert(row, id);
            row += 1;
        }
        let hashes = ReverseTable { by_row };
        proof {
            lemma_verb_table();
            lemma_reverse_table(validation_token@);
            assert(hashes@ =~= reverse_table(validation_token@));
            assert forall|kind: RequestType|
                (#[trigger] hashes@[kind] == NIL_IDENTIFIER) == (kind == RequestType::Knock) by {
                lemma_identifier_nil(kind, validation_token@);
            }
        }
        hashes
    }
}

} // verus!
