//! The closed set of request kinds and the table that pairs each with its verb.

use vstd::prelude::*;

verus! {

/// What a request asks for.
#[derive(Clone, Copy, Debug, PartialEq, Eq, Hash, Structural)]
pub enum RequestType {
    /// Asks how to address the server; sent by a client that holds no token yet.
    Knock,
    Connect,
    Disconnect,
    Heartbeat,
}

/// The verbs and their kinds, in the order in which the tables are filled. A
/// new kind is one more variant, one more row here and one more arm in
/// `RequestType::row`; `lemma_verb_table` fails until the three agree.
pub const REQUEST_TYPE_VERB_MAP: [(&'static str, RequestType); 4] = [
    ("", RequestType::Knock),
    ("CONNECT", RequestType::Connect),
    ("DISCONNECT", RequestType::Disconnect),
    ("HEARTBEAT", RequestType::Heartbeat),
];

/// The number of rows of the verb table.
pub open spec fn verb_count() -> nat {
    REQUEST_TYPE_VERB_MAP@.len()
}

/// The verb in row `row` of the verb table.
pub open spec fn verb_at(row: int) -> Seq<char> {
    REQUEST_TYPE_VERB_MAP@[row].0@
}

/// The kind in row `row` of the verb table.
pub open spec fn kind_at(row: int) -> RequestType {
    REQUEST_TYPE_VERB_MAP@[row].1
}

impl RequestType {
    /// The row of the verb table that holds this kind.
    pub open spec fn spec_row(self) -> int {
        match self {
            RequestType::Knock => 0,
            RequestType::Connect => 1,
            RequestType::Disconnect => 2,
            RequestType::Heartbeat => 3,
        }
    }

    /// The verb of this kind; the knock has the empty one.
    pub open spec fn spec_verb(self) -> Seq<char> {
        verb_at(self.spec_row())
    }

    /// The row of the verb table that holds this kind.
    pub fn row(self) -> (row: usize)
        ensures
            row == self.spec_row(),
            row < verb_count(),
            kind_at(row as int) == self,
    {
        match self {
            RequestType::Knock => 0,
            RequestType::Connect => 1,
            RequestType::Disconnect => 2,
            RequestType::Heartbeat => 3,
        }
    }

    /// The verb of this kind; the knock has the empty one.
    pub fn verb(self) -> (verb: &'static str)
        ensures
            verb@ == self.spec_verb(),
    {
        REQUEST_TYPE_VERB_MAP[self.row()].0
    }
}

/// Every kind stands in exactly one row of the verb table, and every row holds
/// a kind: rows and kinds correspond one to one.
pub proof fn lemma_verb_table()
    ensures
        verb_count() == 4,
        forall|kind: RequestType|
            0 <= #[trigger] kind.spec_row() < verb_count() && kind_at(kind.spec_row()) == kind,
        forall|row: int| 0 <= row < verb_count() ==> (#[trigger] kind_at(row)).spec_row() == row,
{
}

/// The verbs of the table, spelled out.
pub proof fn lemma_verbs()
    ensures
        RequestType::Knock.spec_verb() == Seq::<char>::empty(),
        RequestType::Connect.spec_verb() == "CONNECT"@,
        RequestType::Disconnect.spec_verb() == "DISCONNECT"@,
        RequestType::Heartbeat.spec_verb() == "HEARTBEAT"@,
{
    reveal_strlit("");
    assert(""@ =~= Seq::<char>::empty());
}

} // verus!
