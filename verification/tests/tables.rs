use knock_request::{
    derive_identifier, identifier_for, resolve_kind, Request, RequestType, NIL_IDENTIFIER,
    REQUEST_TYPE_VERB_MAP,
};

const CONNECT_ABC123: u128 = 0xd0a6_4483_8b51_5938_8128_2106_3dec_fe22;
const DISCONNECT_ABC123: u128 = 0x9ec6_fd28_b8ea_5f4f_80bb_b43b_e036_dee0;
const HEARTBEAT_ABC123: u128 = 0x6ece_a9a7_217a_5c5b_bd0a_a912_b736_0267;
const CONNECT_OTHER: u128 = 0x33fe_7818_c190_569e_8e7d_fe60_5384_f4f7;

fn all_kinds() -> [RequestType; 4] {
    [RequestType::Knock, RequestType::Connect, RequestType::Disconnect, RequestType::Heartbeat]
}

#[test]
fn verb_table_lists_each_kind_once() {
    assert_eq!(REQUEST_TYPE_VERB_MAP.len(), 4);
    assert_eq!(REQUEST_TYPE_VERB_MAP[0], ("", RequestType::Knock));
    assert_eq!(REQUEST_TYPE_VERB_MAP[1], ("CONNECT", RequestType::Connect));
    assert_eq!(REQUEST_TYPE_VERB_MAP[2], ("DISCONNECT", RequestType::Disconnect));
    assert_eq!(REQUEST_TYPE_VERB_MAP[3], ("HEARTBEAT", RequestType::Heartbeat));
    for kind in all_kinds() {
        let rows = REQUEST_TYPE_VERB_MAP.iter().filter(|row| row.1 == kind).count();
        assert_eq!(rows, 1);
    }
}

#[test]
fn kinds_know_their_row_and_verb() {
    assert_eq!(RequestType::Knock.row(), 0);
    assert_eq!(RequestType::Connect.row(), 1);
    assert_eq!(RequestType::Disconnect.row(), 2);
    assert_eq!(RequestType::Heartbeat.row(), 3);
    assert_eq!(RequestType::Knock.verb(), "");
    assert_eq!(RequestType::Connect.verb(), "CONNECT");
    assert_eq!(RequestType::Disconnect.verb(), "DISCONNECT");
    assert_eq!(RequestType::Heartbeat.verb(), "HEARTBEAT");
    for kind in all_kinds() {
        assert_eq!(REQUEST_TYPE_VERB_MAP[kind.row()], (kind.verb(), kind));
    }
}

#[test]
fn derive_gives_the_known_identifiers() {
    assert_eq!(derive_identifier("CONNECT", "abc123"), CONNECT_ABC123);
    assert_eq!(derive_identifier("DISCONNECT", "abc123"), DISCONNECT_ABC123);
    assert_eq!(derive_identifier("HEARTBEAT", "abc123"), HEARTBEAT_ABC123);
    assert_eq!(derive_identifier("CONNECT", "other"), CONNECT_OTHER);
    assert_eq!(derive_identifier("CONNECT", ""), 0x666e_6e78_7539_5717_9ba3_3562_501d_6b90);
    assert_eq!(derive_identifier("", ""), 0x82af_1a58_eed6_5bd9_a11a_9a5b_c5ba_0b0d);
}

#[test]
fn derive_hashes_verb_separator_token_under_the_oid_namespace() {
    let expected = uuid::Uuid::new_v5(&uuid::Uuid::NAMESPACE_OID, b"HEARTBEAT_s3cr3t");
    assert_eq!(derive_identifier("HEARTBEAT", "s3cr3t"), expected.as_u128());
    assert_eq!(uuid::Uuid::from_u128(CONNECT_ABC123).to_string(), "d0a64483-8b51-5938-8128-21063decfe22");
}

#[test]
fn derive_takes_the_token_as_utf8() {
    assert_eq!(
        derive_identifier("CONNECT", "\u{e9}t\u{e9}"),
        0x9af0_3dd9_e955_5699_9fc1_6d14_701f_4540
    );
}

#[test]
fn derive_is_repeatable() {
    assert_eq!(derive_identifier("CONNECT", "abc123"), derive_identifier("CONNECT", "abc123"));
}

#[test]
fn derived_identifiers_have_the_name_based_layout() {
    for token in ["", "abc123", "other", "a much longer token, with spaces"] {
        for kind in [RequestType::Connect, RequestType::Disconnect, RequestType::Heartbeat] {
            let id = identifier_for(kind, token);
            assert_eq!((id >> 76) & 0xf, 5);
            assert_eq!((id >> 62) & 0x3, 2);
            assert_ne!(id, NIL_IDENTIFIER);
            assert_eq!(uuid::Uuid::from_u128(id).get_version_num(), 5);
        }
    }
}

#[test]
fn identifier_for_knock_is_nil_under_any_token() {
    assert_eq!(NIL_IDENTIFIER, 0);
    assert_eq!(NIL_IDENTIFIER, uuid::Uuid::nil().as_u128());
    for token in ["", "abc123", "other"] {
        assert_eq!(identifier_for(RequestType::Knock, token), NIL_IDENTIFIER);
    }
}

#[test]
fn identifier_for_other_kinds_is_derived_from_the_verb() {
    assert_eq!(identifier_for(RequestType::Connect, "abc123"), CONNECT_ABC123);
    assert_eq!(identifier_for(RequestType::Disconnect, "abc123"), DISCONNECT_ABC123);
    assert_eq!(identifier_for(RequestType::Heartbeat, "abc123"), HEARTBEAT_ABC123);
}

#[test]
fn forward_table_holds_one_entry_per_kind() {
    let table = Request::create_request_type_hashes("abc123");
    assert_eq!(table.len(), 4);
    assert_eq!(table.get(&NIL_IDENTIFIER), Some(&RequestType::Knock));
    assert_eq!(table.get(&CONNECT_ABC123), Some(&RequestType::Connect));
    assert_eq!(table.get(&DISCONNECT_ABC123), Some(&RequestType::Disconnect));
    assert_eq!(table.get(&HEARTBEAT_ABC123), Some(&RequestType::Heartbeat));
}

#[test]
fn forward_table_resolves_every_derived_identifier() {
    for token in ["", "abc123", "other"] {
        let table = Request::create_request_type_hashes(token);
        for kind in all_kinds() {
            assert_eq!(resolve_kind(identifier_for(kind, token), &table), Some(kind));
        }
    }
}

#[test]
fn knock_resolves_from_nil_under_any_token() {
    for token in ["", "abc123", "other", "_"] {
        let table = Request::create_request_type_hashes(token);
        assert_eq!(resolve_kind(NIL_IDENTIFIER, &table), Some(RequestType::Knock));
    }
}

#[test]
fn rebuilding_gives_the_same_tables() {
    let first = Request::create_request_type_hashes("abc123");
    let second = Request::create_request_type_hashes("abc123");
    assert_eq!(first, second);
    let sends = Request::create_request_type_reverse_hashes("abc123");
    let again = Request::create_request_type_reverse_hashes("abc123");
    for kind in all_kinds() {
        assert_eq!(sends.get(kind), again.get(kind));
    }
}

#[test]
fn reverse_table_holds_the_identifier_of_each_kind() {
    let table = Request::create_request_type_reverse_hashes("abc123");
    assert_eq!(table.get(RequestType::Knock), Some(NIL_IDENTIFIER));
    assert_eq!(table.get(RequestType::Connect), Some(CONNECT_ABC123));
    assert_eq!(table.get(RequestType::Disconnect), Some(DISCONNECT_ABC123));
    assert_eq!(table.get(RequestType::Heartbeat), Some(HEARTBEAT_ABC123));
    for kind in all_kinds() {
        assert!(table.contains_key(kind));
    }
}

#[test]
fn tables_of_one_token_are_inverses() {
    for token in ["", "abc123", "other"] {
        let forward = Request::create_request_type_hashes(token);
        let reverse = Request::create_request_type_reverse_hashes(token);
        for kind in all_kinds() {
            let id = reverse.get(kind).unwrap();
            assert_eq!(forward.get(&id), Some(&kind));
        }
        for (id, kind) in forward.iter() {
            assert_eq!(reverse.get(*kind), Some(*id));
        }
    }
}

#[test]
fn different_tokens_give_different_identifiers() {
    let one = Request::create_request_type_hashes("abc123");
    let other = Request::create_request_type_hashes("other");
    for kind in [RequestType::Connect, RequestType::Disconnect, RequestType::Heartbeat] {
        let id = identifier_for(kind, "abc123");
        assert_ne!(id, identifier_for(kind, "other"));
        assert_eq!(resolve_kind(id, &one), Some(kind));
        assert_eq!(resolve_kind(id, &other), None);
    }
    assert_eq!(resolve_kind(CONNECT_OTHER, &other), Some(RequestType::Connect));
}
