use group_messages::digits::i64_to_string;
use group_messages::output::ReadList;
use group_messages::store::{AppEntry, Element, ElementEntry, Entry, Store};
use group_messages::time::{timestamp_to_days, to_timestamp};
use group_messages::types::{AgentPubKey, EntryHash, GroupError, GroupMessage, Payload,
    SignedHeader, Timestamp};
use group_messages::utils::{call_response_handler, error, try_from_element, try_from_entry,
    try_get_and_convert, try_get_and_convert_with_header, ZomeCallResponse};

fn ts(secs: i64) -> Timestamp {
    Timestamp { secs, nanos: 0 }
}

fn sample_message() -> GroupMessage {
    GroupMessage {
        group_hash: EntryHash { id: 7 },
        sender: AgentPubKey { id: 21 },
        payload: Payload::File { metadata: "notes.txt".to_string() },
        created: ts(1000),
        reply_to: None,
    }
}

#[test]
fn days_truncate_toward_zero() {
    assert_eq!(timestamp_to_days(ts(0)), 0);
    assert_eq!(timestamp_to_days(ts(86399)), 0);
    assert_eq!(timestamp_to_days(ts(86400)), 1);
    assert_eq!(timestamp_to_days(ts(1673308800)), 19367);
    assert_eq!(timestamp_to_days(ts(-1)), 0);
    assert_eq!(timestamp_to_days(ts(-86399)), 0);
    assert_eq!(timestamp_to_days(ts(-86400)), -1);
    assert_eq!(timestamp_to_days(ts(-86401)), -1);
    assert_eq!(timestamp_to_days(ts(i64::MIN)), i64::MIN / 86400);
}

#[test]
fn decimal_rendering_is_exact() {
    assert_eq!(i64_to_string(0), "0");
    assert_eq!(i64_to_string(19367), "19367");
    assert_eq!(i64_to_string(-1), "-1");
    assert_eq!(i64_to_string(i64::MAX), "9223372036854775807");
    assert_eq!(i64_to_string(i64::MIN), "-9223372036854775808");
}

#[test]
fn to_timestamp_keeps_parts() {
    let t = to_timestamp(12, 500_000_000);
    assert_eq!(t, Timestamp { secs: 12, nanos: 500_000_000 });
}

#[test]
fn call_response_success_hands_payload_through() {
    let r = call_response_handler(ZomeCallResponse::Success(vec![1, 2, 3]));
    assert_eq!(r, Ok(vec![1, 2, 3]));
}

#[test]
fn call_response_unauthorized_is_typed() {
    let r = call_response_handler(ZomeCallResponse::Unauthorized("list_blocked".to_string()));
    let e = r.expect_err("unauthorized must surface");
    assert_eq!(e, GroupError::UnauthorizedCall("list_blocked".to_string()));
    assert_eq!(e.reason(), "Unauthorized Call to : list_blocked");
}

#[test]
fn call_response_network_error_is_typed() {
    let r = call_response_handler(ZomeCallResponse::NetworkError("timeout".to_string()));
    let e = r.expect_err("network failure must surface");
    assert_eq!(e, GroupError::NetworkError("timeout".to_string()));
    assert_eq!(e.reason(), "Network Error : timeout");
}

#[test]
fn query_failure_reason_text() {
    assert_eq!(GroupError::QueryFailure.reason(), "Cannot get links on this path");
    let r: Result<(), GroupError> = error(GroupError::QueryFailure);
    assert_eq!(r, Err(GroupError::QueryFailure));
}

#[test]
fn entry_decodes_only_group_messages() {
    let m = sample_message();
    let decoded = try_from_entry(&Entry::App(AppEntry::GroupMessage(m.clone())))
        .expect("a group-message entry decodes");
    assert_eq!(decoded, m);
    assert_eq!(
        try_from_entry(&Entry::Agent(AgentPubKey { id: 1 })),
        Err(GroupError::DecodeFailure)
    );
    assert_eq!(try_from_entry(&Entry::App(AppEntry::Other)), Err(GroupError::DecodeFailure));
    assert_eq!(try_from_entry(&Entry::Other), Err(GroupError::DecodeFailure));
}

#[test]
fn element_without_entry_does_not_decode() {
    let el = Element { signed_header: SignedHeader { id: 1 }, entry: ElementEntry::NotPresent };
    assert_eq!(try_from_element(&el), Err(GroupError::DecodeFailure));
}

#[test]
fn resolving_an_absent_record_reports_entry_not_found() {
    let store = Store { records: vec![], links: vec![], paths: vec![] };
    assert_eq!(try_get_and_convert(&store, EntryHash { id: 5 }), Err(GroupError::EntryNotFound));
}

#[test]
fn resolving_keeps_the_signed_header() {
    let m = sample_message();
    let store = Store {
        records: vec![(
            EntryHash { id: 5 },
            Element {
                signed_header: SignedHeader { id: 99 },
                entry: ElementEntry::Present(Entry::App(AppEntry::GroupMessage(m.clone()))),
            },
        )],
        links: vec![],
        paths: vec![],
    };
    let (header, decoded) = try_get_and_convert_with_header(&store, EntryHash { id: 5 })
        .expect("a present record resolves");
    assert_eq!(header, SignedHeader { id: 99 });
    assert_eq!(decoded, m);
}

#[test]
fn read_list_insert_overwrites_per_reader() {
    let mut rl = ReadList(Vec::new());
    rl.insert(AgentPubKey { id: 1 }, ts(10));
    rl.insert(AgentPubKey { id: 2 }, ts(20));
    rl.insert(AgentPubKey { id: 1 }, ts(30));
    assert_eq!(rl.0, vec![(AgentPubKey { id: 1 }, ts(30)), (AgentPubKey { id: 2 }, ts(20))]);
}
