use group_messages::bucket::{bucket_key, tag_for};
use group_messages::output::GroupMessageHash;
use group_messages::retrieve::get_messages_by_group_by_timestamp_handler;
use group_messages::store::{AppEntry, Element, ElementEntry, Entry, Link, Store};
use group_messages::types::{AgentPubKey, EntryHash, GroupChatFilter, GroupError, GroupMessage,
    Payload, PayloadType, SignedHeader, Timestamp};

fn ts(secs: i64) -> Timestamp {
    Timestamp { secs, nanos: 0 }
}

fn hash(id: u64) -> EntryHash {
    EntryHash { id }
}

fn message(group: u64, sender: u64, text: &str, created: i64, reply_to: Option<u64>) -> GroupMessage {
    GroupMessage {
        group_hash: hash(group),
        sender: AgentPubKey { id: sender },
        payload: Payload::Text { payload: text.to_string() },
        created: ts(created),
        reply_to: reply_to.map(hash),
    }
}

fn message_record(header: u64, m: GroupMessage) -> Element {
    Element {
        signed_header: SignedHeader { id: header },
        entry: ElementEntry::Present(Entry::App(AppEntry::GroupMessage(m))),
    }
}

fn agent_record(header: u64, agent: u64) -> Element {
    Element {
        signed_header: SignedHeader { id: header },
        entry: ElementEntry::Present(Entry::Agent(AgentPubKey { id: agent })),
    }
}

fn link(target: u64, tag: &str, secs: i64) -> Link {
    Link { target: hash(target), tag: Some(tag.to_string()), timestamp: ts(secs) }
}

// Day bucket of 2023-01-10T00:00:00Z: epoch second 1673308800, day 19367.
const DAY_SECS: i64 = 1673308800;

fn filter(payload_type: PayloadType) -> GroupChatFilter {
    GroupChatFilter { group_id: "g1".to_string(), date: ts(DAY_SECS), payload_type }
}

/// A store with one day bucket for "g1" on 2023-01-10 holding message A
/// tagged "text" and message B tagged "file", plus read links on A.
fn example_store() -> Store {
    let base = 100u64;
    Store {
        records: vec![
            (hash(1), message_record(11, message(7, 21, "hello", DAY_SECS + 60, None))),
            (hash(2), message_record(12, message(7, 22, "a file", DAY_SECS + 120, None))),
            (hash(31), agent_record(13, 41)),
        ],
        links: vec![
            (hash(base), link(1, "text", DAY_SECS + 60)),
            (hash(base), link(2, "file", DAY_SECS + 120)),
            (hash(1), link(31, "read", DAY_SECS + 200)),
        ],
        paths: vec![("g1.19367".to_string(), hash(base))],
    }
}

#[test]
fn end_to_end_text_query() {
    let store = example_store();
    let out = get_messages_by_group_by_timestamp_handler(filter(PayloadType::Text), &store)
        .expect("retrieval should succeed");
    assert_eq!(out.messages_by_group.0.len(), 1);
    assert_eq!(out.messages_by_group.0[0].0, "g1");
    assert_eq!(out.messages_by_group.0[0].1, vec![GroupMessageHash(hash(1))]);
    assert_eq!(out.group_messages_contents.0.len(), 1);
    let (id, content) = &out.group_messages_contents.0[0];
    assert_eq!(*id, hash(1));
    let data = &content.group_message_element.entry;
    assert_eq!(data.message_id, hash(1));
    assert_eq!(data.group_hash, hash(7));
    assert_eq!(data.sender, AgentPubKey { id: 21 });
    assert_eq!(data.payload, Payload::Text { payload: "hello".to_string() });
    assert_eq!(data.created, ts(DAY_SECS + 60));
    assert!(data.reply_to.is_none());
    assert_eq!(content.group_message_element.signed_header, SignedHeader { id: 11 });
    assert_eq!(content.read_list.0, vec![(AgentPubKey { id: 41 }, ts(DAY_SECS + 200))]);
}

#[test]
fn all_query_returns_union() {
    let mut store = example_store();
    store.records.push((hash(3), message_record(14, message(7, 23, "pic", DAY_SECS + 180, None))));
    store.links.push((hash(100), link(3, "media", DAY_SECS + 180)));
    let out = get_messages_by_group_by_timestamp_handler(filter(PayloadType::All), &store)
        .expect("retrieval should succeed");
    assert_eq!(
        out.messages_by_group.0[0].1,
        vec![GroupMessageHash(hash(1)), GroupMessageHash(hash(2)), GroupMessageHash(hash(3))]
    );
    assert_eq!(out.group_messages_contents.0.len(), 3);
}

#[test]
fn file_query_filters_out_text() {
    let store = example_store();
    let out = get_messages_by_group_by_timestamp_handler(filter(PayloadType::File), &store)
        .expect("retrieval should succeed");
    assert_eq!(out.messages_by_group.0[0].1, vec![GroupMessageHash(hash(2))]);
    assert_eq!(out.group_messages_contents.0.len(), 1);
    assert_eq!(out.group_messages_contents.0[0].0, hash(2));
}

#[test]
fn absent_message_is_omitted() {
    let mut store = example_store();
    // A second "text" link whose target record was removed from the store.
    store.links.push((hash(100), link(9, "text", DAY_SECS + 300)));
    let out = get_messages_by_group_by_timestamp_handler(filter(PayloadType::Text), &store)
        .expect("an absent message must not fail the retrieval");
    assert_eq!(out.messages_by_group.0[0].1, vec![GroupMessageHash(hash(1))]);
    assert_eq!(out.group_messages_contents.0.len(), 1);
}

#[test]
fn wrong_shape_message_fails_retrieval() {
    let mut store = example_store();
    // A "text" link whose target record exists but is an identity record.
    store.records.push((hash(9), agent_record(15, 42)));
    store.links.push((hash(100), link(9, "text", DAY_SECS + 300)));
    let err = get_messages_by_group_by_timestamp_handler(filter(PayloadType::Text), &store)
        .expect_err("a wrong-shaped record must fail the retrieval");
    assert_eq!(err, GroupError::DecodeFailure);
    assert_eq!(err.reason(), "the group message entry is not of the expected variant");
}

#[test]
fn missing_reply_target_fails_retrieval() {
    let mut store = example_store();
    // Message C replies to an address with no record; A stays resolvable.
    store.records.push((hash(4), message_record(16, message(7, 24, "re", DAY_SECS + 240, Some(77)))));
    store.links.push((hash(100), link(4, "text", DAY_SECS + 240)));
    let err = get_messages_by_group_by_timestamp_handler(filter(PayloadType::Text), &store)
        .expect_err("a dangling reply target must fail the whole retrieval");
    assert_eq!(err, GroupError::EntryNotFound);
    assert_eq!(err.reason(), "Entry not found");
}

#[test]
fn resolved_reply_is_attached() {
    let mut store = example_store();
    store.records.push((hash(4), message_record(16, message(7, 24, "re", DAY_SECS + 240, Some(1)))));
    store.links.push((hash(100), link(4, "text", DAY_SECS + 240)));
    let out = get_messages_by_group_by_timestamp_handler(filter(PayloadType::Text), &store)
        .expect("retrieval should succeed");
    assert_eq!(out.messages_by_group.0[0].1.len(), 2);
    let (_, content) = &out.group_messages_contents.0[1];
    let reply = content.group_message_element.entry.reply_to.as_ref().expect("reply resolved");
    assert_eq!(reply.id, hash(1));
    assert_eq!(reply.content.payload, Payload::Text { payload: "hello".to_string() });
}

#[test]
fn read_list_last_link_wins() {
    let mut store = example_store();
    // A second "read" link from the same reader, later in query order.
    store.links.push((hash(1), link(31, "read", DAY_SECS + 500)));
    let out = get_messages_by_group_by_timestamp_handler(filter(PayloadType::Text), &store)
        .expect("retrieval should succeed");
    let (_, content) = &out.group_messages_contents.0[0];
    assert_eq!(content.read_list.0, vec![(AgentPubKey { id: 41 }, ts(DAY_SECS + 500))]);
}

#[test]
fn unresolvable_read_links_are_skipped() {
    let mut store = example_store();
    // One "read" link to an absent record, one to a non-identity record.
    store.links.push((hash(1), link(70, "read", DAY_SECS + 501)));
    store.records.push((hash(71), message_record(17, message(7, 25, "x", DAY_SECS, None))));
    store.links.push((hash(1), link(71, "read", DAY_SECS + 502)));
    let out = get_messages_by_group_by_timestamp_handler(filter(PayloadType::Text), &store)
        .expect("retrieval should succeed");
    let (_, content) = &out.group_messages_contents.0[0];
    assert_eq!(content.read_list.0, vec![(AgentPubKey { id: 41 }, ts(DAY_SECS + 200))]);
}

#[test]
fn empty_bucket_still_lists_group() {
    let store = example_store();
    let mut f = filter(PayloadType::Text);
    f.date = ts(DAY_SECS + 86400); // the next day: an unindexed bucket
    let out = get_messages_by_group_by_timestamp_handler(f, &store)
        .expect("an empty bucket is not an error");
    assert_eq!(out.messages_by_group.0.len(), 1);
    assert_eq!(out.messages_by_group.0[0].0, "g1");
    assert!(out.messages_by_group.0[0].1.is_empty());
    assert!(out.group_messages_contents.0.is_empty());
}

#[test]
fn same_day_timestamps_hit_same_bucket() {
    let store = example_store();
    // 2023-01-10T23:59:59Z: same day, different second.
    let mut f = filter(PayloadType::Text);
    f.date = ts(DAY_SECS + 86399);
    let out = get_messages_by_group_by_timestamp_handler(f, &store)
        .expect("retrieval should succeed");
    assert_eq!(out.messages_by_group.0[0].1, vec![GroupMessageHash(hash(1))]);
}

#[test]
fn day_boundary_splits_buckets() {
    assert_eq!(bucket_key("g1", ts(86400 - 1)), "g1.0");
    assert_eq!(bucket_key("g1", ts(86400 + 1)), "g1.1");
    assert_eq!(bucket_key("g1", ts(DAY_SECS)), "g1.19367");
    assert_eq!(bucket_key("g1", ts(DAY_SECS + 86399)), "g1.19367");
    assert_eq!(bucket_key("g1", ts(-86401)), "g1.-1");
}

#[test]
fn aggregate_reads_folds_read_links_only() {
    let mut store = example_store();
    // A link under another tag from the message must not count as a read.
    store.records.push((hash(32), agent_record(18, 42)));
    store.links.push((hash(1), link(32, "text", DAY_SECS + 300)));
    let rl = group_messages::retrieve::aggregate_reads(&store, hash(1));
    assert_eq!(rl.0, vec![(AgentPubKey { id: 41 }, ts(DAY_SECS + 200))]);
}

#[test]
fn resolve_reply_without_target_is_empty() {
    let store = example_store();
    let r = group_messages::retrieve::resolve_reply(&store, &None).expect("no target, no work");
    assert!(r.is_none());
    let w = group_messages::retrieve::resolve_reply(&store, &Some(hash(1)))
        .expect("a present target resolves")
        .expect("a resolved reply is returned");
    assert_eq!(w.id, hash(1));
    assert_eq!(w.content.payload, Payload::Text { payload: "hello".to_string() });
}

#[test]
fn tag_for_matches_payload_kinds() {
    assert_eq!(tag_for(PayloadType::Text), Some("text".to_string()));
    assert_eq!(tag_for(PayloadType::File), Some("file".to_string()));
    assert_eq!(tag_for(PayloadType::Media), Some("media".to_string()));
    assert_eq!(tag_for(PayloadType::All), None);
}
