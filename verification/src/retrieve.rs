//! The retrieval itself: from a group-chat filter and a store snapshot to the
//! assembled output, or the first fatal error. The whole algorithm is pinned
//! to a functional specification: the links of the day bucket are processed
//! in query-return order; a message whose record is absent is omitted; a
//! present record of the wrong shape aborts the call; read receipts fold into
//! a last-write-wins read list; and a reply target that does not resolve
//! aborts the call, asymmetric with top-level absence.

use vstd::prelude::*;

use crate::bucket::{bucket_key, bucket_key_spec, tag_for, tag_for_spec};
use crate::output::{hashes_of, GroupMessageContent, GroupMessageContentV,
    GroupMessageData, GroupMessageDataV, GroupMessageElement, GroupMessageElementV,
    GroupMessageHash, GroupMessageWithId, GroupMessageWithIdV, GroupMessagesContents,
    GroupMessagesOutput, MessagesByGroup, ReadList};
use crate::store::{links_view, AppEntry, ElementEntry, Entry, Link, LinkV, Store};
use crate::types::{AgentPubKey, EntryHash, GroupChatFilter, GroupError, Timestamp};
use crate::utils::{error, resolve_message_v, try_get_and_convert};

verus! {

/// The reader identity a "read" link points at: the link's target must hold
/// an agent identity record; anything else makes the link count for nobody.
pub open spec fn read_link_agent(store: Store, l: LinkV) -> Option<AgentPubKey> {
    match store.record_at(l.target) {
        Some(el) => match el.entry {
            ElementEntry::Present(Entry::Agent(a)) => Some(a),
            _ => None,
        },
        None => None,
    }
}

/// The read list a sequence of "read" links folds into: links are taken in
/// order, each resolvable link overwriting the reader's earlier entry, so the
/// link processed last wins; unresolvable links are skipped silently.
pub open spec fn read_list_model(store: Store, links: Seq<LinkV>) -> Map<AgentPubKey, Timestamp>
    decreases links.len(),
{
    if links.len() == 0 {
        Map::empty()
    } else {
        let m = read_list_model(store, links.drop_last());
        match read_link_agent(store, links.last()) {
            Some(a) => m.insert(a, links.last().timestamp),
            None => m,
        }
    }
}

/// Resolving an optional reply target: no target resolves to nothing; a
/// target must resolve to a present, well-shaped message, else the error is
/// fatal to the whole retrieval.
pub open spec fn reply_model(store: Store, reply_to: Option<EntryHash>) -> Result<
    Option<GroupMessageWithIdV>,
    GroupError,
> {
    match reply_to {
        None => Ok(None),
        Some(h) => match resolve_message_v(store, h) {
            Ok(m) => Ok(Some(GroupMessageWithIdV { id: h, content: m })),
            Err(e) => Err(e),
        },
    }
}

/// What processing one message link does to the retrieval: the message is
/// omitted, the whole call fails, or the message's content is kept.
pub enum StepV {
    Skip,
    Fail(GroupError),
    Keep(EntryHash, GroupMessageContentV),
}

/// Processing one message link: an absent record omits the message; a present
/// record of the wrong shape fails the call; a group message has its read
/// links folded and its reply target resolved, the latter fatally on failure.
pub open spec fn message_step(store: Store, l: LinkV) -> StepV {
    match store.record_at(l.target) {
        None => StepV::Skip,
        Some(el) => match el.entry {
            ElementEntry::Present(Entry::App(AppEntry::GroupMessage(m))) => match reply_model(
                store,
                m.reply_to,
            ) {
                Err(e) => StepV::Fail(e),
                Ok(rep) => StepV::Keep(
                    l.target,
                    GroupMessageContentV {
                        element: GroupMessageElementV {
                            entry: GroupMessageDataV {
                                message_id: l.target,
                                group_hash: m.group_hash,
                                sender: m.sender,
                                payload: m@.payload,
                                created: m.created,
                                reply_to: rep,
                            },
                            signed_header: el.signed_header,
                        },
                        read_list: read_list_model(
                            store,
                            store.links_at(l.target, Some("read"@)),
                        ),
                    },
                ),
            },
            _ => StepV::Fail(GroupError::DecodeFailure),
        },
    }
}

/// The assembled result so far: message ids in order, and content by id.
pub struct OutV {
    pub ids: Seq<EntryHash>,
    pub contents: Map<EntryHash, GroupMessageContentV>,
}

/// The empty result assembly.
pub open spec fn empty_out() -> OutV {
    OutV { ids: Seq::empty(), contents: Map::empty() }
}

/// Folding the message links in order into the result: the first failing
/// link aborts the whole assembly with its error.
pub open spec fn assemble(store: Store, links: Seq<LinkV>, acc: OutV) -> Result<OutV, GroupError>
    decreases links.len(),
{
    if links.len() == 0 {
        Ok(acc)
    } else {
        match message_step(store, links[0]) {
            StepV::Skip => assemble(store, links.drop_first(), acc),
            StepV::Fail(e) => Err(e),
            StepV::Keep(h, c) => assemble(
                store,
                links.drop_first(),
                OutV { ids: acc.ids.push(h), contents: acc.contents.insert(h, c) },
            ),
        }
    }
}

/// The message links one retrieval processes: those rooted at the address of
/// the filter's bucket key, passing the filter's tag, in query-return order;
/// none when the bucket key was never indexed.
pub open spec fn retrieval_links(store: Store, filter: GroupChatFilter) -> Seq<LinkV> {
    match store.path_addr(bucket_key_spec(filter.group_id@, filter.date)) {
        None => Seq::empty(),
        Some(base) => store.links_at(base, tag_for_spec(filter.payload_type)),
    }
}

/// The one result a retrieval is allowed to return.
pub open spec fn expected_out(store: Store, filter: GroupChatFilter) -> Result<OutV, GroupError> {
    assemble(store, retrieval_links(store, filter), empty_out())
}

/// Whether an output carries exactly the assembled result: one group entry,
/// under the queried group id, with the assembled ids in order, and the
/// contents map with one entry per id.
pub open spec fn output_matches(out: GroupMessagesOutput, group_id: Seq<char>, model: OutV) -> bool {
    &&& out.messages_by_group.0@.len() == 1
    &&& out.messages_by_group.0@[0].0@ == group_id
    &&& hashes_of(out.messages_by_group.0@[0].1@) == model.ids
    &&& out.group_messages_contents.wf()
    &&& out.group_messages_contents@ == model.contents
}

/// Folds the "read" links of the message at `message_hash` into its read
/// list: each link whose target resolves to an agent identity records that
/// reader with the link's timestamp, the link processed last winning.
pub fn aggregate_reads(store: &Store, message_hash: EntryHash) -> (r: ReadList)
    ensures
        r.wf(),
        r@ == read_list_model(*store, store.links_at(message_hash, Some("read"@))),
{
    let tag: Option<String> = Some("read".to_owned());
    let read_links = store.get_links(message_hash, &tag);
    let ghost lv = links_view(read_links@);
    let mut read_list = ReadList(Vec::new());
    let mut j: usize = 0;
    proof {
        assert(lv.take(0) =~= Seq::<LinkV>::empty());
    }
    while j < read_links.len()
        invariant
            j <= read_links.len(),
            lv == links_view(read_links@),
            lv.len() == read_links@.len(),
            lv == store.links_at(message_hash, Some("read"@)),
            read_list.wf(),
            read_list@ == read_list_model(*store, lv.take(j as int)),
        decreases read_links.len() - j,
    {
        let read_link = &read_links[j];
        match store.get(read_link.target) {
            Some(element) => match &element.entry {
                ElementEntry::Present(Entry::Agent(agent_pubkey)) => {
                    read_list.insert(*agent_pubkey, read_link.timestamp);
                },
                _ => {},
            },
            None => {},
        }
        proof {
            assert(lv.take(j + 1).drop_last() =~= lv.take(j as int));
            assert(lv.take(j + 1).last() == lv[j as int]);
            assert(lv[j as int] == read_links@[j as int]@);
            assert(read_list@ == read_list_model(*store, lv.take(j + 1)));
        }
        j += 1;
    }
    proof {
        assert(lv.take(read_links@.len() as int) =~= lv);
    }
    read_list
}

/// Resolves an optional reply target to the replied-to message's id and full
/// content; a target that is absent or of the wrong shape is a fatal error.
pub fn resolve_reply(store: &Store, reply_to: &Option<EntryHash>) -> (r: Result<
    Option<GroupMessageWithId>,
    GroupError,
>)
    ensures
        match r {
            Ok(w) => reply_model(*store, *reply_to) == Ok::<Option<GroupMessageWithIdV>, GroupError>(
                match w {
                    Some(w) => Some(w@),
                    None => None,
                },
            ),
            Err(e) => reply_model(*store, *reply_to) == Err::<
                Option<GroupMessageWithIdV>,
                GroupError,
            >(e),
        },
{
    match reply_to {
        None => Ok(None),
        Some(reply_to_hash) => match try_get_and_convert(store, *reply_to_hash) {
            Ok(replied_message) => Ok(
                Some(GroupMessageWithId { id: *reply_to_hash, content: replied_message }),
            ),
            Err(e) => Err(e),
        },
    }
}

/// The retrieval: derives the filter's bucket key, looks its address up,
/// queries the message links there under the filter's tag, and folds them
/// into the output, omitting absent messages, failing on a record of the
/// wrong shape or an unresolvable reply target, and always recording the
/// queried group id — with an empty list when nothing matched.
pub fn get_messages_by_group_by_timestamp_handler(
    group_chat_filter: GroupChatFilter,
    store: &Store,
) -> (r: Result<GroupMessagesOutput, GroupError>)
    ensures
        match r {
            Ok(out) => expected_out(*store, group_chat_filter) matches Ok(model)
                && output_matches(out, group_chat_filter.group_id@, model),
            Err(e) => expected_out(*store, group_chat_filter) == Err::<OutV, GroupError>(e),
        },
{
    let key = bucket_key(group_chat_filter.group_id.as_str(), group_chat_filter.date);
    let tag_filter = tag_for(group_chat_filter.payload_type);
    let links: Vec<Link> = match store.path_addr_lookup(&key) {
        Some(base) => store.get_links(base, &tag_filter),
        None => Vec::new(),
    };
    let ghost all = links_view(links@);
    proof {
        assert(all =~= retrieval_links(*store, group_chat_filter));
    }
    let mut messages_hashes: Vec<GroupMessageHash> = Vec::new();
    let mut group_messages_content = GroupMessagesContents(Vec::new());
    let mut i: usize = 0;
    proof {
        assert(all.skip(0) =~= all);
        assert(hashes_of(messages_hashes@) =~= Seq::<EntryHash>::empty());
    }
    while i < links.len()
        invariant
            i <= links.len(),
            all == links_view(links@),
            all.len() == links@.len(),
            group_messages_content.wf(),
            expected_out(*store, group_chat_filter) == assemble(
                *store,
                all.skip(i as int),
                OutV { ids: hashes_of(messages_hashes@), contents: group_messages_content@ },
            ),
        decreases links.len() - i,
    {
        let message_link = &links[i];
        let message_hash = message_link.target;
        let ghost cur = OutV {
            ids: hashes_of(messages_hashes@),
            contents: group_messages_content@,
        };
        proof {
            assert(all.skip(i as int)[0] == all[i as int]);
            assert(all.skip(i as int).drop_first() =~= all.skip(i + 1));
            assert(all[i as int] == links@[i as int]@);
        }
        match store.get(message_hash) {
            None => {
                proof {
                    assert(message_step(*store, all[i as int]) == StepV::Skip);
                }
            },
            Some(element) => {
                let read_list = aggregate_reads(store, message_hash);
                match &element.entry {
                    ElementEntry::Present(Entry::App(AppEntry::GroupMessage(group_message))) => {
                        match resolve_reply(store, &group_message.reply_to) {
                            Ok(reply) => {
                                let group_message_data = GroupMessageData {
                                    message_id: message_hash,
                                    group_hash: group_message.group_hash,
                                    sender: group_message.sender,
                                    payload: group_message.payload.clone(),
                                    created: group_message.created,
                                    reply_to: reply,
                                };
                                let group_message_element = GroupMessageElement {
                                    entry: group_message_data,
                                    signed_header: element.signed_header,
                                };
                                let content = GroupMessageContent {
                                    group_message_element,
                                    read_list,
                                };
                                proof {
                                    assert(message_step(*store, all[i as int]) == StepV::Keep(
                                        message_hash,
                                        content@,
                                    ));
                                }
                                group_messages_content.insert(message_hash, content);
                                messages_hashes.push(GroupMessageHash(message_hash));
                                proof {
                                    assert(hashes_of(messages_hashes@) =~= cur.ids.push(
                                        message_hash,
                                    ));
                                }
                            },
                            Err(e) => {
                                proof {
                                    assert(message_step(*store, all[i as int]) == StepV::Fail(e));
                                }
                                return Err(e);
                            },
                        }
                    },
                    _ => {
                        proof {
                            assert(message_step(*store, all[i as int]) == StepV::Fail(
                                GroupError::DecodeFailure,
                            ));
                        }
                        return error(GroupError::DecodeFailure);
                    },
                }
            },
        }
        proof {
            assert(expected_out(*store, group_chat_filter) == assemble(
                *store,
                all.skip(i + 1),
                OutV { ids: hashes_of(messages_hashes@), contents: group_messages_content@ },
            ));
        }
        i += 1;
    }
    proof {
        assert(all.skip(links@.len() as int) =~= Seq::<LinkV>::empty());
    }
    let mut by_group: Vec<(String, Vec<GroupMessageHash>)> = Vec::new();
    by_group.push((group_chat_filter.group_id, messages_hashes));
    Ok(GroupMessagesOutput {
        messages_by_group: MessagesByGroup(by_group),
        group_messages_contents: group_messages_content,
    })
}

} // verus!
