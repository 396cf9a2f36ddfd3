//! The laws of the retrieval, each proved once and for all inputs: payload
//! filtering, tolerant omission of absent messages, fatal reply resolution,
//! last-write-wins read lists, empty-bucket inclusion, same-day bucketing,
//! and the one-to-one match between the id list and the contents map.

use vstd::prelude::*;

use crate::bucket::lemma_same_day_same_bucket;
use crate::retrieve::{assemble, empty_out, expected_out, message_step, read_link_agent,
    read_list_model, retrieval_links, reply_model, OutV, StepV};
use crate::store::{links_at_seq, Element, ElementEntry, Entry, AppEntry, Link, LinkV};
use crate::time::day_of;
use crate::types::{AgentPubKey, EntryHash, GroupChatFilter, GroupError, GroupMessage};
use crate::utils::resolve_message_v;

verus! {

/// Bucketing correctness at the retrieval level: two filters for the same
/// group, the same payload kinds and two timestamps of the same day ask for
/// the very same result — one query covers every message of that day.
pub proof fn lemma_same_day_same_retrieval(
    store: crate::store::Store,
    f1: GroupChatFilter,
    f2: GroupChatFilter,
)
    requires
        f1.group_id@ == f2.group_id@,
        f1.payload_type == f2.payload_type,
        day_of(f1.date.secs as int) == day_of(f2.date.secs as int),
    ensures
        expected_out(store, f1) == expected_out(store, f2),
{
    lemma_same_day_same_bucket(f1.group_id@, f1.date, f2.date);
}

/// Payload filtering: querying links under a tag returns exactly the links
/// of that tag, in order — the tagged subsequence of an unfiltered query.
pub proof fn lemma_links_at_tag_filters(
    s: Seq<(EntryHash, Link)>,
    base: EntryHash,
    tag: Seq<char>,
)
    ensures
        links_at_seq(s, base, Some(tag)) == links_at_seq(s, base, None).filter(
            |l: LinkV| l.tag == Some(tag),
        ),
    decreases s.len(),
{
    reveal(Seq::filter);
    let pred = |l: LinkV| l.tag == Some(tag);
    if s.len() == 0 {
        assert(links_at_seq(s, base, None).filter(pred) =~= Seq::<LinkV>::empty());
    } else {
        lemma_links_at_tag_filters(s.drop_last(), base, tag);
        let rest_all = links_at_seq(s.drop_last(), base, None);
        if s.last().0 == base {
            assert(rest_all.push(s.last().1@).drop_last() =~= rest_all);
            assert(rest_all.push(s.last().1@).last() == s.last().1@);
        }
    }
}

/// Tolerant omission: a message link whose target record is absent from the
/// store changes nothing — the assembly of the links around it is the
/// assembly without it, so the retrieval still succeeds and just omits it.
pub proof fn lemma_absent_message_omitted(
    store: crate::store::Store,
    s1: Seq<LinkV>,
    l: LinkV,
    s2: Seq<LinkV>,
    acc: OutV,
)
    requires
        store.record_at(l.target) == None::<Element>,
    ensures
        assemble(store, s1 + seq![l] + s2, acc) == assemble(store, s1 + s2, acc),
    decreases s1.len(),
{
    if s1.len() == 0 {
        let full = s1 + seq![l] + s2;
        assert(full =~= seq![l] + s2);
        assert(full[0] == l);
        assert(message_step(store, l) == StepV::Skip);
        assert(full.drop_first() =~= s2);
        assert(s1 + s2 =~= s2);
    } else {
        let full = s1 + seq![l] + s2;
        let rest = s1 + s2;
        assert(full[0] == s1[0]);
        assert(rest[0] == s1[0]);
        assert(full.drop_first() =~= s1.drop_first() + seq![l] + s2);
        assert(rest.drop_first() =~= s1.drop_first() + s2);
        match message_step(store, s1[0]) {
            StepV::Skip => {
                lemma_absent_message_omitted(store, s1.drop_first(), l, s2, acc);
            },
            StepV::Fail(e) => {},
            StepV::Keep(h, c) => {
                lemma_absent_message_omitted(
                    store,
                    s1.drop_first(),
                    l,
                    s2,
                    OutV { ids: acc.ids.push(h), contents: acc.contents.insert(h, c) },
                );
            },
        }
    }
}

/// The first failing link decides: however the links before it were kept or
/// skipped, the whole assembly is that link's error.
pub proof fn lemma_first_failure(
    store: crate::store::Store,
    s: Seq<LinkV>,
    i: int,
    e: GroupError,
    acc: OutV,
)
    requires
        0 <= i < s.len(),
        message_step(store, s[i]) == StepV::Fail(e),
        forall|j: int| 0 <= j < i ==> !((#[trigger] message_step(store, s[j])) is Fail),
    ensures
        assemble(store, s, acc) == Err::<OutV, GroupError>(e),
    decreases i,
{
    if i == 0 {
    } else {
        assert forall|j: int| 0 <= j < i - 1 implies !((#[trigger] message_step(
            store,
            s.drop_first()[j],
        )) is Fail) by {
            assert(s.drop_first()[j] == s[j + 1]);
        }
        assert(s.drop_first()[i - 1] == s[i]);
        match message_step(store, s[0]) {
            StepV::Skip => {
                lemma_first_failure(store, s.drop_first(), i - 1, e, acc);
            },
            StepV::Fail(e0) => {
                assert(false);
            },
            StepV::Keep(h, c) => {
                lemma_first_failure(
                    store,
                    s.drop_first(),
                    i - 1,
                    e,
                    OutV { ids: acc.ids.push(h), contents: acc.contents.insert(h, c) },
                );
            },
        }
    }
}

/// Fatal reply resolution: a message whose reply target has no record fails
/// the entire retrieval, even when every other message resolves — unless an
/// earlier link already failed for its own reason.
pub proof fn lemma_fatal_reply(
    store: crate::store::Store,
    s: Seq<LinkV>,
    i: int,
    el: Element,
    m: GroupMessage,
    h: EntryHash,
    acc: OutV,
)
    requires
        0 <= i < s.len(),
        store.record_at(s[i].target) == Some(el),
        el.entry == ElementEntry::Present(Entry::App(AppEntry::GroupMessage(m))),
        m.reply_to == Some(h),
        store.record_at(h) == None::<Element>,
        forall|j: int| 0 <= j < i ==> !((#[trigger] message_step(store, s[j])) is Fail),
    ensures
        assemble(store, s, acc) == Err::<OutV, GroupError>(GroupError::EntryNotFound),
{
    assert(resolve_message_v(store, h) == Err::<crate::types::GroupMessageV, GroupError>(
        GroupError::EntryNotFound,
    ));
    assert(reply_model(store, m.reply_to) == Err::<
        Option<crate::output::GroupMessageWithIdV>,
        GroupError,
    >(GroupError::EntryNotFound));
    assert(message_step(store, s[i]) == StepV::Fail(GroupError::EntryNotFound));
    lemma_first_failure(store, s, i, GroupError::EntryNotFound, acc);
}

/// Read-list overwrite: of all the "read" links a reader's identity resolves
/// from, the one processed last in query order decides that reader's entry —
/// there is exactly one entry for the reader, carrying that link's timestamp.
pub proof fn lemma_read_last_write_wins(
    store: crate::store::Store,
    s: Seq<LinkV>,
    i: int,
    a: AgentPubKey,
)
    requires
        0 <= i < s.len(),
        read_link_agent(store, s[i]) == Some(a),
        forall|j: int| i < j < s.len() ==> read_link_agent(store, #[trigger] s[j]) != Some(a),
    ensures
        read_list_model(store, s).contains_key(a),
        read_list_model(store, s)[a] == s[i].timestamp,
    decreases s.len(),
{
    if i == s.len() - 1 {
    } else {
        assert(s.drop_last()[i] == s[i]);
        lemma_read_last_write_wins(store, s.drop_last(), i, a);
        assert(read_link_agent(store, s.last()) != Some(a));
    }
}

/// A reader no "read" link resolves to has no entry in the read list.
pub proof fn lemma_read_absent_reader(store: crate::store::Store, s: Seq<LinkV>, a: AgentPubKey)
    requires
        forall|j: int| 0 <= j < s.len() ==> read_link_agent(store, #[trigger] s[j]) != Some(a),
    ensures
        !read_list_model(store, s).contains_key(a),
    decreases s.len(),
{
    if s.len() > 0 {
        assert(forall|j: int| 0 <= j < s.len() - 1 ==> s.drop_last()[j] == s[j]);
        lemma_read_absent_reader(store, s.drop_last(), a);
        assert(read_link_agent(store, s.last()) != Some(a));
    }
}

/// Empty-group inclusion: a bucket with no matching links still assembles to
/// a success, with no ids and no contents — the handler then still records
/// the queried group id with an empty list.
pub proof fn lemma_empty_bucket(store: crate::store::Store, filter: GroupChatFilter)
    requires
        retrieval_links(store, filter).len() == 0,
    ensures
        expected_out(store, filter) == Ok::<OutV, GroupError>(empty_out()),
{
}

/// Every successful retrieval's two maps agree: the contents map is keyed by
/// exactly the message ids of the id list.
pub proof fn lemma_retrieval_maps_agree(
    store: crate::store::Store,
    filter: GroupChatFilter,
    model: OutV,
)
    requires
        expected_out(store, filter) == Ok::<OutV, GroupError>(model),
    ensures
        model.contents.dom() == model.ids.to_set(),
{
    assert(empty_out().contents.dom() =~= empty_out().ids.to_set());
    lemma_ids_match_contents(store, retrieval_links(store, filter), empty_out(), model);
}

/// The output's two maps agree: starting from an assembly whose contents are
/// keyed exactly by its ids, every message id kept in the id list has its
/// entry in the contents map, and the contents map holds nothing else.
pub proof fn lemma_ids_match_contents(
    store: crate::store::Store,
    s: Seq<LinkV>,
    acc: OutV,
    o: OutV,
)
    requires
        assemble(store, s, acc) == Ok::<OutV, GroupError>(o),
        acc.contents.dom() == acc.ids.to_set(),
    ensures
        o.contents.dom() == o.ids.to_set(),
    decreases s.len(),
{
    if s.len() == 0 {
    } else {
        match message_step(store, s[0]) {
            StepV::Skip => {
                lemma_ids_match_contents(store, s.drop_first(), acc, o);
            },
            StepV::Fail(e) => {
                assert(false);
            },
            StepV::Keep(h, c) => {
                let acc2 = OutV { ids: acc.ids.push(h), contents: acc.contents.insert(h, c) };
                assert(acc2.contents.dom() =~= acc2.ids.to_set()) by {
                    assert forall|y: EntryHash| acc2.ids.to_set().contains(y) implies acc2.contents.dom().contains(y) by {
                        let k = choose|k: int| 0 <= k < acc2.ids.len() && acc2.ids[k] == y;
                        if k < acc.ids.len() {
                            assert(acc.ids[k] == y);
                            assert(acc.ids.to_set().contains(y));
                        }
                    }
                    assert forall|y: EntryHash| acc2.contents.dom().contains(y) implies acc2.ids.to_set().contains(y) by {
                        if y == h {
                            assert(acc2.ids[acc.ids.len() as int] == y);
                            assert(acc2.ids.contains(y));
                        } else {
                            assert(acc.ids.to_set().contains(y));
                            let k = choose|k: int| 0 <= k < acc.ids.len() && acc.ids[k] == y;
                            assert(acc2.ids[k] == y);
                            assert(acc2.ids.contains(y));
                        }
                    }
                }
                lemma_ids_match_contents(store, s.drop_first(), acc2, o);
            },
        }
    }
}

} // verus!
