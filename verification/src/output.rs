//! The assembled result of one retrieval: per-message content enriched with
//! read receipts, the per-group list of message ids, and the contents map
//! keyed by message id. The two mappings are association lists with unique
//! keys whose mathematical value is a `Map`; inserting overwrites the entry
//! of an existing key, so the entry written last wins.

use vstd::prelude::*;

use crate::types::{AgentPubKey, EntryHash, GroupMessage, GroupMessageV, Payload, PayloadV,
    SignedHeader, Timestamp};

verus! {

/// A message id: the content address of a group message.
#[derive(Clone, Copy, PartialEq, Eq, Structural, Debug)]
pub struct GroupMessageHash(pub EntryHash);

/// Per-message read receipts: for each reader identity, the timestamp of the
/// "read" link of that reader processed last, one entry per reader.
#[derive(Debug)]
pub struct ReadList(pub Vec<(AgentPubKey, Timestamp)>);

/// The mathematical value of a read-receipt association list: a map in which
/// a later entry for a key overwrites an earlier one.
pub open spec fn read_map(s: Seq<(AgentPubKey, Timestamp)>) -> Map<AgentPubKey, Timestamp>
    decreases s.len(),
{
    if s.len() == 0 {
        Map::empty()
    } else {
        read_map(s.drop_last()).insert(s.last().0, s.last().1)
    }
}

impl View for ReadList {
    type V = Map<AgentPubKey, Timestamp>;

    open spec fn view(&self) -> Map<AgentPubKey, Timestamp> {
        read_map(self.0@)
    }
}

impl ReadList {
    /// One entry per reader.
    pub open spec fn wf(self) -> bool {
        forall|p: int, q: int|
            0 <= p < q < self.0@.len() ==> (#[trigger] self.0@[p]).0 != (#[trigger] self.0@[q]).0
    }

    /// Records that `a` read the message at `t`, overwriting any earlier
    /// entry for the same reader.
    pub fn insert(&mut self, a: AgentPubKey, t: Timestamp)
        requires
            old(self).wf(),
        ensures
            final(self).wf(),
            final(self)@ == old(self)@.insert(a, t),
    {
        let n = self.0.len();
        let mut i: usize = 0;
        while i < n
            invariant
                i <= n,
                n == self.0@.len(),
                self.0@ == old(self).0@,
                old(self).wf(),
                forall|j: int| 0 <= j < i ==> self.0@[j].0 != a,
            decreases n - i,
        {
            if self.0[i].0 == a {
                let ghost s = self.0@;
                self.0[i] = (a, t);
                proof {
                    assert(forall|j: int| 0 <= j < s.len() ==> self.0@[j].0 == s[j].0);
                    lemma_read_map_update(s, i as int, a, t);
                }
                return;
            }
            i += 1;
        }
        let ghost s = self.0@;
        self.0.push((a, t));
        proof {
            assert(self.0@.drop_last() =~= s);
        }
    }
}

/// Overwriting the value at the one index holding key `a` updates the map at
/// `a` and nothing else.
proof fn lemma_read_map_update(s: Seq<(AgentPubKey, Timestamp)>, i: int, a: AgentPubKey, t: Timestamp)
    requires
        0 <= i < s.len(),
        s[i].0 == a,
        forall|p: int, q: int| 0 <= p < q < s.len() ==> (#[trigger] s[p]).0 != (#[trigger] s[q]).0,
    ensures
        read_map(s.update(i, (a, t))) == read_map(s).insert(a, t),
    decreases s.len(),
{
    let s2 = s.update(i, (a, t));
    if i == s.len() - 1 {
        assert(s2.drop_last() =~= s.drop_last());
        assert(read_map(s.drop_last()).insert(a, s.last().1).insert(a, t)
            =~= read_map(s.drop_last()).insert(a, t));
    } else {
        assert(s2.drop_last() =~= s.drop_last().update(i, (a, t)));
        assert(s2.last() == s.last());
        lemma_read_map_update(s.drop_last(), i, a, t);
        assert(s.last().0 != a);
        assert(read_map(s.drop_last()).insert(a, t).insert(s.last().0, s.last().1)
            =~= read_map(s.drop_last()).insert(s.last().0, s.last().1).insert(a, t));
    }
}

/// The assembled view of one message: its id, the stored fields, and the
/// resolved reply target, when the message has one.
#[derive(Debug)]
pub struct GroupMessageData {
    pub message_id: EntryHash,
    pub group_hash: EntryHash,
    pub sender: AgentPubKey,
    pub payload: Payload,
    pub created: Timestamp,
    pub reply_to: Option<GroupMessageWithId>,
}

/// A resolved reply target: the replied-to message's id and full content.
#[derive(Debug)]
pub struct GroupMessageWithId {
    pub id: EntryHash,
    pub content: GroupMessage,
}

/// A message's assembled view together with the signed header of its record.
#[derive(Debug)]
pub struct GroupMessageElement {
    pub entry: GroupMessageData,
    pub signed_header: SignedHeader,
}

/// Everything the output holds for one message: its element and its read list.
#[derive(Debug)]
pub struct GroupMessageContent {
    pub group_message_element: GroupMessageElement,
    pub read_list: ReadList,
}

/// Mathematical value of a `GroupMessageWithId`.
pub struct GroupMessageWithIdV {
    pub id: EntryHash,
    pub content: GroupMessageV,
}

impl View for GroupMessageWithId {
    type V = GroupMessageWithIdV;

    open spec fn view(&self) -> GroupMessageWithIdV {
        GroupMessageWithIdV { id: self.id, content: self.content@ }
    }
}

/// Mathematical value of a `GroupMessageData`.
pub struct GroupMessageDataV {
    pub message_id: EntryHash,
    pub group_hash: EntryHash,
    pub sender: AgentPubKey,
    pub payload: PayloadV,
    pub created: Timestamp,
    pub reply_to: Option<GroupMessageWithIdV>,
}

impl View for GroupMessageData {
    type V = GroupMessageDataV;

    open spec fn view(&self) -> GroupMessageDataV {
        GroupMessageDataV {
            message_id: self.message_id,
            group_hash: self.group_hash,
            sender: self.sender,
            payload: self.payload@,
            created: self.created,
            reply_to: match self.reply_to {
                Some(w) => Some(w@),
                None => None,
            },
        }
    }
}

/// Mathematical value of a `GroupMessageElement`.
pub struct GroupMessageElementV {
    pub entry: GroupMessageDataV,
    pub signed_header: SignedHeader,
}

impl View for GroupMessageElement {
    type V = GroupMessageElementV;

    open spec fn view(&self) -> GroupMessageElementV {
        GroupMessageElementV { entry: self.entry@, signed_header: self.signed_header }
    }
}

/// Mathematical value of a `GroupMessageContent`.
pub struct GroupMessageContentV {
    pub element: GroupMessageElementV,
    pub read_list: Map<AgentPubKey, Timestamp>,
}

impl View for GroupMessageContent {
    type V = GroupMessageContentV;

    open spec fn view(&self) -> GroupMessageContentV {
        GroupMessageContentV {
            element: self.group_message_element@,
            read_list: self.read_list@,
        }
    }
}

/// The contents map of the output: full content keyed by message id, one
/// entry per id.
#[derive(Debug)]
pub struct GroupMessagesContents(pub Vec<(EntryHash, GroupMessageContent)>);

/// The mathematical value of the contents association list.
pub open spec fn contents_map(s: Seq<(EntryHash, GroupMessageContent)>) -> Map<
    EntryHash,
    GroupMessageContentV,
>
    decreases s.len(),
{
    if s.len() == 0 {
        Map::empty()
    } else {
        contents_map(s.drop_last()).insert(s.last().0, s.last().1@)
    }
}

impl View for GroupMessagesContents {
    type V = Map<EntryHash, GroupMessageContentV>;

    open spec fn view(&self) -> Map<EntryHash, GroupMessageContentV> {
        contents_map(self.0@)
    }
}

impl GroupMessagesContents {
    /// One entry per message id.
    pub open spec fn wf(self) -> bool {
        forall|p: int, q: int|
            0 <= p < q < self.0@.len() ==> (#[trigger] self.0@[p]).0 != (#[trigger] self.0@[q]).0
    }

    /// Stores the content of message `h`, overwriting any earlier entry for
    /// the same id.
    pub fn insert(&mut self, h: EntryHash, c: GroupMessageContent)
        requires
            old(self).wf(),
        ensures
            final(self).wf(),
            final(self)@ == old(self)@.insert(h, c@),
    {
        let n = self.0.len();
        let mut i: usize = 0;
        while i < n
            invariant
                i <= n,
                n == self.0@.len(),
                self.0@ == old(self).0@,
                old(self).wf(),
                forall|j: int| 0 <= j < i ==> self.0@[j].0 != h,
            decreases n - i,
        {
            if self.0[i].0 == h {
                let ghost s = self.0@;
                self.0[i] = (h, c);
                proof {
                    assert(forall|j: int| 0 <= j < s.len() ==> self.0@[j].0 == s[j].0);
                    lemma_contents_map_update(s, i as int, h, self.0@[i as int].1);
                }
                return;
            }
            i += 1;
        }
        let ghost s = self.0@;
        self.0.push((h, c));
        proof {
            assert(self.0@.drop_last() =~= s);
        }
    }
}

/// Overwriting the value at the one index holding id `h` updates the map at
/// `h` and nothing else.
proof fn lemma_contents_map_update(
    s: Seq<(EntryHash, GroupMessageContent)>,
    i: int,
    h: EntryHash,
    c: GroupMessageContent,
)
    requires
        0 <= i < s.len(),
        s[i].0 == h,
        forall|p: int, q: int| 0 <= p < q < s.len() ==> (#[trigger] s[p]).0 != (#[trigger] s[q]).0,
    ensures
        contents_map(s.update(i, (h, c))) == contents_map(s).insert(h, c@),
    decreases s.len(),
{
    let s2 = s.update(i, (h, c));
    if i == s.len() - 1 {
        assert(s2.drop_last() =~= s.drop_last());
        assert(contents_map(s.drop_last()).insert(h, s.last().1@).insert(h, c@)
            =~= contents_map(s.drop_last()).insert(h, c@));
    } else {
        assert(s2.drop_last() =~= s.drop_last().update(i, (h, c)));
        assert(s2.last() == s.last());
        lemma_contents_map_update(s.drop_last(), i, h, c);
        assert(s.last().0 != h);
        assert(contents_map(s.drop_last()).insert(h, c@).insert(s.last().0, s.last().1@)
            =~= contents_map(s.drop_last()).insert(s.last().0, s.last().1@).insert(h, c@));
    }
}

/// Message ids grouped by group id, in link-query return order.
#[derive(Debug)]
pub struct MessagesByGroup(pub Vec<(String, Vec<GroupMessageHash>)>);

/// The full result of one retrieval.
#[derive(Debug)]
pub struct GroupMessagesOutput {
    pub messages_by_group: MessagesByGroup,
    pub group_messages_contents: GroupMessagesContents,
}

/// The plain ids of a sequence of message-id wrappers.
pub open spec fn hashes_of(s: Seq<GroupMessageHash>) -> Seq<EntryHash> {
    s.map_values(|h: GroupMessageHash| h.0)
}

} // verus!
