//! Core data model: content addresses, identities, timestamps, messages,
//! link edges, and the typed error of the retrieval path.

use vstd::prelude::*;

verus! {

/// A moment in time: whole seconds since the epoch (possibly negative) and
/// the subsecond part in nanoseconds.
#[derive(Clone, Copy, PartialEq, Eq, Structural, Debug)]
pub struct Timestamp {
    pub secs: i64,
    pub nanos: u32,
}

/// A content address: a fixed-size hash identifying an immutable record.
/// Equality is byte-equality of the hash; the model carries the hash as a
/// single integer, one per distinct hash value.
#[derive(Clone, Copy, PartialEq, Eq, Structural, Debug, Hash)]
pub struct EntryHash {
    pub id: u64,
}

/// An agent identity: the public key under which a reader or sender acts.
/// As with `EntryHash`, one integer stands for one distinct key.
#[derive(Clone, Copy, PartialEq, Eq, Structural, Debug, Hash)]
pub struct AgentPubKey {
    pub id: u64,
}

/// An opaque token standing for the signed header that the store returns
/// together with a record's content.
#[derive(Clone, Copy, PartialEq, Eq, Structural, Debug)]
pub struct SignedHeader {
    pub id: u64,
}

/// The payload of a group message: text, a file, or a media attachment.
#[derive(Debug, PartialEq)]
pub enum Payload {
    Text { payload: String },
    File { metadata: String },
    Media { metadata: String },
}

/// Which payload kinds a retrieval asks for.
#[derive(Clone, Copy, PartialEq, Eq, Structural, Debug)]
pub enum PayloadType {
    Text,
    File,
    Media,
    All,
}

/// A group message as stored: group address, sender, payload, creation time,
/// and an optional address of the message it replies to.
#[derive(Debug, PartialEq)]
pub struct GroupMessage {
    pub group_hash: EntryHash,
    pub sender: AgentPubKey,
    pub payload: Payload,
    pub created: Timestamp,
    pub reply_to: Option<EntryHash>,
}

/// The arguments of one retrieval: which group, which calendar day (any
/// timestamp inside it), and which payload kinds.
#[derive(Debug)]
pub struct GroupChatFilter {
    pub group_id: String,
    pub date: Timestamp,
    pub payload_type: PayloadType,
}

/// The typed error of this module. Every fatal outcome of the retrieval path
/// and of the cross-module utility is one of these kinds.
#[derive(Debug, PartialEq)]
pub enum GroupError {
    /// The link query against the day-bucket index failed.
    QueryFailure,
    /// A record existed but did not decode as the expected entry variant.
    DecodeFailure,
    /// A record that had to be present (a reply target) was absent.
    EntryNotFound,
    /// A cross-module call was refused; holds the name of the refused function.
    UnauthorizedCall(String),
    /// A cross-module call failed at the network level; holds the detail.
    NetworkError(String),
}

// ---------------------------------------------------------------------------
// Views: the mathematical value of each string-carrying type.
// ---------------------------------------------------------------------------

/// Mathematical value of a `Payload`: the same shape over character sequences.
pub enum PayloadV {
    Text { payload: Seq<char> },
    File { metadata: Seq<char> },
    Media { metadata: Seq<char> },
}

impl View for Payload {
    type V = PayloadV;

    open spec fn view(&self) -> PayloadV {
        match self {
            Payload::Text { payload } => PayloadV::Text { payload: payload@ },
            Payload::File { metadata } => PayloadV::File { metadata: metadata@ },
            Payload::Media { metadata } => PayloadV::Media { metadata: metadata@ },
        }
    }
}

/// Mathematical value of a `GroupMessage`.
pub struct GroupMessageV {
    pub group_hash: EntryHash,
    pub sender: AgentPubKey,
    pub payload: PayloadV,
    pub created: Timestamp,
    pub reply_to: Option<EntryHash>,
}

impl View for GroupMessage {
    type V = GroupMessageV;

    open spec fn view(&self) -> GroupMessageV {
        GroupMessageV {
            group_hash: self.group_hash,
            sender: self.sender,
            payload: self.payload@,
            created: self.created,
            reply_to: self.reply_to,
        }
    }
}

impl Clone for Payload {
    /// Cloning keeps the mathematical value.
    fn clone(&self) -> (r: Self)
        ensures
            r@ == self@,
    {
        match self {
            Payload::Text { payload } => Payload::Text { payload: payload.clone() },
            Payload::File { metadata } => Payload::File { metadata: metadata.clone() },
            Payload::Media { metadata } => Payload::Media { metadata: metadata.clone() },
        }
    }
}

impl Clone for GroupMessage {
    /// Cloning keeps the mathematical value.
    fn clone(&self) -> (r: Self)
        ensures
            r@ == self@,
    {
        GroupMessage {
            group_hash: self.group_hash,
            sender: self.sender,
            payload: self.payload.clone(),
            created: self.created,
            reply_to: self.reply_to,
        }
    }
}

} // verus!
