//! Record resolution and shared helpers: turning fetched records into typed
//! group messages, the typed error of the module with its human-readable
//! reasons, and the handler for cross-module call responses.

use vstd::prelude::*;
use vstd::string::StringExecFns;

use crate::store::{AppEntry, Element, ElementEntry, Entry, Store};
use crate::types::{GroupError, GroupMessage, GroupMessageV, SignedHeader};

verus! {

/// Wraps a reason into the error side of a result.
pub fn error<T>(e: GroupError) -> (r: Result<T, GroupError>)
    ensures
        r == Result::<T, GroupError>::Err(e),
{
    Err(e)
}

/// A response to a cross-module call: the returned payload bytes, or one of
/// the two failure modes the gateway reports.
#[derive(Debug)]
pub enum ZomeCallResponse {
    /// The call succeeded; holds the serialized response payload.
    Success(Vec<u8>),
    /// The call was refused; holds the name of the function called.
    Unauthorized(String),
    /// The call failed at the network level; holds the detail.
    NetworkError(String),
}

/// Turns a cross-module call response into the payload bytes, or surfaces
/// the gateway's failure as the matching typed error.
pub fn call_response_handler(call_response: ZomeCallResponse) -> (r: Result<Vec<u8>, GroupError>)
    ensures
        match call_response {
            ZomeCallResponse::Success(payload) => r == Result::<Vec<u8>, GroupError>::Ok(payload),
            ZomeCallResponse::Unauthorized(f) => r == Result::<Vec<u8>, GroupError>::Err(
                GroupError::UnauthorizedCall(f),
            ),
            ZomeCallResponse::NetworkError(e) => r == Result::<Vec<u8>, GroupError>::Err(
                GroupError::NetworkError(e),
            ),
        },
{
    match call_response {
        ZomeCallResponse::Success(extern_io) => Ok(extern_io),
        ZomeCallResponse::Unauthorized(function_name) => Err(
            GroupError::UnauthorizedCall(function_name),
        ),
        ZomeCallResponse::NetworkError(e) => Err(GroupError::NetworkError(e)),
    }
}

impl GroupError {
    /// The human-readable reason of this error.
    pub open spec fn reason_spec(self) -> Seq<char> {
        match self {
            GroupError::QueryFailure => "Cannot get links on this path"@,
            GroupError::DecodeFailure => "the group message entry is not of the expected variant"@,
            GroupError::EntryNotFound => "Entry not found"@,
            GroupError::UnauthorizedCall(f) => "Unauthorized Call to : "@ + f@,
            GroupError::NetworkError(e) => "Network Error : "@ + e@,
        }
    }

    /// Renders the human-readable reason the caller is shown.
    pub fn reason(&self) -> (r: String)
        ensures
            r@ == self.reason_spec(),
    {
        match self {
            GroupError::QueryFailure => "Cannot get links on this path".to_owned(),
            GroupError::DecodeFailure => {
                "the group message entry is not of the expected variant".to_owned()
            },
            GroupError::EntryNotFound => "Entry not found".to_owned(),
            GroupError::UnauthorizedCall(f) => {
                let mut s = "Unauthorized Call to : ".to_owned();
                s.append(f.as_str());
                s
            },
            GroupError::NetworkError(e) => {
                let mut s = "Network Error : ".to_owned();
                s.append(e.as_str());
                s
            },
        }
    }
}

/// Decoding an entry as a group message: exactly an application entry of the
/// group-message shape decodes; everything else is a decode failure.
pub open spec fn entry_message_v(entry: Entry) -> Result<GroupMessageV, GroupError> {
    match entry {
        Entry::App(AppEntry::GroupMessage(m)) => Ok(m@),
        _ => Err(GroupError::DecodeFailure),
    }
}

/// Decoding a fetched record as a group message: its entry must be present
/// and decode as one.
pub open spec fn element_message_v(el: Element) -> Result<GroupMessageV, GroupError> {
    match el.entry {
        ElementEntry::Present(entry) => entry_message_v(entry),
        ElementEntry::NotPresent => Err(GroupError::DecodeFailure),
    }
}

/// Resolving an address as a group message: absent records are reported apart
/// from records of the wrong shape.
pub open spec fn resolve_message_v(store: Store, h: crate::types::EntryHash) -> Result<
    GroupMessageV,
    GroupError,
> {
    match store.record_at(h) {
        Some(el) => element_message_v(el),
        None => Err(GroupError::EntryNotFound),
    }
}

/// Resolving an address as a group message, keeping the record's header.
pub open spec fn resolve_with_header_v(store: Store, h: crate::types::EntryHash) -> Result<
    (SignedHeader, GroupMessageV),
    GroupError,
> {
    match store.record_at(h) {
        Some(el) => match element_message_v(el) {
            Ok(m) => Ok((el.signed_header, m)),
            Err(e) => Err(e),
        },
        None => Err(GroupError::EntryNotFound),
    }
}

/// Decodes an entry as a group message, or reports the shape mismatch.
pub fn try_from_entry(entry: &Entry) -> (r: Result<GroupMessage, GroupError>)
    ensures
        match r {
            Ok(m) => entry_message_v(*entry) == Ok::<GroupMessageV, GroupError>(m@),
            Err(e) => entry_message_v(*entry) == Err::<GroupMessageV, GroupError>(e),
        },
{
    match entry {
        Entry::App(AppEntry::GroupMessage(m)) => Ok(m.clone()),
        _ => error(GroupError::DecodeFailure),
    }
}

/// Decodes a fetched record as a group message, or reports the mismatch.
pub fn try_from_element(element: &Element) -> (r: Result<GroupMessage, GroupError>)
    ensures
        match r {
            Ok(m) => element_message_v(*element) == Ok::<GroupMessageV, GroupError>(m@),
            Err(e) => element_message_v(*element) == Err::<GroupMessageV, GroupError>(e),
        },
{
    match &element.entry {
        ElementEntry::Present(entry) => try_from_entry(entry),
        ElementEntry::NotPresent => error(GroupError::DecodeFailure),
    }
}

/// Fetches the record at `entry_hash` and decodes it as a group message;
/// an absent record is an error here, the caller deciding what absence means.
pub fn try_get_and_convert(store: &Store, entry_hash: crate::types::EntryHash) -> (r: Result<
    GroupMessage,
    GroupError,
>)
    ensures
        match r {
            Ok(m) => resolve_message_v(*store, entry_hash) == Ok::<GroupMessageV, GroupError>(m@),
            Err(e) => resolve_message_v(*store, entry_hash) == Err::<GroupMessageV, GroupError>(e),
        },
{
    match store.get(entry_hash) {
        Some(element) => try_from_element(element),
        None => error(GroupError::EntryNotFound),
    }
}

/// As `try_get_and_convert`, also handing back the record's signed header.
pub fn try_get_and_convert_with_header(store: &Store, entry_hash: crate::types::EntryHash) -> (r:
    Result<(SignedHeader, GroupMessage), GroupError>)
    ensures
        match r {
            Ok(p) => resolve_with_header_v(*store, entry_hash) == Ok::<
                (SignedHeader, GroupMessageV),
                GroupError,
            >((p.0, p.1@)),
            Err(e) => resolve_with_header_v(*store, entry_hash) == Err::<
                (SignedHeader, GroupMessageV),
                GroupError,
            >(e),
        },
{
    match store.get(entry_hash) {
        Some(element) => match try_from_element(element) {
            Ok(m) => Ok((element.signed_header, m)),
            Err(e) => Err(e),
        },
        None => error(GroupError::EntryNotFound),
    }
}

} // verus!
