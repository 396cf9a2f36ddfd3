//! The day-bucket indexer: a deterministic index key derived from a group id
//! and a calendar day, and the tag filter derived from a payload-kind
//! selector. Two timestamps map to the same key exactly when they fall in
//! the same group and the same day.

use vstd::prelude::*;
use vstd::string::StringExecFns;

use crate::digits::{dec_int, i64_to_string, lemma_dec_int_injective};
use crate::time::{day_of, timestamp_to_days};
use crate::types::{PayloadType, Timestamp};

verus! {

/// The bucket-index key of a group and a day: the group id, a dot, and the
/// decimal day number.
pub open spec fn bucket_key_spec(group_id: Seq<char>, date: Timestamp) -> Seq<char> {
    group_id + "."@ + dec_int(day_of(date.secs as int))
}

/// Derives the bucket-index key of `group_id` and the day of `date`.
pub fn bucket_key(group_id: &str, date: Timestamp) -> (r: String)
    ensures
        r@ == bucket_key_spec(group_id@, date),
{
    let mut s = group_id.to_owned();
    s.append(".");
    let days = timestamp_to_days(date);
    let ds = i64_to_string(days);
    s.append(ds.as_str());
    proof {
        assert(s@ =~= bucket_key_spec(group_id@, date));
    }
    s
}

/// The link-tag filter a payload-kind selector stands for: one tag per
/// concrete kind, and no filter at all for `All`.
pub open spec fn tag_for_spec(payload_type: PayloadType) -> Option<Seq<char>> {
    match payload_type {
        PayloadType::Text => Some("text"@),
        PayloadType::File => Some("file"@),
        PayloadType::Media => Some("media"@),
        PayloadType::All => None,
    }
}

/// Derives the link-tag filter of a payload-kind selector.
pub fn tag_for(payload_type: PayloadType) -> (r: Option<String>)
    ensures
        crate::store::filter_view(r) == tag_for_spec(payload_type),
{
    match payload_type {
        PayloadType::Text => Some("text".to_owned()),
        PayloadType::File => Some("file".to_owned()),
        PayloadType::Media => Some("media".to_owned()),
        PayloadType::All => None,
    }
}

/// Bucketing correctness, same-day half: two timestamps of the same day give
/// the same bucket key, so one query covers the messages of both.
pub proof fn lemma_same_day_same_bucket(group_id: Seq<char>, t1: Timestamp, t2: Timestamp)
    requires
        day_of(t1.secs as int) == day_of(t2.secs as int),
    ensures
        bucket_key_spec(group_id, t1) == bucket_key_spec(group_id, t2),
{
}

/// Bucketing correctness, boundary half: timestamps of distinct days — such
/// as one second before and one second after a multiple of 86400 — give
/// distinct bucket keys.
pub proof fn lemma_distinct_day_distinct_bucket(group_id: Seq<char>, t1: Timestamp, t2: Timestamp)
    requires
        day_of(t1.secs as int) != day_of(t2.secs as int),
    ensures
        bucket_key_spec(group_id, t1) != bucket_key_spec(group_id, t2),
{
    let p = group_id + "."@;
    let d1 = dec_int(day_of(t1.secs as int));
    let d2 = dec_int(day_of(t2.secs as int));
    lemma_dec_int_injective(day_of(t1.secs as int), day_of(t2.secs as int));
    if bucket_key_spec(group_id, t1) == bucket_key_spec(group_id, t2) {
        assert((p + d1).len() == (p + d2).len());
        assert forall|i: int| 0 <= i < d1.len() implies d1[i] == d2[i] by {
            assert(d1[i] == (p + d1)[p.len() + i]);
            assert(d2[i] == (p + d2)[p.len() + i]);
        }
        assert(d1 =~= d2);
        assert(false);
    }
}

} // verus!
