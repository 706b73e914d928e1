//! The 64-bit digest that seals a block.
//!
//! A digest is what `std`'s `DefaultHasher` returns after it was fed, in this
//! order, the payload text, the creation instant and the predecessor's digest.

use crate::timestamp::Timestamp;
use chrono::{DateTime, Utc};
use std::collections::hash_map::DefaultHasher;
use std::hash::{Hash, Hasher};
use vstd::bytes::{spec_u64_to_le_bytes, u64_to_le_bytes};
use vstd::prelude::*;
use vstd::std_specs::hash::DefaultHasherAdditionalSpecFns;

verus! {

/// What a hasher that has seen `written` has seen after `str`'s `Hash` impl
/// fed it the text `text`.
pub uninterp spec fn text_fed(written: Seq<Seq<u8>>, text: Seq<char>) -> Seq<Seq<u8>>;

/// What a hasher that has seen `written` has seen after chrono fed it the
/// instant that it makes of `secs` and `nanos`.
pub uninterp spec fn timestamp_fed(written: Seq<Seq<u8>>, secs: i64, nanos: u32) -> Seq<Seq<u8>>;

/// Feeds `text` to the hasher with `<str as Hash>::hash`. Only this is
/// claimed: what the hasher has seen afterwards is fixed by what it had seen
/// before and by the characters of `text`.
#[verifier::external_body]
fn feed_text(state: &mut DefaultHasher, text: &str)
    ensures
        final(state)@ == text_fed(old(state)@, text@),
{
    text.hash(state)
}

/// Feeds an instant to the hasher: `chrono::DateTime::from_timestamp` makes
/// the UTC date and time of `secs` and `nanos`, or nothing where chrono has
/// no such date, and the `Hash` impl of that value does the feeding. Only
/// this is claimed: what the hasher has seen afterwards is fixed by what it
/// had seen before and by the two integers.
#[verifier::external_body]
fn feed_timestamp(state: &mut DefaultHasher, secs: i64, nanos: u32)
    ensures
        final(state)@ == timestamp_fed(old(state)@, secs, nanos),
{
    let instant: Option<DateTime<Utc>> = DateTime::from_timestamp(secs, nanos);
    instant.hash(state)
}

/// The digest of a payload, a creation instant and a predecessor's digest.
pub open spec fn digest(data: Seq<char>, timestamp: Timestamp, previous: u64) -> u64 {
    DefaultHasher::spec_finish(
        timestamp_fed(text_fed(Seq::empty(), data), timestamp.secs, timestamp.nanos).push(
            spec_u64_to_le_bytes(previous),
        ),
    )
}

/// Computes the digest of a payload, a creation instant and a predecessor's
/// digest.
pub fn compute_digest(data: &str, timestamp: Timestamp, previous: u64) -> (d: u64)
    ensures
        d == digest(data@, timestamp, previous),
{
    let mut state = DefaultHasher::new();
    feed_text(&mut state, data);
    feed_timestamp(&mut state, timestamp.secs, timestamp.nanos);
    let word = u64_to_le_bytes(previous);
    state.write(word.as_slice());
    state.finish()
}

} // verus!
