//! Where the parts of a line come from: the clock and a random generator, or
//! a repeatable stand-in for both.

use crate::line::{
    is_timestamp, is_timestamp_text, LineRecord, TRANSACTION_ID_COUNT, TRANSACTION_ID_MAX,
    TRANSACTION_ID_MIN,
};
use crate::text::views;
use rand::rngs::ThreadRng;
use rand::seq::SliceRandom;
use rand::Rng;
use vstd::prelude::*;

verus! {

/// The thread-local generator of the `rand` crate. Nothing is known of its
/// state.
#[verifier::external_type_specification]
#[verifier::external_body]
pub struct ExThreadRng(ThreadRng);

/// `rand::thread_rng`: a handle to the calling thread's generator.
pub assume_specification[ rand::thread_rng ]() -> ThreadRng;

/// `chrono::Utc::now` followed by `DateTime::to_rfc3339`: the current time in
/// UTC as text. The text holds digits and the separators `-`, `:`, `.`, `T`
/// and `+` only; which ones depends on the clock. The call panics if the
/// system clock reads a time before 1970 or beyond the years that `chrono`
/// can represent.
#[verifier::external_body]
fn now_rfc3339() -> (timestamp: String)
    ensures
        is_timestamp(timestamp@),
{
    chrono::Utc::now().to_rfc3339()
}

/// `SliceRandom::choose` on a slice of strings: `None` for an empty slice,
/// otherwise a reference to one of its elements; which one is up to the
/// generator.
#[verifier::external_body]
fn choose_from<'a>(items: &'a [&'a str], rng: &mut ThreadRng) -> (chosen: Option<&'a &'a str>)
    ensures
        chosen is None <==> items@.len() == 0,
        chosen matches Some(item) ==> exists|i: int|
            0 <= i < items@.len() && item@ == (#[trigger] items@[i])@,
{
    items.choose(rng)
}

/// `Rng::gen_range` on an inclusive range of `u32`: some value of the range.
/// The call panics on an empty range, which `low <= high` rules out.
#[verifier::external_body]
fn gen_range_inclusive(rng: &mut ThreadRng, low: u32, high: u32) -> (value: u32)
    requires
        low <= high,
    ensures
        low <= value <= high,
{
    rng.gen_range(low..=high)
}

/// A supply of line records.
pub trait RecordSource {
    /// Produces the parts of the next line, drawing the label from `levels`
    /// and the message from `messages`.
    fn next_record<'a>(&mut self, levels: &'a [&'a str], messages: &'a [&'a str]) -> (record:
        LineRecord<'a>)
        requires
            levels@.len() > 0,
            messages@.len() > 0,
        ensures
            record.well_formed(views(levels@), views(messages@)),
    ;
}

/// Records stamped with the current time and filled in at random.
pub struct SystemSource {
    rng: ThreadRng,
}

impl SystemSource {
    /// A source backed by the system clock and the calling thread's random
    /// generator.
    pub fn new() -> Self {
        SystemSource { rng: rand::thread_rng() }
    }
}

impl RecordSource for SystemSource {
    fn next_record<'a>(&mut self, levels: &'a [&'a str], messages: &'a [&'a str]) -> (record:
        LineRecord<'a>) {
        let timestamp = now_rfc3339();
        let level: &'a str = *choose_from(levels, &mut self.rng).unwrap();
        let message: &'a str = *choose_from(messages, &mut self.rng).unwrap();
        let transaction_id: u32 = gen_range_inclusive(
            &mut self.rng,
            TRANSACTION_ID_MIN,
            TRANSACTION_ID_MAX,
        );
        proof {
            let i = choose|i: int| 0 <= i < levels@.len() && level@ == (#[trigger] levels@[i])@;
            assert(views(levels@)[i] == level@);
            let j = choose|j: int|
                0 <= j < messages@.len() && message@ == (#[trigger] messages@[j])@;
            assert(views(messages@)[j] == message@);
        }
        LineRecord { timestamp, level, message, transaction_id }
    }
}

/// Records that repeat from run to run: a fixed timestamp, and labels,
/// messages and identifiers taken in turn.
pub struct SequentialSource {
    timestamp: String,
    position: u64,
}

impl SequentialSource {
    /// The timestamp every record carries.
    pub closed spec fn timestamp(&self) -> Seq<char> {
        self.timestamp@
    }

    /// Number of records handed out so far, counted from the start position
    /// and wrapping around at 2^64.
    pub closed spec fn position(&self) -> nat {
        self.position as nat
    }

    /// The timestamp is one a line may carry.
    #[verifier::type_invariant]
    spec fn timestamp_is_valid(&self) -> bool {
        is_timestamp(self.timestamp@)
    }

    /// The label or message that is handed out at `position` from a list of
    /// `len` entries: its index.
    pub open spec fn index_at(position: nat, len: nat) -> int {
        (position % len) as int
    }

    /// The identifier that is handed out at `position`.
    pub open spec fn id_at(position: nat) -> nat {
        TRANSACTION_ID_MIN as nat + position % (TRANSACTION_ID_COUNT as nat)
    }

    /// A source that stamps every record with `timestamp` and starts at
    /// `position`; `None` if `timestamp` holds a character that no timestamp
    /// holds.
    pub fn new(timestamp: &str, position: u64) -> (source: Option<SequentialSource>)
        ensures
            source is Some <==> is_timestamp(timestamp@),
            source matches Some(s) ==> s.timestamp() == timestamp@ && s.position() == position,
    {
        if is_timestamp_text(timestamp) {
            Some(SequentialSource { timestamp: timestamp.to_owned(), position })
        } else {
            None
        }
    }

    /// The record at the current position; the position moves on by one.
    pub fn next<'a>(&mut self, levels: &'a [&'a str], messages: &'a [&'a str]) -> (record:
        LineRecord<'a>)
        requires
            levels@.len() > 0,
            messages@.len() > 0,
        ensures
            final(self).timestamp() == old(self).timestamp(),
            final(self).position() == (old(self).position() + 1) % 0x1_0000_0000_0000_0000,
            record.timestamp@ == old(self).timestamp(),
            record.level@ == levels@[Self::index_at(old(self).position(), levels@.len())]@,
            record.message@ == messages@[Self::index_at(
                old(self).position(),
                messages@.len(),
            )]@,
            record.transaction_id == Self::id_at(old(self).position()),
            record.well_formed(views(levels@), views(messages@)),
    {
        proof {
            use_type_invariant(&*self);
        }
        let position: u64 = self.position;
        let i: usize = (position % (levels.len() as u64)) as usize;
        let j: usize = (position % (messages.len() as u64)) as usize;
        let transaction_id: u32 = TRANSACTION_ID_MIN + (position % (TRANSACTION_ID_COUNT
            as u64)) as u32;
        self.position = position.wrapping_add(1);
        proof {
            assert(views(levels@)[i as int] == levels@[i as int]@);
            assert(views(messages@)[j as int] == messages@[j as int]@);
        }
        LineRecord {
            timestamp: self.timestamp.clone(),
            level: levels[i],
            message: messages[j],
            transaction_id,
        }
    }
}

impl RecordSource for SequentialSource {
    fn next_record<'a>(&mut self, levels: &'a [&'a str], messages: &'a [&'a str]) -> (record:
        LineRecord<'a>) {
        self.next(levels, messages)
    }
}

} // verus!
