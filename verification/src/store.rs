//! The session-scoped context cache: an ordered record of prior turns,
//! bounded by a configured length. Appending evicts the oldest turns first
//! until the bound holds; clearing forgets the record. The surrounding
//! process keys the record by a terminal-session identifier and moves it to
//! and from disk; absence of any record reads as an empty transcript.

use vstd::prelude::*;

use crate::message::message_views;
use crate::message::Message;
use crate::message::MessageView;

verus! {

/// The transcript a record holds: nothing reads as the empty transcript.
pub open spec fn read_spec(r: Option<Seq<MessageView>>) -> Seq<MessageView> {
    match r {
        Option::None => Seq::empty(),
        Option::Some(s) => s,
    }
}

/// The record after a clear: no record at all.
pub open spec fn clear_spec(r: Option<Seq<MessageView>>) -> Option<Seq<MessageView>> {
    None
}

/// The record after appending `new` to `existing` under bound `max`: the
/// concatenation, with the oldest entries evicted one at a time until at
/// most `max` remain.
pub open spec fn append_spec(existing: Seq<MessageView>, new: Seq<MessageView>, max: nat) -> Seq<
    MessageView,
> {
    let all = existing + new;
    if all.len() <= max {
        all
    } else {
        all.skip(all.len() - max)
    }
}

/// One session's persisted context record, or its absence.
pub struct SessionStore {
    record: Option<Vec<Message>>,
}

impl View for SessionStore {
    type V = Option<Seq<MessageView>>;

    closed spec fn view(&self) -> Option<Seq<MessageView>> {
        match self.record {
            Option::None => None,
            Option::Some(msgs) => Some(message_views(msgs@)),
        }
    }
}

impl SessionStore {
    /// A store with no prior record.
    pub fn new() -> (r: SessionStore)
        ensures
            r@ is None,
    {
        SessionStore { record: None }
    }

    /// A store holding a previously persisted record.
    pub fn from_record(msgs: Vec<Message>) -> (r: SessionStore)
        ensures
            r@ == Some(message_views(msgs@)),
    {
        SessionStore { record: Some(msgs) }
    }

    /// Whether any record exists.
    pub fn has_record(&self) -> (r: bool)
        ensures
            r == (self@ is Some),
    {
        match &self.record {
            Option::Some(_) => true,
            Option::None => false,
        }
    }

    /// The stored transcript; empty when no record exists. Never fails.
    pub fn read(&self) -> (r: Vec<Message>)
        ensures
            message_views(r@) == read_spec(self@),
    {
        match &self.record {
            Option::None => {
                let r: Vec<Message> = Vec::new();
                proof {
                    assert(message_views(r@) =~= read_spec(self@));
                }
                r
            },
            Option::Some(msgs) => {
                let mut out: Vec<Message> = Vec::new();
                let mut i: usize = 0;
                #[verifier::loop_isolation(false)]
                while i < msgs.len()
                    invariant
                        i <= msgs.len(),
                        out@.len() == i as int,
                        forall|j: int| 0 <= j < i ==> (#[trigger] out@[j])@ == msgs@[j]@,
                    decreases msgs.len() - i,
                {
                    out.push(msgs[i].clone());
                    i += 1;
                }
                proof {
                    assert(message_views(out@) =~= message_views(msgs@));
                }
                out
            },
        }
    }

    /// Append new turns to the record (creating it if absent) and evict from
    /// the front while more than `max` turns remain.
    pub fn append(&mut self, new: Vec<Message>, max: usize)
        requires
            read_spec(old(self)@).len() + new@.len() <= usize::MAX,
        ensures
            final(self)@ == Some(
                append_spec(read_spec(old(self)@), message_views(new@), max as nat),
            ),
    {
        let existing = self.read();
        let ghost evs = message_views(existing@);
        let ghost nvs = message_views(new@);
        let ghost all = evs + nvs;
        let total = existing.len() + new.len();
        let start: usize = if total > max {
            total - max
        } else {
            0
        };
        let mut out: Vec<Message> = Vec::new();
        let mut i: usize = start;
        #[verifier::loop_isolation(false)]
        while i < existing.len()
            invariant
                start <= i,
                i <= existing.len() || i == start,
                message_views(out@) == all.subrange(start as int, i as int),
            decreases existing.len() - i,
        {
            out.push(existing[i].clone());
            proof {
                assert(message_views(out@) =~= all.subrange(start as int, i + 1));
            }
            i += 1;
        }
        let jstart: usize = if start > existing.len() {
            start - existing.len()
        } else {
            0
        };
        proof {
            assert(message_views(out@) =~= all.subrange(
                start as int,
                existing@.len() + jstart as int,
            ));
        }
        let mut j: usize = jstart;
        #[verifier::loop_isolation(false)]
        while j < new.len()
            invariant
                jstart <= j,
                j <= new.len() || j == jstart,
                message_views(out@) == all.subrange(start as int, existing@.len() + j as int),
            decreases new.len() - j,
        {
            out.push(new[j].clone());
            proof {
                assert(message_views(out@) =~= all.subrange(
                    start as int,
                    existing@.len() + j + 1,
                ));
            }
            j += 1;
        }
        proof {
            assert(message_views(out@) =~= append_spec(read_spec(old(self)@), nvs, max as nat));
        }
        self.record = Some(out);
    }

    /// Forget the record entirely.
    pub fn clear(&mut self)
        ensures
            final(self)@ == clear_spec(old(self)@),
    {
        self.record = None;
    }
}

/// Appending `k` turns to an empty store bounded at `max` (with `k > max`)
/// keeps exactly the last `max` of them, in their original order.
pub proof fn lemma_append_to_empty_overflow(new: Seq<MessageView>, max: nat)
    requires
        new.len() > max,
    ensures
        append_spec(Seq::empty(), new, max).len() == max,
        forall|i: int|
            0 <= i < max ==> #[trigger] append_spec(Seq::empty(), new, max)[i] == new[new.len()
                - max + i],
{
    let all = Seq::<MessageView>::empty() + new;
    assert(all =~= new);
}

/// The stored record never exceeds the configured bound: an append keeps
/// everything while the bound allows, and exactly `max` turns otherwise.
pub proof fn lemma_append_respects_bound(existing: Seq<MessageView>, new: Seq<MessageView>, max: nat)
    ensures
        append_spec(existing, new, max).len() <= max || append_spec(existing, new, max) == existing
            + new,
        append_spec(existing, new, max).len() == if existing.len() + new.len() <= max {
            (existing.len() + new.len()) as int
        } else {
            max as int
        },
{
}

/// Reading after a clear yields the empty transcript, whatever the record
/// held before.
pub proof fn lemma_read_after_clear(before: Option<Seq<MessageView>>)
    ensures
        read_spec(clear_spec(before)) == Seq::<MessageView>::empty(),
{
}

} // verus!
