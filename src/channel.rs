//! The one-slot, latest-value-wins hand-off from the poller to the render
//! layer, and the consumer's side of it.
use vstd::prelude::*;

use crate::display::{initial_display, DisplayState, DisplayView};

verus! {

/// What the slot holds after the publishes `h`: the last of them, or the
/// initial display before any.
pub open spec fn latest_of(h: Seq<DisplayView>) -> DisplayView {
    if h.len() == 0 {
        initial_display()
    } else {
        h.last()
    }
}

/// What a consumer that has seen the first `seen` publishes of `h` reads:
/// the latest state if anything newer was published, else nothing.
pub open spec fn newer(seen: nat, h: Seq<DisplayView>) -> Option<DisplayView> {
    if h.len() > seen {
        Some(latest_of(h))
    } else {
        None
    }
}

/// How many publishes the consumer has seen after that read.
pub open spec fn seen_after(seen: nat, h: Seq<DisplayView>) -> nat {
    if h.len() > seen {
        h.len()
    } else {
        seen
    }
}

/// The single slot shared by the poller and the render layer. Its model is
/// the sequence of every state published into it, oldest first; the slot
/// itself keeps only the last of them.
pub struct UpdateChannel {
    latest: DisplayState,
    version: u64,
    history: Ghost<Seq<DisplayView>>,
}

impl View for UpdateChannel {
    type V = Seq<DisplayView>;

    closed spec fn view(&self) -> Seq<DisplayView> {
        self.history@
    }
}

impl UpdateChannel {
    /// The slot holds the latest publish and counts them all.
    #[verifier::type_invariant]
    spec fn wf(&self) -> bool {
        &&& self.version as nat == self.history@.len()
        &&& self.latest@ == latest_of(self.history@)
    }

    /// An empty channel: it holds the initial display.
    pub fn new() -> (r: UpdateChannel)
        ensures
            r@ == Seq::<DisplayView>::empty(),
    {
        UpdateChannel { latest: DisplayState::initial(), version: 0, history: Ghost(Seq::empty()) }
    }

    /// How many states were published so far.
    pub fn version(&self) -> (r: u64)
        ensures
            r == self@.len(),
    {
        proof {
            use_type_invariant(self);
        }
        self.version
    }

    /// Replaces the slot's value as a whole.
    pub fn publish(&mut self, state: DisplayState)
        requires
            old(self)@.len() < u64::MAX,
        ensures
            final(self)@ == old(self)@.push(state@),
    {
        proof {
            use_type_invariant(&*self);
        }
        let ghost history = self.history@.push(state@);
        *self = UpdateChannel { latest: state, version: self.version + 1, history: Ghost(history) };
    }

    /// The most recently published state, or the initial display.
    pub fn latest(&self) -> (r: &DisplayState)
        ensures
            r@ == latest_of(self@),
    {
        proof {
            use_type_invariant(self);
        }
        &self.latest
    }
}

/// The render layer's side of the channel: how many publishes it has seen.
pub struct Consumer {
    pub seen: u64,
}

impl Consumer {
    /// A consumer that has seen nothing yet.
    pub fn new() -> (r: Consumer)
        ensures
            r.seen == 0,
    {
        Consumer { seen: 0 }
    }

    /// Reads the channel: the latest state if it is newer than what this
    /// consumer saw last, else nothing.
    pub fn receive<'a>(&mut self, channel: &'a UpdateChannel) -> (r: Option<&'a DisplayState>)
        ensures
            match r {
                Some(d) => newer(old(self).seen as nat, channel@) == Some(d@),
                None => newer(old(self).seen as nat, channel@) is None,
            },
            final(self).seen == seen_after(old(self).seen as nat, channel@),
    {
        proof {
            use_type_invariant(channel);
        }
        if channel.version > self.seen {
            self.seen = channel.version;
            Some(&channel.latest)
        } else {
            None
        }
    }
}

/// Latest value wins: when three states are published before the consumer
/// reads again, its next read gives the third of them.
pub proof fn lemma_latest_value_wins(
    h: Seq<DisplayView>,
    seen: nat,
    s1: DisplayView,
    s2: DisplayView,
    s3: DisplayView,
)
    requires
        seen <= h.len(),
    ensures
        newer(seen, h.push(s1).push(s2).push(s3)) == Some(s3),
        seen_after(seen, h.push(s1).push(s2).push(s3)) == h.len() + 3,
{
}

/// A read never goes back: the consumer's count of seen publishes never
/// decreases, a read that gives a state gives the one published at the new
/// count, and reads of a growing history see counts in order.
pub proof fn lemma_reads_in_publish_order(seen: nat, h: Seq<DisplayView>, later: Seq<DisplayView>)
    requires
        seen <= h.len(),
        h.len() <= later.len(),
        later.subrange(0, h.len() as int) == h,
    ensures
        seen <= seen_after(seen, h) <= h.len(),
        newer(seen, h) matches Some(d) ==> seen < seen_after(seen, h) && d == h[seen_after(
            seen,
            h,
        ) - 1],
        seen_after(seen, h) <= seen_after(seen_after(seen, h), later),
        newer(seen_after(seen, h), later) matches Some(d) ==> d == later[later.len() - 1],
{
}

} // verus!
