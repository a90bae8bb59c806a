//! How a subscription merges its backfill with the live listener: the
//! stored events after the subscriber's position up to the head are handed
//! out first, then whatever the listener delivers past the head.

use vstd::prelude::*;
use crate::store_policy::live_event_passes;

verus! {

/// What the live listener hands over.
#[derive(Debug, Clone, Copy, PartialEq, Eq, Structural)]
pub enum LiveItem {
    /// An event with this sequence.
    Event(u64),
    /// The listener fell behind and this many events were dropped.
    Lagged(u64),
    /// The channel closed.
    Closed,
}

/// What the stream does with a live item.
#[derive(Debug, Clone, Copy, PartialEq, Eq, Structural)]
pub enum LiveStep {
    /// Hand the event to the subscriber.
    Deliver,
    /// Drop it: the backfill already covered it.
    Skip,
    /// Hand the subscriber a lag error carrying the count, and stay live.
    Lagged(u64),
    /// End the stream.
    End,
}

pub open spec fn live_step_of(head: u64, item: LiveItem) -> LiveStep {
    match item {
        LiveItem::Event(seq) => if seq > head { LiveStep::Deliver } else { LiveStep::Skip },
        LiveItem::Lagged(n) => LiveStep::Lagged(n),
        LiveItem::Closed => LiveStep::End,
    }
}

/// Decide what to do with an item from the live listener of a
/// subscription whose backfill reached `head`.
pub fn live_step(head: u64, item: LiveItem) -> (r: LiveStep)
    ensures
        r == live_step_of(head, item),
{
    match item {
        LiveItem::Event(seq) => if live_event_passes(head, seq) { LiveStep::Deliver } else { LiveStep::Skip },
        LiveItem::Lagged(n) => LiveStep::Lagged(n),
        LiveItem::Closed => LiveStep::End,
    }
}

/// The sequences the subscriber receives, in order, when the listener
/// delivers events with the sequences `live`.
pub open spec fn passed_live(head: u64, live: Seq<u64>) -> Seq<u64>
    decreases live.len(),
{
    if live.len() == 0 {
        Seq::empty()
    } else {
        let rest = passed_live(head, live.drop_last());
        if live_step_of(head, LiveItem::Event(live.last())) is Deliver {
            rest.push(live.last())
        } else {
            rest
        }
    }
}

pub open spec fn strictly_increasing(s: Seq<u64>) -> bool {
    forall|i: int, j: int| 0 <= i < j < s.len() ==> s[i] < s[j]
}

proof fn lemma_passed_live(head: u64, live: Seq<u64>)
    ensures
        forall|k: int| 0 <= k < passed_live(head, live).len() ==>
            #[trigger] passed_live(head, live)[k] > head && live.contains(passed_live(head, live)[k]),
        forall|s: u64| live.contains(s) && s > head ==> passed_live(head, live).contains(s),
        strictly_increasing(live) ==> strictly_increasing(passed_live(head, live)),
    decreases live.len(),
{
    if live.len() > 0 {
        let prefix = live.drop_last();
        let x = live.last();
        let rest = passed_live(head, prefix);
        lemma_passed_live(head, prefix);
        assert forall|k: int| 0 <= k < rest.len() implies live.contains(#[trigger] rest[k]) by {
            let j = choose|j: int| 0 <= j < prefix.len() && prefix[j] == rest[k];
            assert(live[j] == rest[k]);
        }
        assert forall|s: u64| live.contains(s) && s > head implies passed_live(head, live).contains(s) by {
            let j = choose|j: int| 0 <= j < live.len() && live[j] == s;
            if j == live.len() - 1 {
                assert(passed_live(head, live) == rest.push(x));
                assert(passed_live(head, live)[rest.len() as int] == s);
            } else {
                assert(prefix[j] == s);
                assert(prefix.contains(s));
                let k = choose|k: int| 0 <= k < rest.len() && rest[k] == s;
                if x > head {
                    assert(passed_live(head, live)[k] == s);
                }
            }
        }
        if strictly_increasing(live) {
            assert(strictly_increasing(prefix));
            if x > head {
                assert forall|k: int| 0 <= k < rest.len() implies #[trigger] rest[k] < x by {
                    let j = choose|j: int| 0 <= j < prefix.len() && prefix[j] == rest[k];
                    assert(live[j] == rest[k]);
                    assert(live[live.len() - 1] == x);
                }
                assert(strictly_increasing(rest.push(x)));
            }
        }
        if x > head {
            assert forall|k: int| 0 <= k < passed_live(head, live).len() implies
                #[trigger] passed_live(head, live)[k] > head && live.contains(passed_live(head, live)[k]) by {
                if k < rest.len() {
                    assert(passed_live(head, live)[k] == rest[k]);
                } else {
                    assert(passed_live(head, live)[k] == x);
                    assert(live[live.len() - 1] == x);
                }
            }
        }
    }
}

/// A subscriber sees every sequence at most once and in increasing order:
/// the backfill holds stored sequences after its position up to the head,
/// in order, and of a listener that delivers increasing sequences only
/// those past the head come through. Every listened sequence past the head
/// does come through, so none is lost between the two.
pub proof fn lemma_subscriber_sees_each_sequence_once(since: u64, head: u64, backfill: Seq<u64>, live: Seq<u64>)
    requires
        strictly_increasing(backfill),
        forall|i: int| 0 <= i < backfill.len() ==> since < #[trigger] backfill[i] <= head,
        strictly_increasing(live),
    ensures
        strictly_increasing(backfill + passed_live(head, live)),
        forall|s: u64| live.contains(s) && s > head ==> (backfill + passed_live(head, live)).contains(s),
{
    lemma_passed_live(head, live);
    let p = passed_live(head, live);
    let all = backfill + p;
    assert forall|i: int, j: int| 0 <= i < j < all.len() implies all[i] < all[j] by {
        if j < backfill.len() {
        } else if i >= backfill.len() {
            assert(all[i] == p[i - backfill.len()]);
            assert(all[j] == p[j - backfill.len()]);
        } else {
            assert(all[i] == backfill[i]);
            assert(all[j] == p[j - backfill.len()]);
        }
    }
    assert forall|s: u64| live.contains(s) && s > head implies all.contains(s) by {
        assert(p.contains(s));
        let k = choose|k: int| 0 <= k < p.len() && p[k] == s;
        assert(all[backfill.len() + k] == s);
    }
}

/// Nothing after the subscriber's position is lost: when the backfill holds
/// every stored sequence after `since` up to the head, and the listener,
/// attached before the head was read, hands over every sequence appended
/// past the head, the subscriber receives every stored sequence after
/// `since`, each once and in increasing order.
pub proof fn lemma_subscriber_sees_every_sequence_after_since(
    since: u64,
    head: u64,
    stored: Set<u64>,
    backfill: Seq<u64>,
    live: Seq<u64>,
)
    requires
        strictly_increasing(backfill),
        forall|i: int| 0 <= i < backfill.len() ==> since < #[trigger] backfill[i] <= head,
        strictly_increasing(live),
        forall|s: u64| #[trigger] stored.contains(s) && since < s <= head ==> backfill.contains(s),
        forall|s: u64| #[trigger] stored.contains(s) && s > head ==> live.contains(s),
    ensures
        forall|s: u64| #[trigger] stored.contains(s) && s > since ==> (backfill + passed_live(head, live)).contains(s),
        strictly_increasing(backfill + passed_live(head, live)),
{
    lemma_subscriber_sees_each_sequence_once(since, head, backfill, live);
    let all = backfill + passed_live(head, live);
    assert forall|s: u64| #[trigger] stored.contains(s) && s > since implies all.contains(s) by {
        if s <= head {
            let k = choose|k: int| 0 <= k < backfill.len() && backfill[k] == s;
            assert(all[k] == s);
        }
    }
}

} // verus!
