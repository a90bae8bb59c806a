//! Sequence stamping for the domain-event log.
//!
//! Every aggregate (`aggregate_type`, `aggregate_id`) has its own sequence
//! 1, 2, 3, ... The single writer keeps a cache of the last committed
//! sequence of each aggregate it has seen. An append batch is stamped from
//! that cache, or from the stored maximum for aggregates not yet cached;
//! envelopes of one aggregate within a batch get consecutive numbers. The
//! cache moves only after the batch's transaction commits, so a failed
//! commit leaves it untouched; a prune drops the aggregate from the cache.

use vstd::prelude::*;

verus! {

/// An aggregate's identity.
#[derive(Debug, Clone)]
pub struct AggregateKey {
    pub aggregate_type: String,
    pub aggregate_id: String,
}

pub type KeyView = (Seq<char>, Seq<char>);

pub open spec fn key_view(k: AggregateKey) -> KeyView {
    (k.aggregate_type@, k.aggregate_id@)
}

pub open spec fn keys_view(ks: Seq<AggregateKey>) -> Seq<KeyView> {
    ks.map_values(|k: AggregateKey| key_view(k))
}

impl AggregateKey {
    pub fn new(aggregate_type: &str, aggregate_id: &str) -> (r: Self)
        ensures
            key_view(r) == (aggregate_type@, aggregate_id@),
    {
        AggregateKey { aggregate_type: aggregate_type.to_owned(), aggregate_id: aggregate_id.to_owned() }
    }

    pub fn same(&self, other: &AggregateKey) -> (r: bool)
        ensures
            r == (key_view(*self) == key_view(*other)),
    {
        self.aggregate_type == other.aggregate_type && self.aggregate_id == other.aggregate_id
    }

    pub fn duplicate(&self) -> (r: AggregateKey)
        ensures
            key_view(r) == key_view(*self),
    {
        AggregateKey { aggregate_type: self.aggregate_type.clone(), aggregate_id: self.aggregate_id.clone() }
    }
}

/// A sequence number per aggregate, held as a list without repeated keys.
#[derive(Debug)]
pub struct SequenceMap {
    entries: Vec<(AggregateKey, u64)>,
}

pub open spec fn entries_view(e: Seq<(AggregateKey, u64)>) -> Seq<(KeyView, u64)> {
    e.map_values(|p: (AggregateKey, u64)| (key_view(p.0), p.1))
}

pub open spec fn entries_unique(e: Seq<(KeyView, u64)>) -> bool {
    forall|i: int, j: int| 0 <= i < j < e.len() ==> e[i].0 != e[j].0
}

pub open spec fn entries_map(e: Seq<(KeyView, u64)>) -> Map<KeyView, u64>
    decreases e.len(),
{
    if e.len() == 0 {
        Map::empty()
    } else {
        entries_map(e.drop_last()).insert(e.last().0, e.last().1)
    }
}

proof fn lemma_entries_map_lookup(e: Seq<(KeyView, u64)>, i: int)
    requires
        entries_unique(e),
        0 <= i < e.len(),
    ensures
        entries_map(e).contains_key(e[i].0),
        entries_map(e)[e[i].0] == e[i].1,
    decreases e.len(),
{
    if i < e.len() - 1 {
        lemma_entries_map_lookup(e.drop_last(), i);
    }
}

proof fn lemma_entries_map_absent(e: Seq<(KeyView, u64)>, k: KeyView)
    requires
        forall|i: int| 0 <= i < e.len() ==> e[i].0 != k,
    ensures
        !entries_map(e).contains_key(k),
    decreases e.len(),
{
    if e.len() > 0 {
        lemma_entries_map_absent(e.drop_last(), k);
    }
}

proof fn lemma_entries_map_dom(e: Seq<(KeyView, u64)>, k: KeyView)
    requires
        entries_map(e).contains_key(k),
    ensures
        exists|i: int| 0 <= i < e.len() && e[i].0 == k,
    decreases e.len(),
{
    if e.last().0 != k {
        lemma_entries_map_dom(e.drop_last(), k);
        let i = choose|i: int| 0 <= i < e.drop_last().len() && e.drop_last()[i].0 == k;
        assert(e[i].0 == k);
    }
}

proof fn lemma_entries_map_update(e: Seq<(KeyView, u64)>, i: int, v: u64)
    requires
        entries_unique(e),
        0 <= i < e.len(),
    ensures
        entries_unique(e.update(i, (e[i].0, v))),
        entries_map(e.update(i, (e[i].0, v))) =~= entries_map(e).insert(e[i].0, v),
{
    let e2 = e.update(i, (e[i].0, v));
    assert forall|k: KeyView| #[trigger] entries_map(e2).contains_key(k) <==> entries_map(e).insert(e[i].0, v).contains_key(k) by {
        if k == e[i].0 {
            lemma_entries_map_lookup(e2, i);
        } else {
            if entries_map(e2).contains_key(k) {
                lemma_entries_map_dom(e2, k);
                let j = choose|j: int| 0 <= j < e2.len() && e2[j].0 == k;
                lemma_entries_map_lookup(e, j);
            }
            if entries_map(e).contains_key(k) {
                lemma_entries_map_dom(e, k);
                let j = choose|j: int| 0 <= j < e.len() && e[j].0 == k;
                lemma_entries_map_lookup(e2, j);
            }
        }
    }
    assert forall|k: KeyView| #[trigger] entries_map(e2).contains_key(k) implies entries_map(e2)[k] == entries_map(e).insert(e[i].0, v)[k] by {
        lemma_entries_map_dom(e2, k);
        let j = choose|j: int| 0 <= j < e2.len() && e2[j].0 == k;
        lemma_entries_map_lookup(e2, j);
        if j != i {
            lemma_entries_map_lookup(e, j);
        }
    }
}

proof fn lemma_entries_map_push(e: Seq<(KeyView, u64)>, k: KeyView, v: u64)
    requires
        entries_unique(e),
        !entries_map(e).contains_key(k),
    ensures
        entries_unique(e.push((k, v))),
        entries_map(e.push((k, v))) == entries_map(e).insert(k, v),
{
    assert(e.push((k, v)).drop_last() =~= e);
    assert forall|i: int| 0 <= i < e.len() implies e[i].0 != k by {
        lemma_entries_map_lookup(e, i);
    }
}

proof fn lemma_entries_map_remove(e: Seq<(KeyView, u64)>, i: int)
    requires
        entries_unique(e),
        0 <= i < e.len(),
    ensures
        entries_unique(e.remove(i)),
        entries_map(e.remove(i)) =~= entries_map(e).remove(e[i].0),
{
    let e2 = e.remove(i);
    assert forall|k: KeyView| #[trigger] entries_map(e2).contains_key(k) <==> entries_map(e).remove(e[i].0).contains_key(k) by {
        if entries_map(e2).contains_key(k) {
            lemma_entries_map_dom(e2, k);
            let j = choose|j: int| 0 <= j < e2.len() && e2[j].0 == k;
            let jj = if j < i { j } else { j + 1 };
            lemma_entries_map_lookup(e, jj);
        }
        if entries_map(e).remove(e[i].0).contains_key(k) {
            lemma_entries_map_dom(e, k);
            let j = choose|j: int| 0 <= j < e.len() && e[j].0 == k;
            let jj = if j < i { j } else { j - 1 };
            lemma_entries_map_lookup(e2, jj);
        }
    }
    assert forall|k: KeyView| #[trigger] entries_map(e2).contains_key(k) implies entries_map(e2)[k] == entries_map(e).remove(e[i].0)[k] by {
        lemma_entries_map_dom(e2, k);
        let j = choose|j: int| 0 <= j < e2.len() && e2[j].0 == k;
        let jj = if j < i { j } else { j + 1 };
        lemma_entries_map_lookup(e2, j);
        lemma_entries_map_lookup(e, jj);
    }
}

impl SequenceMap {
    pub closed spec fn view(&self) -> Map<KeyView, u64> {
        entries_map(entries_view(self.entries@))
    }

    pub closed spec fn wf(&self) -> bool {
        entries_unique(entries_view(self.entries@))
    }

    /// The empty map.
    pub fn new() -> (r: Self)
        ensures
            r.wf(),
            r.view() == Map::<KeyView, u64>::empty(),
    {
        let r = SequenceMap { entries: Vec::new() };
        assert(entries_view(r.entries@) =~= Seq::<(KeyView, u64)>::empty());
        r
    }

    fn find(&self, key: &AggregateKey) -> (r: Option<usize>)
        requires
            self.wf(),
        ensures
            match r {
                Some(i) => i < self.entries@.len() && key_view(self.entries@[i as int].0) == key_view(*key),
                None => forall|i: int| 0 <= i < self.entries@.len() ==> key_view(self.entries@[i].0) != key_view(*key),
            },
    {
        let n = self.entries.len();
        let mut i: usize = 0;
        while i < n
            invariant
                n == self.entries@.len(),
                i <= n,
                forall|j: int| 0 <= j < i ==> key_view(self.entries@[j].0) != key_view(*key),
            decreases n - i,
        {
            if self.entries[i].0.same(key) {
                return Some(i);
            }
            i = i + 1;
        }
        None
    }

    /// The number recorded for `key`.
    pub fn get(&self, key: &AggregateKey) -> (r: Option<u64>)
        requires
            self.wf(),
        ensures
            r == (if self.view().contains_key(key_view(*key)) { Some(self.view()[key_view(*key)]) } else { None }),
    {
        match self.find(key) {
            Some(i) => {
                proof {
                    lemma_entries_map_lookup(entries_view(self.entries@), i as int);
                }
                Some(self.entries[i].1)
            },
            None => {
                proof {
                    lemma_entries_map_absent(entries_view(self.entries@), key_view(*key));
                }
                None
            },
        }
    }

    /// Record `value` for `key`, replacing any earlier number.
    pub fn insert(&mut self, key: &AggregateKey, value: u64)
        requires
            old(self).wf(),
        ensures
            final(self).wf(),
            final(self).view() == old(self).view().insert(key_view(*key), value),
    {
        match self.find(key) {
            Some(i) => {
                let k = self.entries[i].0.duplicate();
                let ghost e = entries_view(self.entries@);
                self.entries.set(i, (k, value));
                proof {
                    lemma_entries_map_update(e, i as int, value);
                    assert(entries_view(self.entries@) =~= e.update(i as int, (e[i as int].0, value)));
                }
            },
            None => {
                let ghost e = entries_view(self.entries@);
                proof {
                    lemma_entries_map_absent(e, key_view(*key));
                    lemma_entries_map_push(e, key_view(*key), value);
                }
                self.entries.push((key.duplicate(), value));
                assert(entries_view(self.entries@) =~= e.push((key_view(*key), value)));
            },
        }
    }

    /// Forget `key`.
    pub fn remove(&mut self, key: &AggregateKey)
        requires
            old(self).wf(),
        ensures
            final(self).wf(),
            final(self).view() == old(self).view().remove(key_view(*key)),
    {
        match self.find(key) {
            Some(i) => {
                let ghost e = entries_view(self.entries@);
                self.entries.remove(i);
                proof {
                    lemma_entries_map_remove(e, i as int);
                    assert(entries_view(self.entries@) =~= e.remove(i as int));
                }
            },
            None => {
                proof {
                    lemma_entries_map_absent(entries_view(self.entries@), key_view(*key));
                    assert(old(self).view().remove(key_view(*key)) =~= old(self).view());
                }
            },
        }
    }
}

/// How many of the first `i` keys equal `k`.
pub open spec fn count_before(ks: Seq<KeyView>, i: int, k: KeyView) -> nat
    decreases i,
{
    if i <= 0 {
        0
    } else {
        count_before(ks, i - 1, k) + (if ks[i - 1] == k { 1nat } else { 0nat })
    }
}

/// The sequence an aggregate continues from: the cached last sequence, or
/// the stored maximum when the aggregate is not cached.
pub open spec fn base_of(cache: Map<KeyView, u64>, stored: Map<KeyView, u64>, k: KeyView) -> int {
    if cache.contains_key(k) { cache[k] as int } else { stored[k] as int }
}

/// The sequence stamped on envelope `i` of a batch.
pub open spec fn stamped(cache: Map<KeyView, u64>, stored: Map<KeyView, u64>, ks: Seq<KeyView>, i: int) -> int {
    base_of(cache, stored, ks[i]) + count_before(ks, i, ks[i]) + 1
}

/// Every aggregate of the batch has a number to continue from, and the
/// batch cannot push any aggregate past `u64::MAX`.
pub open spec fn stampable(cache: Map<KeyView, u64>, stored: Map<KeyView, u64>, ks: Seq<KeyView>) -> bool {
    forall|i: int| 0 <= i < ks.len() ==> {
        &&& (cache.contains_key(ks[i]) || stored.contains_key(ks[i]))
        &&& base_of(cache, stored, ks[i]) + ks.len() < u64::MAX
    }
}

/// The outcome of stamping a batch: one sequence per envelope, and the last
/// sequence of each aggregate touched, to be promoted into the cache once
/// the batch commits.
#[derive(Debug)]
pub struct StampedBatch {
    pub sequences: Vec<u64>,
    pub batch_max: SequenceMap,
}

proof fn lemma_count_before_le(ks: Seq<KeyView>, i: int, k: KeyView)
    requires
        0 <= i <= ks.len(),
    ensures
        count_before(ks, i, k) <= i,
    decreases i,
{
    if i > 0 {
        lemma_count_before_le(ks, i - 1, k);
    }
}

proof fn lemma_count_before_zero(ks: Seq<KeyView>, i: int, k: KeyView)
    requires
        0 <= i <= ks.len(),
        forall|j: int| 0 <= j < i ==> ks[j] != k,
    ensures
        count_before(ks, i, k) == 0,
    decreases i,
{
    if i > 0 {
        lemma_count_before_zero(ks, i - 1, k);
    }
}

proof fn lemma_count_before_pos(ks: Seq<KeyView>, i: int, j: int, k: KeyView)
    requires
        0 <= j < i <= ks.len(),
        ks[j] == k,
    ensures
        count_before(ks, i, k) > 0,
    decreases i,
{
    if j < i - 1 {
        lemma_count_before_pos(ks, i - 1, j, k);
    }
}

/// Stamp a batch whose envelopes belong to the aggregates `keys`, in order.
/// `stored` holds the stored maximum of every aggregate of the batch that
/// `cache` lacks.
pub fn stamp_batch(cache: &SequenceMap, stored: &SequenceMap, keys: &Vec<AggregateKey>) -> (r: StampedBatch)
    requires
        cache.wf(),
        stored.wf(),
        stampable(cache.view(), stored.view(), keys_view(keys@)),
    ensures
        r.batch_max.wf(),
        r.sequences@.len() == keys@.len(),
        forall|i: int| 0 <= i < keys@.len() ==> #[trigger] r.sequences@[i]
            == stamped(cache.view(), stored.view(), keys_view(keys@), i),
        forall|k: KeyView| #[trigger] r.batch_max.view().contains_key(k)
            <==> keys_view(keys@).contains(k),
        forall|k: KeyView| #[trigger] r.batch_max.view().contains_key(k)
            ==> r.batch_max.view()[k] == base_of(cache.view(), stored.view(), k)
                + count_before(keys_view(keys@), keys@.len() as int, k),
{
    let ghost ks = keys_view(keys@);
    let mut sequences: Vec<u64> = Vec::new();
    let mut batch_max = SequenceMap::new();
    let n = keys.len();
    let mut i: usize = 0;
    while i < n
        invariant
            n == keys@.len(),
            ks == keys_view(keys@),
            i <= n,
            cache.wf(),
            stored.wf(),
            batch_max.wf(),
            stampable(cache.view(), stored.view(), ks),
            sequences@.len() == i,
            forall|j: int| 0 <= j < i ==> #[trigger] sequences@[j] == stamped(cache.view(), stored.view(), ks, j),
            forall|k: KeyView| #[trigger] batch_max.view().contains_key(k) <==> ks.take(i as int).contains(k),
            forall|k: KeyView| #[trigger] batch_max.view().contains_key(k)
                ==> batch_max.view()[k] == base_of(cache.view(), stored.view(), k) + count_before(ks, i as int, k),
        decreases n - i,
    {
        let key = &keys[i];
        let ghost kv = ks[i as int];
        assert(key_view(*key) == kv);
        proof {
            lemma_count_before_le(ks, i as int, kv);
        }
        let next: u64 = match batch_max.get(key) {
            Some(m) => {
                assert(ks.take(i as int).contains(kv));
                m + 1
            },
            None => {
                assert(!ks.take(i as int).contains(kv));
                assert forall|j: int| 0 <= j < i implies ks[j] != kv by {
                    assert(ks.take(i as int)[j] == ks[j]);
                }
                proof {
                    lemma_count_before_zero(ks, i as int, kv);
                }
                match cache.get(key) {
                    Some(c) => c + 1,
                    None => {
                        let s = stored.get(key);
                        match s {
                            Some(m) => m + 1,
                            None => {
                                assert(false);
                                0
                            },
                        }
                    },
                }
            },
        };
        assert(next == stamped(cache.view(), stored.view(), ks, i as int));
        batch_max.insert(key, next);
        sequences.push(next);
        proof {
            assert forall|k: KeyView| #[trigger] batch_max.view().contains_key(k) <==> ks.take(i as int + 1).contains(k) by {
                if ks.take(i as int).contains(k) {
                    let j = choose|j: int| 0 <= j < i && ks.take(i as int)[j] == k;
                    assert(ks.take(i as int + 1)[j] == k);
                }
                if ks.take(i as int + 1).contains(k) && k != kv {
                    let j = choose|j: int| 0 <= j < i + 1 && #[trigger] ks.take(i as int + 1)[j] == k;
                    assert(ks.take(i as int)[j] == k);
                }
                assert(ks.take(i as int + 1)[i as int] == kv);
            }
        }
        i = i + 1;
    }
    proof {
        assert(ks.take(n as int) =~= ks);
    }
    StampedBatch { sequences, batch_max }
}

/// Whether `key` occurs in `ks`.
fn contains_key(ks: &Vec<AggregateKey>, key: &AggregateKey) -> (r: bool)
    ensures
        r == keys_view(ks@).contains(key_view(*key)),
        !r ==> forall|a: int| 0 <= a < ks@.len() ==> key_view(ks@[a]) != key_view(*key),
{
    let n = ks.len();
    let mut i: usize = 0;
    while i < n
        invariant
            n == ks@.len(),
            i <= n,
            forall|a: int| 0 <= a < i ==> key_view(ks@[a]) != key_view(*key),
        decreases n - i,
    {
        if ks[i].same(key) {
            assert(keys_view(ks@)[i as int] == key_view(*key));
            return true;
        }
        i = i + 1;
    }
    proof {
        if keys_view(ks@).contains(key_view(*key)) {
            let j = choose|j: int| 0 <= j < keys_view(ks@).len() && keys_view(ks@)[j] == key_view(*key);
            assert(key_view(ks@[j]) == key_view(*key));
        }
    }
    false
}

/// The aggregates of a batch that `cache` lacks, each once: the ones whose
/// stored maximum must be read before stamping.
pub fn uncached_keys(cache: &SequenceMap, keys: &Vec<AggregateKey>) -> (r: Vec<AggregateKey>)
    requires
        cache.wf(),
    ensures
        forall|k: KeyView| keys_view(r@).contains(k)
            <==> (keys_view(keys@).contains(k) && !cache.view().contains_key(k)),
        forall|a: int, b: int| 0 <= a < b < r@.len() ==> key_view(r@[a]) != key_view(r@[b]),
{
    let mut out: Vec<AggregateKey> = Vec::new();
    let n = keys.len();
    let mut i: usize = 0;
    while i < n
        invariant
            n == keys@.len(),
            i <= n,
            cache.wf(),
            forall|k: KeyView| #[trigger] keys_view(out@).contains(k)
                <==> (keys_view(keys@).take(i as int).contains(k) && !cache.view().contains_key(k)),
            forall|a: int, b: int| 0 <= a < b < out@.len() ==> key_view(out@[a]) != key_view(out@[b]),
        decreases n - i,
    {
        let key = &keys[i];
        let ghost kv = key_view(*key);
        let ghost prev = out@;
        assert(forall|k: KeyView| #[trigger] keys_view(prev).contains(k)
            <==> (keys_view(keys@).take(i as int).contains(k) && !cache.view().contains_key(k)));
        let present = contains_key(&out, key);
        if cache.get(key).is_none() && !present {
            let d = key.duplicate();
            out.push(d);
            assert(keys_view(out@) =~= keys_view(prev).push(kv));
        } else {
            assert(keys_view(out@) =~= keys_view(prev));
        }
        proof {
            let ks = keys_view(keys@);
            assert(ks[i as int] == kv);
            assert forall|k: KeyView| #[trigger] keys_view(out@).contains(k)
                <==> (ks.take(i as int + 1).contains(k) && !cache.view().contains_key(k)) by {
                if keys_view(out@).contains(k) {
                    let j = choose|j: int| 0 <= j < out@.len() && keys_view(out@)[j] == k;
                    if j < prev.len() {
                        assert(keys_view(prev)[j] == k);
                        assert(keys_view(prev).contains(k));
                        let m = choose|m: int| 0 <= m < i && ks.take(i as int)[m] == k;
                        assert(ks.take(i as int + 1)[m] == k);
                    } else {
                        assert(ks.take(i as int + 1)[i as int] == k);
                    }
                }
                if ks.take(i as int + 1).contains(k) && !cache.view().contains_key(k) {
                    let m = choose|m: int| 0 <= m < i + 1 && #[trigger] ks.take(i as int + 1)[m] == k;
                    if m < i {
                        assert(ks.take(i as int)[m] == k);
                        assert(ks.take(i as int).contains(k));
                        assert(keys_view(prev).contains(k));
                        let j = choose|j: int| 0 <= j < prev.len() && keys_view(prev)[j] == k;
                        assert(keys_view(out@)[j] == k);
                    } else if present {
                        assert(keys_view(prev).contains(k));
                        let j = choose|j: int| 0 <= j < prev.len() && keys_view(prev)[j] == k;
                        assert(keys_view(out@)[j] == k);
                    } else {
                        assert(keys_view(out@)[out@.len() - 1] == k);
                    }
                }
            }
        }
        i = i + 1;
    }
    proof {
        assert(keys_view(keys@).take(n as int) =~= keys_view(keys@));
    }
    out
}

/// The writer thread's view of sequencing: the last committed sequence of
/// every aggregate it has stamped since start-up or since the aggregate's
/// last prune.
#[derive(Debug)]
pub struct WriterState {
    pub next_sequence: SequenceMap,
}

impl WriterState {
    pub fn new() -> (r: Self)
        ensures
            r.next_sequence.wf(),
            r.next_sequence.view() == Map::<KeyView, u64>::empty(),
    {
        WriterState { next_sequence: SequenceMap::new() }
    }

    /// Settle an append: on commit the batch's last sequences become the
    /// cached ones; on failure the cache is left exactly as it was.
    pub fn finish_append(&mut self, batch: &StampedBatch, committed: bool)
        requires
            old(self).next_sequence.wf(),
            batch.batch_max.wf(),
        ensures
            final(self).next_sequence.wf(),
            committed ==> final(self).next_sequence.view() == old(self).next_sequence.view().union_prefer_right(
                batch.batch_max.view(),
            ),
            !committed ==> final(self).next_sequence.view() == old(self).next_sequence.view(),
    {
        if committed {
            let n = batch.batch_max.entries.len();
            let mut i: usize = 0;
            let ghost start = self.next_sequence.view();
            let ghost bm = entries_view(batch.batch_max.entries@);
            while i < n
                invariant
                    n == batch.batch_max.entries@.len(),
                    bm == entries_view(batch.batch_max.entries@),
                    entries_unique(bm),
                    i <= n,
                    self.next_sequence.wf(),
                    self.next_sequence.view() == start.union_prefer_right(entries_map(bm.take(i as int))),
                decreases n - i,
            {
                let k = &batch.batch_max.entries[i].0;
                let v = batch.batch_max.entries[i].1;
                self.next_sequence.insert(k, v);
                proof {
                    assert(bm.take(i as int + 1).drop_last() =~= bm.take(i as int));
                    assert(bm.take(i as int + 1).last() == (key_view(*k), v));
                    assert(self.next_sequence.view() =~= start.union_prefer_right(entries_map(bm.take(i as int + 1))));
                }
                i = i + 1;
            }
            proof {
                assert(bm.take(n as int) =~= bm);
            }
        }
    }

    /// Settle a prune of `key`: when the delete succeeded the aggregate is
    /// dropped from the cache, so the next append re-reads the stored maximum.
    pub fn finish_prune(&mut self, key: &AggregateKey, succeeded: bool)
        requires
            old(self).next_sequence.wf(),
        ensures
            final(self).next_sequence.wf(),
            succeeded ==> final(self).next_sequence.view() == old(self).next_sequence.view().remove(key_view(*key)),
            !succeeded ==> final(self).next_sequence.view() == old(self).next_sequence.view(),
    {
        if succeeded {
            self.next_sequence.remove(key);
        }
    }
}

/// Within a batch, the envelopes of one aggregate get consecutive sequence
/// numbers, starting right after the number the aggregate continues from.
pub proof fn lemma_batch_sequences_consecutive(
    cache: Map<KeyView, u64>,
    stored: Map<KeyView, u64>,
    ks: Seq<KeyView>,
    i: int,
    j: int,
)
    requires
        0 <= i < j < ks.len(),
        ks[i] == ks[j],
        forall|m: int| i < m < j ==> ks[m] != ks[i],
    ensures
        stamped(cache, stored, ks, j) == stamped(cache, stored, ks, i) + 1,
{
    lemma_count_step(ks, i, j, ks[i]);
}

proof fn lemma_count_step(ks: Seq<KeyView>, i: int, j: int, k: KeyView)
    requires
        0 <= i < j <= ks.len(),
        ks[i] == k,
        forall|m: int| i < m < j ==> ks[m] != k,
    ensures
        count_before(ks, j, k) == count_before(ks, i, k) + 1,
    decreases j - i,
{
    if j > i + 1 {
        lemma_count_step(ks, i, j - 1, k);
    }
}

/// The first envelope of an aggregate in a batch continues right after the
/// cached (or stored) last sequence.
pub proof fn lemma_first_in_batch_continues(
    cache: Map<KeyView, u64>,
    stored: Map<KeyView, u64>,
    ks: Seq<KeyView>,
    i: int,
)
    requires
        0 <= i < ks.len(),
        forall|m: int| 0 <= m < i ==> ks[m] != ks[i],
    ensures
        stamped(cache, stored, ks, i) == base_of(cache, stored, ks[i]) + 1,
{
    lemma_count_before_zero(ks, i, ks[i]);
}

/// Across appends there are no gaps and no repeats: once a stamped batch
/// commits (its last sequences merged into the cache, as `stamp_batch` and
/// `finish_append` state), the cache holds, for each aggregate of the batch,
/// the sequence stamped on its last envelope, and the next batch stamps that
/// aggregate's first envelope with the number right after it.
pub proof fn lemma_committed_batches_continue(
    cache: Map<KeyView, u64>,
    stored: Map<KeyView, u64>,
    ks: Seq<KeyView>,
    batch_max: Map<KeyView, u64>,
    stored2: Map<KeyView, u64>,
    ks2: Seq<KeyView>,
    i: int,
    j: int,
)
    requires
        0 <= i < ks.len(),
        forall|x: int| i < x < ks.len() ==> ks[x] != ks[i],
        forall|k: KeyView| #[trigger] batch_max.contains_key(k) <==> ks.contains(k),
        forall|k: KeyView| #[trigger] batch_max.contains_key(k)
            ==> batch_max[k] == base_of(cache, stored, k) + count_before(ks, ks.len() as int, k),
        0 <= j < ks2.len(),
        ks2[j] == ks[i],
        forall|x: int| 0 <= x < j ==> ks2[x] != ks2[j],
    ensures
        cache.union_prefer_right(batch_max)[ks[i]] == stamped(cache, stored, ks, i),
        stamped(cache.union_prefer_right(batch_max), stored2, ks2, j) == stamped(cache, stored, ks, i) + 1,
{
    let k = ks[i];
    assert(ks.contains(k));
    assert(batch_max.contains_key(k));
    lemma_count_step(ks, i, ks.len() as int, k);
    lemma_count_before_zero(ks2, j, k);
    assert(cache.union_prefer_right(batch_max).contains_key(k));
    assert(cache.union_prefer_right(batch_max)[k] == batch_max[k]);
}

/// The stored maximum sequence of an aggregate: what
/// `SELECT COALESCE(MAX(sequence), 0)` reads, with `db` holding the
/// aggregates that have events.
pub open spec fn stored_max(db: Map<KeyView, u64>, k: KeyView) -> int {
    if db.contains_key(k) { db[k] as int } else { 0 }
}

/// The writer's cache agrees with the store: every cached aggregate's
/// sequence is its stored maximum.
pub open spec fn cache_agrees(cache: Map<KeyView, u64>, db: Map<KeyView, u64>) -> bool {
    forall|k: KeyView| #[trigger] cache.contains_key(k) ==> cache[k] as int == stored_max(db, k)
}

/// Gapless sequencing as a whole. While the cache agrees with the store and
/// the maxima read for the uncached aggregates of a batch are the stored
/// ones, each aggregate's envelopes are stamped, in batch order, with its
/// stored maximum plus 1, 2, ...; and once the batch commits, the cache
/// (merged with the batch's last sequences, as `finish_append` does) agrees
/// with the store again, whose maximum for each aggregate of the batch is
/// now that batch's last sequence. A batch that fails leaves both as they
/// were, and a prune drops the aggregate from the cache, so agreement holds
/// at every step.
pub proof fn lemma_writer_cache_agrees_with_store(
    cache: Map<KeyView, u64>,
    db: Map<KeyView, u64>,
    stored: Map<KeyView, u64>,
    ks: Seq<KeyView>,
    batch_max: Map<KeyView, u64>,
)
    requires
        cache_agrees(cache, db),
        forall|i: int| 0 <= i < ks.len() && !cache.contains_key(ks[i])
            ==> stored.contains_key(ks[i]) && stored[ks[i]] as int == stored_max(db, ks[i]),
        forall|k: KeyView| #[trigger] batch_max.contains_key(k) <==> ks.contains(k),
        forall|k: KeyView| #[trigger] batch_max.contains_key(k)
            ==> batch_max[k] == base_of(cache, stored, k) + count_before(ks, ks.len() as int, k),
    ensures
        forall|i: int| 0 <= i < ks.len() ==> #[trigger] stamped(cache, stored, ks, i)
            == stored_max(db, ks[i]) + count_before(ks, i, ks[i]) + 1,
        forall|k: KeyView| #[trigger] batch_max.contains_key(k)
            ==> batch_max[k] > stored_max(db, k),
        cache_agrees(cache.union_prefer_right(batch_max), db.union_prefer_right(batch_max)),
{
    assert forall|k: KeyView| #[trigger] batch_max.contains_key(k) implies batch_max[k] > stored_max(db, k) by {
        let i = choose|i: int| 0 <= i < ks.len() && ks[i] == k;
        lemma_count_before_pos(ks, ks.len() as int, i, k);
    }
    let c2 = cache.union_prefer_right(batch_max);
    let d2 = db.union_prefer_right(batch_max);
    assert forall|k: KeyView| #[trigger] c2.contains_key(k) implies c2[k] as int == stored_max(d2, k) by {
        if batch_max.contains_key(k) {
            assert(d2.contains_key(k));
        } else {
            assert(cache.contains_key(k));
        }
    }
}

/// A prune keeps the cache agreeing with the store: whatever the delete did
/// to the pruned aggregate's events, the aggregate leaves the cache, and no
/// other aggregate changes.
pub proof fn lemma_prune_keeps_cache_agreeing(
    cache: Map<KeyView, u64>,
    db: Map<KeyView, u64>,
    db2: Map<KeyView, u64>,
    k: KeyView,
)
    requires
        cache_agrees(cache, db),
        forall|j: KeyView| j != k ==> stored_max(db2, j) == stored_max(db, j),
    ensures
        cache_agrees(cache.remove(k), db2),
{
    assert forall|j: KeyView| #[trigger] cache.remove(k).contains_key(j)
        implies cache.remove(k)[j] as int == stored_max(db2, j) by {
        assert(cache.contains_key(j));
        assert(stored_max(db2, j) == stored_max(db, j));
    }
}

} // verus!
