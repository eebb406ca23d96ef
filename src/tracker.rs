use vstd::prelude::*;
use crate::store::KeyedStore;

verus! {

/// `c` raised by one, held at the largest `u64`.
pub open spec fn bump(c: u64) -> u64 {
    if c < u64::MAX {
        (c + 1) as u64
    } else {
        c
    }
}

/// How often each outcome of one property has been observed.
#[derive(Clone, Copy, Debug, PartialEq, Eq, Structural)]
pub struct TrackingInfo {
    pub pass_count: u64,
    pub fail_count: u64,
}

/// The entry of a property that has not been observed yet.
pub open spec fn untouched() -> TrackingInfo {
    TrackingInfo { pass_count: 0, fail_count: 0 }
}

impl TrackingInfo {
    /// The entry after one more observation of the outcome `condition`.
    pub open spec fn recorded(self, condition: bool) -> TrackingInfo {
        if condition {
            TrackingInfo { pass_count: bump(self.pass_count), fail_count: self.fail_count }
        } else {
            TrackingInfo { pass_count: self.pass_count, fail_count: bump(self.fail_count) }
        }
    }

    /// Whether the outcome `condition` has never been observed before.
    pub open spec fn is_first(self, condition: bool) -> bool {
        if condition {
            self.pass_count == 0
        } else {
            self.fail_count == 0
        }
    }

    pub fn new() -> (r: TrackingInfo)
        ensures
            r == untouched(),
    {
        TrackingInfo { pass_count: 0, fail_count: 0 }
    }

    /// Counts one observation of `condition` and reports whether it is the first of its polarity.
    pub fn record(&mut self, condition: bool) -> (first: bool)
        ensures
            *final(self) == old(self).recorded(condition),
            first == old(self).is_first(condition),
    {
        if condition {
            let first = self.pass_count == 0;
            if self.pass_count < u64::MAX {
                self.pass_count = self.pass_count + 1;
            }
            first
        } else {
            let first = self.fail_count == 0;
            if self.fail_count < u64::MAX {
                self.fail_count = self.fail_count + 1;
            }
            first
        }
    }
}

impl Default for TrackingInfo {
    fn default() -> (r: TrackingInfo)
        ensures
            r == untouched(),
    {
        TrackingInfo::new()
    }
}

/// The tracking entries of all properties observed so far, keyed by identifier.
pub struct AssertTracker {
    entries: KeyedStore<TrackingInfo>,
}

impl View for AssertTracker {
    type V = Map<Seq<char>, TrackingInfo>;

    closed spec fn view(&self) -> Map<Seq<char>, TrackingInfo> {
        self.entries@
    }
}

impl AssertTracker {
    pub closed spec fn wf(&self) -> bool {
        self.entries.wf()
    }

    /// The entry of the property `id`; one that was never observed has zero counts.
    pub open spec fn info_of(&self, id: Seq<char>) -> TrackingInfo {
        if self@.contains_key(id) {
            self@[id]
        } else {
            untouched()
        }
    }

    pub fn new() -> (r: AssertTracker)
        ensures
            r.wf(),
            r@ == Map::<Seq<char>, TrackingInfo>::empty(),
    {
        AssertTracker { entries: KeyedStore::new() }
    }

    /// The entry of the property `id`.
    pub fn get(&self, id: &String) -> (r: TrackingInfo)
        requires
            self.wf(),
        ensures
            r == self.info_of(id@),
    {
        match self.entries.get(id) {
            Some(info) => info,
            None => TrackingInfo::new(),
        }
    }

    /// Counts one observation of `condition` for the property `id`, creating its entry where
    /// needed, and reports whether it is the first observation of that polarity.
    pub fn record_outcome(&mut self, id: &String, condition: bool) -> (should_emit: bool)
        requires
            old(self).wf(),
        ensures
            final(self).wf(),
            final(self)@ == old(self)@.insert(id@, old(self).info_of(id@).recorded(condition)),
            should_emit == old(self).info_of(id@).is_first(condition),
    {
        let mut info = self.get(id);
        let first = info.record(condition);
        self.entries.set(id, info);
        first
    }
}

/// The entry after recording the outcomes `conds` in order, starting from `info`.
pub open spec fn info_after(info: TrackingInfo, conds: Seq<bool>) -> TrackingInfo
    decreases conds.len(),
{
    if conds.len() == 0 {
        info
    } else {
        info_after(info, conds.drop_last()).recorded(conds.last())
    }
}

/// How many of the outcomes `conds`, recorded in order from `info`, are first of polarity `v`
/// and so are forwarded.
pub open spec fn emitted_count(info: TrackingInfo, conds: Seq<bool>, v: bool) -> nat
    decreases conds.len(),
{
    if conds.len() == 0 {
        0
    } else {
        emitted_count(info, conds.drop_last(), v) + if conds.last() == v && info_after(
            info,
            conds.drop_last(),
        ).is_first(v) {
            1nat
        } else {
            0nat
        }
    }
}

/// How many of the outcomes `conds` equal `v`.
pub open spec fn occurrences(conds: Seq<bool>, v: bool) -> nat
    decreases conds.len(),
{
    if conds.len() == 0 {
        0
    } else {
        occurrences(conds.drop_last(), v) + if conds.last() == v {
            1nat
        } else {
            0nat
        }
    }
}

/// The least of `a` and `b`.
pub open spec fn min_nat(a: nat, b: nat) -> nat {
    if a < b {
        a
    } else {
        b
    }
}

proof fn lemma_counts_after(conds: Seq<bool>)
    ensures
        info_after(untouched(), conds).pass_count == min_nat(
            occurrences(conds, true),
            u64::MAX as nat,
        ),
        info_after(untouched(), conds).fail_count == min_nat(
            occurrences(conds, false),
            u64::MAX as nat,
        ),
    decreases conds.len(),
{
    if conds.len() > 0 {
        lemma_counts_after(conds.drop_last());
    }
}

/// Whatever the order of the outcomes, an entry that starts unobserved forwards exactly one
/// record of each polarity that occurs among them and none of a polarity that does not, and
/// counts each polarity exactly, up to the largest `u64`.
pub proof fn lemma_first_outcome_dedup(conds: Seq<bool>)
    ensures
        emitted_count(untouched(), conds, true) == min_nat(occurrences(conds, true), 1),
        emitted_count(untouched(), conds, false) == min_nat(occurrences(conds, false), 1),
        info_after(untouched(), conds).pass_count == min_nat(
            occurrences(conds, true),
            u64::MAX as nat,
        ),
        info_after(untouched(), conds).fail_count == min_nat(
            occurrences(conds, false),
            u64::MAX as nat,
        ),
    decreases conds.len(),
{
    lemma_counts_after(conds);
    if conds.len() > 0 {
        lemma_first_outcome_dedup(conds.drop_last());
    }
}

/// `n` passing observations of a property that starts unobserved, recorded one after another in
/// whatever order their callers were serialized, lose no update: its pass count ends at exactly
/// `n` where `n` fits a `u64`, and exactly one of them is forwarded where `n` is positive.
pub proof fn lemma_passes_counted(n: nat)
    requires
        n <= u64::MAX,
    ensures
        info_after(untouched(), Seq::new(n, |k: int| true)).pass_count == n,
        emitted_count(untouched(), Seq::new(n, |k: int| true), true) == min_nat(n, 1),
{
    let s = Seq::new(n, |k: int| true);
    assert(occurrences(s, true) == n) by {
        lemma_all_true_occurrences(n);
    }
    lemma_first_outcome_dedup(s);
}

proof fn lemma_all_true_occurrences(n: nat)
    ensures
        occurrences(Seq::new(n, |k: int| true), true) == n,
    decreases n,
{
    if n > 0 {
        lemma_all_true_occurrences((n - 1) as nat);
        assert(Seq::new(n, |k: int| true).drop_last() =~= Seq::new((n - 1) as nat, |k: int| true));
    }
}

/// One more call of `record_outcome` extends a run: where an identifier's entry is the one
/// reached by recording `conds` from an unobserved entry, recording `c` reaches the entry of
/// `conds` followed by `c`, and the call forwards exactly when the extended run counts one more
/// forwarded record of polarity `c`.
pub proof fn lemma_record_extends_run(conds: Seq<bool>, c: bool)
    ensures
        info_after(untouched(), conds.push(c)) == info_after(untouched(), conds).recorded(c),
        emitted_count(untouched(), conds.push(c), c) == emitted_count(untouched(), conds, c) + if info_after(
            untouched(),
            conds,
        ).is_first(c) {
            1nat
        } else {
            0nat
        },
        emitted_count(untouched(), conds.push(c), !c) == emitted_count(untouched(), conds, !c),
{
    assert(conds.push(c).drop_last() =~= conds);
}

} // verus!
