use vstd::prelude::*;
use crate::assertion::{
    AssertionCatalogInfo, AssertionInfo, GuidanceCatalogInfo, GuidanceInfo,
    is_assertion_registration, is_guidance_registration,
};
use crate::guidance::{lets_through, moved_mark, Distance, SiteGuards};
use crate::tracker::{untouched, AssertTracker, TrackingInfo};

verus! {

/// All sites known to the process, gathered during startup.
pub struct Catalog {
    pub assertions: Vec<AssertionCatalogInfo>,
    pub guidance: Vec<GuidanceCatalogInfo>,
}

impl Catalog {
    pub fn new() -> (r: Catalog)
        ensures
            r.assertions@.len() == 0,
            r.guidance@.len() == 0,
    {
        Catalog { assertions: Vec::new(), guidance: Vec::new() }
    }

    /// Appends the descriptor of an assertion site.
    pub fn add_assertion(&mut self, site: AssertionCatalogInfo)
        ensures
            final(self).assertions@ == old(self).assertions@.push(site),
            final(self).guidance@ == old(self).guidance@,
    {
        self.assertions.push(site);
    }

    /// Appends the descriptor of a guidance site.
    pub fn add_guidance(&mut self, site: GuidanceCatalogInfo)
        ensures
            final(self).assertions@ == old(self).assertions@,
            final(self).guidance@ == old(self).guidance@.push(site),
    {
        self.guidance.push(site);
    }
}

/// A record to forward to the output sink.
#[derive(Debug)]
pub enum Record {
    Assertion(AssertionInfo),
    Guidance(GuidanceInfo),
}

/// Whether `out` announces every site of `c` once, in catalog order: the assertion sites first,
/// then the guidance sites.
pub open spec fn announces(out: Seq<Record>, c: Catalog) -> bool {
    let na = c.assertions@.len();
    &&& out.len() == na + c.guidance@.len()
    &&& forall|i: int|
        0 <= i < na ==> match #[trigger] out[i] {
            Record::Assertion(r) => is_assertion_registration(r, c.assertions@[i]),
            Record::Guidance(_) => false,
        }
    &&& forall|i: int|
        0 <= i < c.guidance@.len() ==> match #[trigger] out[na + i] {
            Record::Assertion(_) => false,
            Record::Guidance(r) => is_guidance_registration(r, c.guidance@[i]),
        }
}

/// The registration records that a registrar in the state `registered` still owes for `c`:
/// all of them before the walk, none after it.
pub open spec fn owes(out: Seq<Record>, c: Catalog, registered: bool) -> bool {
    if registered {
        out.len() == 0
    } else {
        announces(out, c)
    }
}

/// Decides which evaluations reach the output sink, and announces the catalog once, no later
/// than the first record of a real occurrence.
pub struct EmissionGate {
    catalog: Catalog,
    registered: bool,
    tracker: AssertTracker,
    max_guards: SiteGuards<true>,
    min_guards: SiteGuards<false>,
}

impl EmissionGate {
    pub closed spec fn wf(&self) -> bool {
        &&& self.tracker.wf()
        &&& self.max_guards.wf()
        &&& self.min_guards.wf()
    }

    /// The marks of the numeric guidance sites that maximize (`max`) or minimize, by identifier.
    pub closed spec fn marks(&self, max: bool) -> Map<Seq<char>, int> {
        if max {
            self.max_guards@
        } else {
            self.min_guards@
        }
    }

    /// The sites to announce.
    pub closed spec fn sites(&self) -> Catalog {
        self.catalog
    }

    /// Whether the catalog has been announced.
    pub closed spec fn registered(&self) -> bool {
        self.registered
    }

    /// The tracking entries, by identifier.
    pub closed spec fn entries(&self) -> Map<Seq<char>, TrackingInfo> {
        self.tracker@
    }

    /// The entry of the property `id`; one that was never observed has zero counts.
    pub open spec fn info_of(&self, id: Seq<char>) -> TrackingInfo {
        if self.entries().contains_key(id) {
            self.entries()[id]
        } else {
            untouched()
        }
    }

    pub fn new(catalog: Catalog) -> (g: EmissionGate)
        ensures
            g.wf(),
            g.sites() == catalog,
            !g.registered(),
            g.entries() == Map::<Seq<char>, TrackingInfo>::empty(),
            g.marks(true) == Map::<Seq<char>, int>::empty(),
            g.marks(false) == Map::<Seq<char>, int>::empty(),
    {
        EmissionGate {
            catalog,
            registered: false,
            tracker: AssertTracker::new(),
            max_guards: SiteGuards::new(),
            min_guards: SiteGuards::new(),
        }
    }

    /// The tracking entry of the property `id`.
    pub fn tracking_info(&self, id: &String) -> (r: TrackingInfo)
        requires
            self.wf(),
        ensures
            r == self.info_of(id@),
    {
        self.tracker.get(id)
    }

    fn registrations(&self) -> (out: Vec<Record>)
        ensures
            announces(out@, self.catalog),
    {
        let mut out: Vec<Record> = Vec::new();
        let na = self.catalog.assertions.len();
        let mut i: usize = 0;
        while i < na
            invariant
                na == self.catalog.assertions@.len(),
                i <= na,
                out@.len() == i,
                forall|k: int|
                    0 <= k < i ==> match #[trigger] out@[k] {
                        Record::Assertion(r) => is_assertion_registration(
                            r,
                            self.catalog.assertions@[k],
                        ),
                        Record::Guidance(_) => false,
                    },
            decreases na - i,
        {
            out.push(Record::Assertion(AssertionInfo::registration(&self.catalog.assertions[i])));
            i = i + 1;
        }
        let ng = self.catalog.guidance.len();
        let mut j: usize = 0;
        while j < ng
            invariant
                na == self.catalog.assertions@.len(),
                ng == self.catalog.guidance@.len(),
                j <= ng,
                out@.len() == na + j,
                forall|k: int|
                    0 <= k < na ==> match #[trigger] out@[k] {
                        Record::Assertion(r) => is_assertion_registration(
                            r,
                            self.catalog.assertions@[k],
                        ),
                        Record::Guidance(_) => false,
                    },
                forall|k: int|
                    0 <= k < j ==> match #[trigger] out@[na + k] {
                        Record::Assertion(_) => false,
                        Record::Guidance(r) => is_guidance_registration(
                            r,
                            self.catalog.guidance@[k],
                        ),
                    },
            decreases ng - j,
        {
            out.push(Record::Guidance(GuidanceInfo::registration(&self.catalog.guidance[j])));
            j = j + 1;
        }
        out
    }

    /// Announces the catalog if it has not been announced yet; returns the registration
    /// records, which are empty on every call after the first.
    pub fn initialize(&mut self) -> (out: Vec<Record>)
        requires
            old(self).wf(),
        ensures
            final(self).wf(),
            owes(out@, old(self).sites(), old(self).registered()),
            final(self).registered(),
            final(self).sites() == old(self).sites(),
            final(self).entries() == old(self).entries(),
            final(self).marks(true) == old(self).marks(true),
            final(self).marks(false) == old(self).marks(false),
    {
        if self.registered {
            Vec::new()
        } else {
            let out = self.registrations();
            self.registered = true;
            out
        }
    }

    /// Routes one assertion evaluation: a registration evaluation is always forwarded; a real
    /// one is counted and forwarded only where it is the first of its polarity for its
    /// identifier, preceded by the catalog's announcement where that is still owed.
    pub fn evaluate(&mut self, info: AssertionInfo) -> (out: Vec<Record>)
        requires
            old(self).wf(),
        ensures
            final(self).wf(),
            final(self).sites() == old(self).sites(),
            final(self).marks(true) == old(self).marks(true),
            final(self).marks(false) == old(self).marks(false),
            !info.hit ==> out@ == seq![Record::Assertion(info)],
            !info.hit ==> final(self).entries() == old(self).entries(),
            !info.hit ==> final(self).registered() == old(self).registered(),
            info.hit ==> final(self).entries() == old(self).entries().insert(
                info.id@,
                old(self).info_of(info.id@).recorded(info.condition),
            ),
            info.hit && old(self).info_of(info.id@).is_first(info.condition) ==> {
                &&& out@.len() > 0
                &&& owes(out@.drop_last(), old(self).sites(), old(self).registered())
                &&& out@.last() == Record::Assertion(info)
                &&& final(self).registered()
            },
            info.hit && !old(self).info_of(info.id@).is_first(info.condition) ==> {
                &&& out@.len() == 0
                &&& final(self).registered() == old(self).registered()
            },
    {
        if !info.hit {
            return vec![Record::Assertion(info)];
        }
        let emit = self.tracker.record_outcome(&info.id, info.condition);
        if emit {
            let mut out = self.initialize();
            let ghost before = out@;
            out.push(Record::Assertion(info));
            assert(out@.drop_last() =~= before);
            out
        } else {
            Vec::new()
        }
    }

    /// Forwards one guidance record, preceded by the catalog's announcement where a real
    /// observation finds it still owed.
    pub fn guidance(&mut self, info: GuidanceInfo) -> (out: Vec<Record>)
        requires
            old(self).wf(),
        ensures
            final(self).wf(),
            final(self).sites() == old(self).sites(),
            final(self).entries() == old(self).entries(),
            final(self).marks(true) == old(self).marks(true),
            final(self).marks(false) == old(self).marks(false),
            !info.hit ==> out@ == seq![Record::Guidance(info)],
            !info.hit ==> final(self).registered() == old(self).registered(),
            info.hit ==> {
                &&& out@.len() > 0
                &&& owes(out@.drop_last(), old(self).sites(), old(self).registered())
                &&& out@.last() == Record::Guidance(info)
                &&& final(self).registered()
            },
    {
        if !info.hit {
            return vec![Record::Guidance(info)];
        }
        let mut out = self.initialize();
        let ghost before = out@;
        out.push(Record::Guidance(info));
        assert(out@.drop_last() =~= before);
        out
    }

    /// Routes one numeric guidance observation of the site of `info`, whose compared values lie
    /// `diff` apart: it is forwarded, as `guidance` forwards it, where `diff` advances or ties
    /// the watermark of that site in its direction, and dropped otherwise; a site's first
    /// observation always advances its watermark.
    pub fn numeric_guidance(&mut self, info: GuidanceInfo, diff: Distance) -> (out: Vec<Record>)
        requires
            old(self).wf(),
        ensures
            final(self).wf(),
            final(self).sites() == old(self).sites(),
            final(self).entries() == old(self).entries(),
            final(self).marks(!info.maximize) == old(self).marks(!info.maximize),
            ({
                let marks = old(self).marks(info.maximize);
                let id = info.id@;
                let v = diff.value();
                let pass = !marks.contains_key(id) || lets_through(info.maximize, marks[id], v);
                &&& final(self).marks(info.maximize) == marks.insert(
                    id,
                    if marks.contains_key(id) {
                        moved_mark(info.maximize, marks[id], v)
                    } else {
                        v
                    },
                )
                &&& !pass ==> out@.len() == 0 && final(self).registered() == old(self).registered()
                &&& pass && !info.hit ==> out@ == seq![Record::Guidance(info)]
                    && final(self).registered() == old(self).registered()
                &&& pass && info.hit ==> {
                    &&& out@.len() > 0
                    &&& owes(out@.drop_last(), old(self).sites(), old(self).registered())
                    &&& out@.last() == Record::Guidance(info)
                    &&& final(self).registered()
                }
            }),
    {
        let pass = if info.maximize {
            self.max_guards.should_emit(&info.id, diff)
        } else {
            self.min_guards.should_emit(&info.id, diff)
        };
        if pass {
            self.guidance(info)
        } else {
            Vec::new()
        }
    }
}

/// The registration records that a gate hands out all come from its one announcement: a gate
/// that has announced owes nothing more, and its announcement holds, for each site of the
/// catalog and at that site's place, exactly one record of that site's identifier, not hit and
/// with condition false.
pub proof fn lemma_registration_once(c: Catalog, first: Seq<Record>, later: Seq<Record>)
    requires
        owes(first, c, false),
        owes(later, c, true),
    ensures
        later.len() == 0,
        first.len() == c.assertions@.len() + c.guidance@.len(),
        forall|i: int|
            0 <= i < c.assertions@.len() ==> match #[trigger] first[i] {
                Record::Assertion(r) => !r.hit && !r.condition && r.id@ == c.assertions@[i].id@,
                Record::Guidance(_) => false,
            },
        forall|i: int|
            0 <= i < c.guidance@.len() ==> match #[trigger] first[c.assertions@.len() + i] {
                Record::Assertion(_) => false,
                Record::Guidance(r) => !r.hit && r.id@ == c.guidance@[i].id@,
            },
{
}

} // verus!
