use vstd::prelude::*;
use crate::store::KeyedStore;

verus! {

/// A signed distance between two numbers, kept exactly as a sign and a magnitude.
///
/// A zero distance may carry either sign; both stand for the value zero.
#[derive(Clone, Copy, Debug, PartialEq, Eq)]
pub struct Distance {
    pub negative: bool,
    pub magnitude: u128,
}

impl Distance {
    /// The signed value that this distance stands for.
    pub open spec fn value(self) -> int {
        if self.negative {
            -(self.magnitude as int)
        } else {
            self.magnitude as int
        }
    }

    /// Whether `self` is at most `other`, comparing the signed values.
    pub fn is_at_most(&self, other: &Distance) -> (r: bool)
        ensures
            r == (self.value() <= other.value()),
    {
        match (self.negative, other.negative) {
            (false, false) => self.magnitude <= other.magnitude,
            (true, true) => other.magnitude <= self.magnitude,
            (true, false) => true,
            (false, true) => self.magnitude == 0 && other.magnitude == 0,
        }
    }
}

/// The signed distance `self - other` of two numbers of one type, computed without overflow.
pub trait Diff: Sized {
    /// The number that a value of the type stands for.
    spec fn number(&self) -> int;

    fn diff(&self, other: Self) -> (r: Distance)
        ensures
            r.value() == self.number() - other.number(),
            r.negative ==> r.magnitude > 0,
    ;
}

impl Diff for i8 {
    open spec fn number(&self) -> int {
        *self as int
    }

    fn diff(&self, other: i8) -> (r: Distance) {
        let x = *self;
        if x < other {
            let m = (other as u8).wrapping_sub(x as u8);
            assert(x < other ==> (if (other as u8) - (x as u8) < 0 { ((other as u8) - (x as u8)
                + 256) as u8 } else { ((other as u8) - (x as u8)) as u8 }) == other - x)
                by (bit_vector);
            Distance { negative: true, magnitude: m as u128 }
        } else {
            let m = (x as u8).wrapping_sub(other as u8);
            assert(x >= other ==> (if (x as u8) - (other as u8) < 0 { ((x as u8) - (other as u8)
                + 256) as u8 } else { ((x as u8) - (other as u8)) as u8 }) == x - other)
                by (bit_vector);
            Distance { negative: false, magnitude: m as u128 }
        }
    }
}


impl Diff for i16 {
    open spec fn number(&self) -> int {
        *self as int
    }

    fn diff(&self, other: i16) -> (r: Distance) {
        let x = *self;
        if x < other {
            let m = (other as u16).wrapping_sub(x as u16);
            assert(x < other ==> (if (other as u16) - (x as u16) < 0 { ((other as u16) - (x as u16)
                + 65536) as u16 } else { ((other as u16) - (x as u16)) as u16 }) == other - x)
                by (bit_vector);
            Distance { negative: true, magnitude: m as u128 }
        } else {
            let m = (x as u16).wrapping_sub(other as u16);
            assert(x >= other ==> (if (x as u16) - (other as u16) < 0 { ((x as u16) - (other as u16)
                + 65536) as u16 } else { ((x as u16) - (other as u16)) as u16 }) == x - other)
                by (bit_vector);
            Distance { negative: false, magnitude: m as u128 }
        }
    }
}

impl Diff for i32 {
    open spec fn number(&self) -> int {
        *self as int
    }

    fn diff(&self, other: i32) -> (r: Distance) {
        let x = *self;
        if x < other {
            let m = (other as u32).wrapping_sub(x as u32);
            assert(x < other ==> (if (other as u32) - (x as u32) < 0 { ((other as u32) - (x as u32)
                + 4294967296) as u32 } else { ((other as u32) - (x as u32)) as u32 }) == other - x)
                by (bit_vector);
            Distance { negative: true, magnitude: m as u128 }
        } else {
            let m = (x as u32).wrapping_sub(other as u32);
            assert(x >= other ==> (if (x as u32) - (other as u32) < 0 { ((x as u32) - (other as u32)
                + 4294967296) as u32 } else { ((x as u32) - (other as u32)) as u32 }) == x - other)
                by (bit_vector);
            Distance { negative: false, magnitude: m as u128 }
        }
    }
}

impl Diff for i64 {
    open spec fn number(&self) -> int {
        *self as int
    }

    fn diff(&self, other: i64) -> (r: Distance) {
        let x = *self;
        if x < other {
            let m = (other as u64).wrapping_sub(x as u64);
            assert(x < other ==> (if (other as u64) - (x as u64) < 0 { ((other as u64) - (x as u64)
                + 18446744073709551616) as u64 } else { ((other as u64) - (x as u64)) as u64 }) == other - x)
                by (bit_vector);
            Distance { negative: true, magnitude: m as u128 }
        } else {
            let m = (x as u64).wrapping_sub(other as u64);
            assert(x >= other ==> (if (x as u64) - (other as u64) < 0 { ((x as u64) - (other as u64)
                + 18446744073709551616) as u64 } else { ((x as u64) - (other as u64)) as u64 }) == x - other)
                by (bit_vector);
            Distance { negative: false, magnitude: m as u128 }
        }
    }
}

impl Diff for i128 {
    open spec fn number(&self) -> int {
        *self as int
    }

    fn diff(&self, other: i128) -> (r: Distance) {
        let x = *self;
        if x < other {
            let m = (other as u128).wrapping_sub(x as u128);
            assert(x < other ==> (if (other as u128) - (x as u128) < 0 { ((other as u128) - (x as u128)
                + 340282366920938463463374607431768211456) as u128 } else { ((other as u128) - (x as u128)) as u128 }) == other - x)
                by (bit_vector);
            Distance { negative: true, magnitude: m as u128 }
        } else {
            let m = (x as u128).wrapping_sub(other as u128);
            assert(x >= other ==> (if (x as u128) - (other as u128) < 0 { ((x as u128) - (other as u128)
                + 340282366920938463463374607431768211456) as u128 } else { ((x as u128) - (other as u128)) as u128 }) == x - other)
                by (bit_vector);
            Distance { negative: false, magnitude: m as u128 }
        }
    }
}

impl Diff for isize {
    open spec fn number(&self) -> int {
        *self as int
    }

    fn diff(&self, other: isize) -> (r: Distance) {
        (*self as i128).diff(other as i128)
    }
}

impl Diff for u8 {
    open spec fn number(&self) -> int {
        *self as int
    }

    fn diff(&self, other: u8) -> (r: Distance) {
        let x = *self;
        if x < other {
            Distance { negative: true, magnitude: (other - x) as u128 }
        } else {
            Distance { negative: false, magnitude: (x - other) as u128 }
        }
    }
}

impl Diff for u16 {
    open spec fn number(&self) -> int {
        *self as int
    }

    fn diff(&self, other: u16) -> (r: Distance) {
        let x = *self;
        if x < other {
            Distance { negative: true, magnitude: (other - x) as u128 }
        } else {
            Distance { negative: false, magnitude: (x - other) as u128 }
        }
    }
}

impl Diff for u32 {
    open spec fn number(&self) -> int {
        *self as int
    }

    fn diff(&self, other: u32) -> (r: Distance) {
        let x = *self;
        if x < other {
            Distance { negative: true, magnitude: (other - x) as u128 }
        } else {
            Distance { negative: false, magnitude: (x - other) as u128 }
        }
    }
}

impl Diff for u64 {
    open spec fn number(&self) -> int {
        *self as int
    }

    fn diff(&self, other: u64) -> (r: Distance) {
        let x = *self;
        if x < other {
            Distance { negative: true, magnitude: (other - x) as u128 }
        } else {
            Distance { negative: false, magnitude: (x - other) as u128 }
        }
    }
}

impl Diff for u128 {
    open spec fn number(&self) -> int {
        *self as int
    }

    fn diff(&self, other: u128) -> (r: Distance) {
        let x = *self;
        if x < other {
            Distance { negative: true, magnitude: (other - x) as u128 }
        } else {
            Distance { negative: false, magnitude: (x - other) as u128 }
        }
    }
}

impl Diff for usize {
    open spec fn number(&self) -> int {
        *self as int
    }

    fn diff(&self, other: usize) -> (r: Distance) {
        let x = *self;
        if x < other {
            Distance { negative: true, magnitude: (other - x) as u128 }
        } else {
            Distance { negative: false, magnitude: (x - other) as u128 }
        }
    }
}

/// A totally ordered type with a least and a greatest value.
pub trait Extremal: Sized {
    /// The position of a value in the order.
    spec fn rank(&self) -> int;

    /// The least value of the type.
    fn lowest() -> (r: Self)
        ensures
            forall|x: Self| r.rank() <= #[trigger] x.rank(),
    ;

    /// The greatest value of the type.
    fn highest() -> (r: Self)
        ensures
            forall|x: Self| #[trigger] x.rank() <= r.rank(),
    ;

    /// Whether `self` comes no later than `other` in the order.
    fn is_at_most(&self, other: &Self) -> (r: bool)
        ensures
            r == (self.rank() <= other.rank()),
    ;
}

/// A watermark cell that keeps the least or the greatest value written to it.
pub trait AtomicMinMax: Extremal {
    /// Lowers `current` to `other` where `other` comes first; returns the previous value.
    fn fetch_min(current: &mut Self, other: Self) -> (r: Self)
        ensures
            r == *old(current),
            final(current).rank() == if other.rank() < old(current).rank() {
                other.rank()
            } else {
                old(current).rank()
            },
    ;

    /// Raises `current` to `other` where `other` comes later; returns the previous value.
    fn fetch_max(current: &mut Self, other: Self) -> (r: Self)
        ensures
            r == *old(current),
            final(current).rank() == if other.rank() > old(current).rank() {
                other.rank()
            } else {
                old(current).rank()
            },
    ;
}

impl Extremal for Distance {
    open spec fn rank(&self) -> int {
        self.value()
    }

    fn lowest() -> (r: Distance) {
        Distance { negative: true, magnitude: u128::MAX }
    }

    fn highest() -> (r: Distance) {
        Distance { negative: false, magnitude: u128::MAX }
    }

    fn is_at_most(&self, other: &Distance) -> (r: bool) {
        Distance::is_at_most(self, other)
    }
}

impl AtomicMinMax for Distance {
    fn fetch_min(current: &mut Distance, other: Distance) -> (r: Distance) {
        let prev = *current;
        if !prev.is_at_most(&other) {
            *current = other;
        }
        prev
    }

    fn fetch_max(current: &mut Distance, other: Distance) -> (r: Distance) {
        let prev = *current;
        if !other.is_at_most(&prev) {
            *current = other;
        }
        prev
    }
}

impl Extremal for i64 {
    open spec fn rank(&self) -> int {
        *self as int
    }

    fn lowest() -> (r: i64) {
        i64::MIN
    }

    fn highest() -> (r: i64) {
        i64::MAX
    }

    fn is_at_most(&self, other: &i64) -> (r: bool) {
        *self <= *other
    }
}

impl AtomicMinMax for i64 {
    fn fetch_min(current: &mut i64, other: i64) -> (r: i64) {
        let prev = *current;
        if other < prev {
            *current = other;
        }
        prev
    }

    fn fetch_max(current: &mut i64, other: i64) -> (r: i64) {
        let prev = *current;
        if other > prev {
            *current = other;
        }
        prev
    }
}

impl Extremal for u64 {
    open spec fn rank(&self) -> int {
        *self as int
    }

    fn lowest() -> (r: u64) {
        u64::MIN
    }

    fn highest() -> (r: u64) {
        u64::MAX
    }

    fn is_at_most(&self, other: &u64) -> (r: bool) {
        *self <= *other
    }
}

impl AtomicMinMax for u64 {
    fn fetch_min(current: &mut u64, other: u64) -> (r: u64) {
        let prev = *current;
        if other < prev {
            *current = other;
        }
        prev
    }

    fn fetch_max(current: &mut u64, other: u64) -> (r: u64) {
        let prev = *current;
        if other > prev {
            *current = other;
        }
        prev
    }
}

/// The greatest of `mark` and `v`.
pub open spec fn max_of(mark: int, v: int) -> int {
    if v > mark { v } else { mark }
}

/// The least of `mark` and `v`.
pub open spec fn min_of(mark: int, v: int) -> int {
    if v < mark { v } else { mark }
}

/// A monotonic watermark over the values of one guidance site; `MAX` picks the direction.
#[derive(Clone, Copy)]
pub struct Guard<const MAX: bool, T> {
    mark: T,
}

impl<const MAX: bool, T: AtomicMinMax + Copy> Guard<MAX, T> {
    /// The most extreme value seen so far, as a rank.
    pub closed spec fn mark(&self) -> int {
        self.mark.rank()
    }

    /// A guard whose mark is the worst value of the type, so that any first value advances it.
    pub fn init() -> (g: Self)
        ensures
            exists|x: T| g.mark() == x.rank(),
            MAX ==> forall|x: T| g.mark() <= #[trigger] x.rank(),
            !MAX ==> forall|x: T| #[trigger] x.rank() <= g.mark(),
    {
        let mark = if MAX { T::lowest() } else { T::highest() };
        let g = Guard { mark };
        assert(g.mark() == mark.rank());
        g
    }

    /// Moves the mark to `new` where it advances it, and reports whether `new` advances or ties it.
    pub fn should_emit(&mut self, new: T) -> (r: bool)
        ensures
            MAX ==> final(self).mark() == max_of(old(self).mark(), new.rank()),
            MAX ==> r == (old(self).mark() <= new.rank()),
            !MAX ==> final(self).mark() == min_of(old(self).mark(), new.rank()),
            !MAX ==> r == (new.rank() <= old(self).mark()),
    {
        if MAX {
            let prev = T::fetch_max(&mut self.mark, new);
            prev.is_at_most(&new)
        } else {
            let prev = T::fetch_min(&mut self.mark, new);
            new.is_at_most(&prev)
        }
    }
}

/// The watermarks of the guidance sites of one direction, keyed by site identifier; each is
/// created at the first value of its site.
pub struct SiteGuards<const MAX: bool> {
    guards: KeyedStore<Guard<MAX, Distance>>,
}

impl<const MAX: bool> View for SiteGuards<MAX> {
    type V = Map<Seq<char>, int>;

    /// The mark of each site's watermark.
    closed spec fn view(&self) -> Map<Seq<char>, int> {
        self.guards@.map_values(|g: Guard<MAX, Distance>| g.mark())
    }
}

/// Whether a watermark of direction `max` at `mark` lets `v` through: `v` advances or ties it.
pub open spec fn lets_through(max: bool, mark: int, v: int) -> bool {
    if max {
        mark <= v
    } else {
        v <= mark
    }
}

/// The mark of a watermark of direction `max` at `mark` after the value `v`.
pub open spec fn moved_mark(max: bool, mark: int, v: int) -> int {
    if max {
        max_of(mark, v)
    } else {
        min_of(mark, v)
    }
}

impl<const MAX: bool> SiteGuards<MAX> {
    pub closed spec fn wf(&self) -> bool {
        self.guards.wf()
    }

    pub fn new() -> (r: SiteGuards<MAX>)
        ensures
            r.wf(),
            r@ == Map::<Seq<char>, int>::empty(),
    {
        let r = SiteGuards { guards: KeyedStore::new() };
        assert(r@ =~= Map::<Seq<char>, int>::empty());
        r
    }

    /// Feeds `diff` to the watermark of the site `id`, creating it where needed, and reports
    /// whether `diff` advances or ties it; a site's first value always passes.
    pub fn should_emit(&mut self, id: &String, diff: Distance) -> (r: bool)
        requires
            old(self).wf(),
        ensures
            final(self).wf(),
            old(self)@.contains_key(id@) ==> r == lets_through(MAX, old(self)@[id@], diff.value()),
            old(self)@.contains_key(id@) ==> final(self)@ == old(self)@.insert(
                id@,
                moved_mark(MAX, old(self)@[id@], diff.value()),
            ),
            !old(self)@.contains_key(id@) ==> r,
            !old(self)@.contains_key(id@) ==> final(self)@ == old(self)@.insert(id@, diff.value()),
    {
        let mut g = match self.guards.get(id) {
            Some(g) => g,
            None => Guard::<MAX, Distance>::init(),
        };
        let r = g.should_emit(diff);
        self.guards.set(id, g);
        assert(self@ =~= old(self)@.insert(id@, g.mark()));
        r
    }
}

/// The mark of a maximizing watermark that started at `start` and was fed `s` in order.
pub open spec fn max_mark_after(start: int, s: Seq<int>) -> int
    decreases s.len(),
{
    if s.len() == 0 {
        start
    } else {
        max_of(max_mark_after(start, s.drop_last()), s.last())
    }
}

/// The mark of a minimizing watermark that started at `start` and was fed `s` in order.
pub open spec fn min_mark_after(start: int, s: Seq<int>) -> int
    decreases s.len(),
{
    if s.len() == 0 {
        start
    } else {
        min_of(min_mark_after(start, s.drop_last()), s.last())
    }
}

proof fn lemma_max_mark_at_most(start: int, s: Seq<int>, v: int)
    ensures
        (max_mark_after(start, s) <= v) <==> (start <= v && forall|j: int|
            0 <= j < s.len() ==> s[j] <= v),
    decreases s.len(),
{
    if s.len() > 0 {
        let p = s.drop_last();
        lemma_max_mark_at_most(start, p, v);
        assert forall|j: int| 0 <= j < s.len() - 1 implies s[j] == p[j] by {}
        if max_mark_after(start, s) <= v {
            assert forall|j: int| 0 <= j < s.len() implies s[j] <= v by {
                if j < s.len() - 1 {
                    assert(p[j] <= v);
                }
            }
        }
    }
}

proof fn lemma_min_mark_at_least(start: int, s: Seq<int>, v: int)
    ensures
        (v <= min_mark_after(start, s)) <==> (v <= start && forall|j: int|
            0 <= j < s.len() ==> v <= s[j]),
    decreases s.len(),
{
    if s.len() > 0 {
        let p = s.drop_last();
        lemma_min_mark_at_least(start, p, v);
        assert forall|j: int| 0 <= j < s.len() - 1 implies s[j] == p[j] by {}
        if v <= min_mark_after(start, s) {
            assert forall|j: int| 0 <= j < s.len() implies v <= s[j] by {
                if j < s.len() - 1 {
                    assert(v <= p[j]);
                }
            }
        }
    }
}

/// A maximizing guard that starts at or below every value and is fed the values `s` in order
/// emits on the value at index `i` exactly when no earlier value exceeds it: it emits on the
/// prefix maxima of `s`, ties included.
pub proof fn lemma_max_guard_emits_prefix_maxima(start: int, s: Seq<int>, i: int)
    requires
        0 <= i < s.len(),
        forall|j: int| 0 <= j < s.len() ==> start <= #[trigger] s[j],
    ensures
        (max_mark_after(start, s.take(i)) <= s[i]) <==> (forall|j: int|
            0 <= j < i ==> s[j] <= s[i]),
{
    lemma_max_mark_at_most(start, s.take(i), s[i]);
    assert forall|j: int| 0 <= j < i implies s.take(i)[j] == s[j] by {}
}

/// A minimizing guard that starts at or above every value and is fed the values `s` in order
/// emits on the value at index `i` exactly when no earlier value undercuts it: it emits on the
/// prefix minima of `s`, ties included.
pub proof fn lemma_min_guard_emits_prefix_minima(start: int, s: Seq<int>, i: int)
    requires
        0 <= i < s.len(),
        forall|j: int| 0 <= j < s.len() ==> #[trigger] s[j] <= start,
    ensures
        (s[i] <= min_mark_after(start, s.take(i))) <==> (forall|j: int|
            0 <= j < i ==> s[i] <= s[j]),
{
    lemma_min_mark_at_least(start, s.take(i), s[i]);
    assert forall|j: int| 0 <= j < i implies s.take(i)[j] == s[j] by {}
}

/// The kind of data that a guidance site reports.
#[derive(Clone, Copy, Debug, PartialEq, Eq, Structural)]
pub enum GuidanceType {
    Numeric,
    Boolean,
    Json,
}

} // verus!
