use vstd::prelude::*;

use crate::domain::{in_domain, IntervalDomain};

verus! {

/// The integers that an interval stands for: `diameter` of them, from `start`.
pub struct Span {
    pub start: int,
    pub diameter: int,
}

impl Span {
    /// One past the last member.
    pub open spec fn end(self) -> int {
        self.start + self.diameter
    }

    /// Closed membership: from `start` up to and including `start + diameter - 1`.
    pub open spec fn contains(self, v: int) -> bool {
        self.start <= v <= self.start + self.diameter - 1
    }
}

/// Whether a non-negative `diameter` from `start` can be confirmed within `S`:
/// both `diameter - 1` and the last member `start + (diameter - 1)` fit.
pub open spec fn fits<S: IntervalDomain>(start: int, diameter: int) -> bool {
    &&& 0 <= diameter
    &&& in_domain::<S>(start)
    &&& in_domain::<S>(diameter)
    &&& in_domain::<S>(diameter - 1)
    &&& in_domain::<S>(start + diameter - 1)
}

/// What `Interval::new(start, diameter)` yields over `S`: a negative diameter
/// is normalized to `(start + diameter, -diameter)`, where both of those must
/// fit in `S`; the result must then pass `fits`.
pub open spec fn construct<S: IntervalDomain>(start: int, diameter: int) -> Option<Span> {
    if diameter < 0 {
        if in_domain::<S>(start + diameter) && in_domain::<S>(-diameter) && fits::<S>(
            start + diameter,
            -diameter,
        ) {
            Some(Span { start: start + diameter, diameter: -diameter })
        } else {
            None
        }
    } else if fits::<S>(start, diameter) {
        Some(Span { start, diameter })
    } else {
        None
    }
}

/// The intersection of two spans over `S`: nothing where one ends before the
/// other starts; else the span from the later start to the earlier end, built
/// as `construct` builds it.
pub open spec fn meet<S: IntervalDomain>(a: Span, b: Span) -> Option<Span> {
    let lo = if a.start < b.start {
        b.start
    } else {
        a.start
    };
    let hi = if a.end() < b.end() {
        a.end()
    } else {
        b.end()
    };
    if hi < lo {
        None
    } else {
        construct::<S>(lo, hi - lo)
    }
}

/// A bounded interval of integers over the domain `S`.
///
/// It holds every value from `start` up to and including
/// `start + diameter - 1`, so that an interval of width `n` holds exactly `n`
/// values. The diameter is never negative once built, and the last member is
/// representable in `S`.
#[derive(Debug, PartialEq, Eq)]
pub struct Interval<S: IntervalDomain> {
    start: S,
    diameter: S,
}

impl<S: IntervalDomain> View for Interval<S> {
    type V = Span;

    closed spec fn view(&self) -> Span {
        Span { start: self.start.value(), diameter: self.diameter.value() }
    }
}

impl<S: IntervalDomain> Clone for Interval<S> {
    fn clone(&self) -> (r: Self)
        ensures
            r@ == self@,
    {
        proof {
            use_type_invariant(self);
        }
        Interval { start: self.start, diameter: self.diameter }
    }
}

/// The span of an optional interval.
pub open spec fn opt_span<S: IntervalDomain>(o: Option<Interval<S>>) -> Option<Span> {
    match o {
        Some(i) => Some(i@),
        None => None,
    }
}

/// `a + b`, where the sum is known to fit.
fn add_exact<S: IntervalDomain>(a: &S, b: &S) -> (r: S)
    requires
        in_domain::<S>(a.value() + b.value()),
    ensures
        r.value() == a.value() + b.value(),
{
    match a.add_checked(b) {
        Some(s) => s,
        None => *a,
    }
}

/// `a - b`, where the difference is known to fit.
fn sub_exact<S: IntervalDomain>(a: &S, b: &S) -> (r: S)
    requires
        in_domain::<S>(a.value() - b.value()),
    ensures
        r.value() == a.value() - b.value(),
{
    match a.sub_checked(b) {
        Some(s) => s,
        None => *a,
    }
}

/// Builds an interval from a non-negative diameter after confirming that
/// `diameter - 1` and `start + (diameter - 1)` are representable.
fn confirmed_interval<S: IntervalDomain>(start: S, diameter: S) -> (r: Option<Interval<S>>)
    requires
        diameter.value() >= 0,
    ensures
        opt_span(r) == (if fits::<S>(start.value(), diameter.value()) {
            Some(Span { start: start.value(), diameter: diameter.value() })
        } else {
            None
        }),
{
    proof {
        start.lemma_value_in_range();
        diameter.lemma_value_in_range();
    }
    match diameter.sub_checked(&S::one()) {
        None => None,
        Some(ofs) => match start.add_checked(&ofs) {
            None => None,
            Some(last) => {
                proof {
                    ofs.lemma_value_in_range();
                    last.lemma_value_in_range();
                }
                Some(Interval { start, diameter })
            },
        },
    }
}

/// Creates an interval over an integer domain, normalizing a negative
/// diameter and rejecting one whose arithmetic would leave the domain.
pub fn new_int_interval<S: IntervalDomain>(start: S, diameter: S) -> (r: Option<Interval<S>>)
    ensures
        opt_span(r) == construct::<S>(start.value(), diameter.value()),
{
    let zero = S::zero();
    if diameter.less_than(&zero) {
        match start.add_checked(&diameter) {
            None => None,
            Some(new_start) => match zero.sub_checked(&diameter) {
                None => None,
                Some(new_diameter) => confirmed_interval(new_start, new_diameter),
            },
        }
    } else {
        confirmed_interval(start, diameter)
    }
}

impl<S: IntervalDomain> Interval<S> {
    #[verifier::type_invariant]
    spec fn well_formed(self) -> bool {
        fits::<S>(self.start.value(), self.diameter.value())
    }

    /// Creates an interval; see `construct` for when it exists and what it holds.
    pub fn new(start: S, diameter: S) -> (r: Option<Interval<S>>)
        ensures
            opt_span(r) == construct::<S>(start.value(), diameter.value()),
    {
        new_int_interval(start, diameter)
    }

    pub fn start(&self) -> (r: &S)
        ensures
            r.value() == self@.start,
    {
        &self.start
    }

    pub fn diameter(&self) -> (r: &S)
        ensures
            r.value() == self@.diameter,
    {
        &self.diameter
    }

    /// The last member, `start + diameter - 1`.
    fn last(&self) -> (r: S)
        ensures
            r.value() == self@.start + self@.diameter - 1,
    {
        proof {
            use_type_invariant(self);
        }
        add_exact(&self.start, &sub_exact(&self.diameter, &S::one()))
    }

    /// Whether the interval holds `value`.
    pub fn contains(&self, value: &S) -> (r: bool)
        ensures
            r == self@.contains(value.value()),
    {
        if value.less_than(&self.start) {
            false
        } else {
            !self.last().less_than(value)
        }
    }

    /// The intersection, where `self` starts no later than `other`.
    fn intersect_ordered(&self, other: &Interval<S>) -> (r: Option<Interval<S>>)
        requires
            self@.start <= other@.start,
        ensures
            opt_span(r) == meet::<S>(self@, other@),
    {
        proof {
            use_type_invariant(self);
            use_type_invariant(other);
        }
        let zero = S::zero();
        let one = S::one();
        proof {
            zero.lemma_value_in_range();
        }
        let self_last = self.last();
        if self_last.less_than(&other.start) {
            if add_exact(&self_last, &one).less_than(&other.start) {
                None
            } else {
                Interval::new(other.start, zero)
            }
        } else {
            let other_last = other.last();
            if self_last.less_than(&other_last) {
                let d = add_exact(&sub_exact(&self_last, &other.start), &one);
                Interval::new(other.start, d)
            } else {
                Some(other.clone())
            }
        }
    }

    /// The intersection of two intervals, if they overlap; see `meet`.
    pub fn intersect(&self, other: &Interval<S>) -> (r: Option<Interval<S>>)
        ensures
            opt_span(r) == meet::<S>(self@, other@),
    {
        if other.start.less_than(&self.start) {
            other.intersect_ordered(self)
        } else {
            self.intersect_ordered(other)
        }
    }
}

/// A negative diameter is normalized: where the interval can be built, its
/// diameter is non-negative and it holds exactly the values from
/// `start + diameter` up to, but not including, `start`.
pub proof fn lemma_new_normalizes<S: IntervalDomain>(start: S, diameter: S)
    requires
        diameter.value() < 0,
        construct::<S>(start.value(), diameter.value()) is Some,
    ensures
        construct::<S>(start.value(), diameter.value())->Some_0.diameter >= 0,
        forall|v: int|
            construct::<S>(start.value(), diameter.value())->Some_0.contains(v) <==> start.value()
                + diameter.value() <= v < start.value(),
{
}

/// Intersection does not depend on the order of its operands.
pub proof fn lemma_intersect_symmetric<S: IntervalDomain>(a: Interval<S>, b: Interval<S>)
    ensures
        meet::<S>(a@, b@) == meet::<S>(b@, a@),
{
}

/// Intersection agrees with membership: a value that both intervals hold
/// lies in their intersection, which then exists; and an intersection that
/// exists holds exactly the values that both intervals hold.
pub proof fn lemma_intersect_contains<S: IntervalDomain>(a: Interval<S>, b: Interval<S>, v: S)
    requires
        fits::<S>(a@.start, a@.diameter),
        fits::<S>(b@.start, b@.diameter),
    ensures
        a@.contains(v.value()) && b@.contains(v.value()) ==> meet::<S>(a@, b@) is Some
            && meet::<S>(a@, b@)->Some_0.contains(v.value()),
        meet::<S>(a@, b@) is Some ==> (meet::<S>(a@, b@)->Some_0.contains(v.value()) <==> (
        a@.contains(v.value()) && b@.contains(v.value()))),
{
    lemma_meet_contains::<S>(a@, b@, v.value());
}

/// `meet` agrees with membership, for spans that pass `fits`.
pub proof fn lemma_meet_contains<S: IntervalDomain>(a: Span, b: Span, v: int)
    requires
        fits::<S>(a.start, a.diameter),
        fits::<S>(b.start, b.diameter),
    ensures
        a.contains(v) && b.contains(v) ==> meet::<S>(a, b) is Some && meet::<S>(
            a,
            b,
        )->Some_0.contains(v),
        meet::<S>(a, b) is Some ==> (meet::<S>(a, b)->Some_0.contains(v) <==> (a.contains(v)
            && b.contains(v))),
{
    S::lemma_range_holds_zero_and_one();
    let (x, y) = if a.start < b.start {
        (a, b)
    } else {
        (b, a)
    };
    assert(meet::<S>(a, b) == meet::<S>(x, y));
    let hi = if x.end() < y.end() {
        x.end()
    } else {
        y.end()
    };
    if x.contains(v) && y.contains(v) {
        assert(fits::<S>(y.start, hi - y.start));
    }
}

} // verus!
