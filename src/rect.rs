use vstd::prelude::*;

use crate::domain::IntervalDomain;
use crate::interval::{construct, fits, lemma_meet_contains, meet, Interval, Span};
use crate::p2::P2;

verus! {

/// Whether the rectangle with spans `r` (x, then y) holds the point `(x, y)`.
pub open spec fn rect_holds(r: (Span, Span), x: int, y: int) -> bool {
    r.0.contains(x) && r.1.contains(y)
}

/// Pairs two optional spans into an optional rectangle: present only where both are.
pub open spec fn both(x: Option<Span>, y: Option<Span>) -> Option<(Span, Span)> {
    match (x, y) {
        (Some(sx), Some(sy)) => Some((sx, sy)),
        _ => None,
    }
}

/// The intersection of two rectangles over `S`, taken per axis.
pub open spec fn rect_meet<S: IntervalDomain>(a: (Span, Span), b: (Span, Span)) -> Option<(Span, Span)> {
    both(meet::<S>(a.0, b.0), meet::<S>(a.1, b.1))
}

/// An axis-aligned rectangle: an interval on each axis, independent of each other.
#[derive(Debug, PartialEq, Eq)]
pub struct Rect<S: IntervalDomain> {
    x_interval: Interval<S>,
    y_interval: Interval<S>,
}

impl<S: IntervalDomain> View for Rect<S> {
    type V = (Span, Span);

    closed spec fn view(&self) -> (Span, Span) {
        (self.x_interval@, self.y_interval@)
    }
}

/// The spans of an optional rectangle.
pub open spec fn opt_rect<S: IntervalDomain>(o: Option<Rect<S>>) -> Option<(Span, Span)> {
    match o {
        Some(r) => Some(r@),
        None => None,
    }
}

impl<S: IntervalDomain> Clone for Rect<S> {
    fn clone(&self) -> (r: Self)
        ensures
            r@ == self@,
    {
        Rect { x_interval: self.x_interval.clone(), y_interval: self.y_interval.clone() }
    }
}

impl<S: IntervalDomain> Rect<S> {
    /// The rectangle of `width` from `x` and `height` from `y`; absent where
    /// either interval cannot be built.
    pub fn new(x: S, y: S, width: S, height: S) -> (r: Option<Self>)
        ensures
            opt_rect(r) == both(
                construct::<S>(x.value(), width.value()),
                construct::<S>(y.value(), height.value()),
            ),
    {
        match Interval::new(x, width) {
            None => None,
            Some(x_interval) => match Interval::new(y, height) {
                None => None,
                Some(y_interval) => Some(Rect { x_interval, y_interval }),
            },
        }
    }

    pub fn new_from_intervals(x_interval: Interval<S>, y_interval: Interval<S>) -> (r: Self)
        ensures
            r@ == (x_interval@, y_interval@),
    {
        Rect { x_interval, y_interval }
    }

    pub fn x(&self) -> (r: &S)
        ensures
            r.value() == self@.0.start,
    {
        self.x_interval.start()
    }

    pub fn y(&self) -> (r: &S)
        ensures
            r.value() == self@.1.start,
    {
        self.y_interval.start()
    }

    pub fn width(&self) -> (r: &S)
        ensures
            r.value() == self@.0.diameter,
    {
        self.x_interval.diameter()
    }

    pub fn height(&self) -> (r: &S)
        ensures
            r.value() == self@.1.diameter,
    {
        self.y_interval.diameter()
    }

    /// Whether both axes hold the point's coordinates.
    pub fn contains(&self, point: &P2<S>) -> (r: bool)
        ensures
            r == rect_holds(self@, point.x.value(), point.y.value()),
    {
        self.x_interval.contains(&point.x) && self.y_interval.contains(&point.y)
    }

    /// The intersection, axis by axis; absent where either axis has none.
    pub fn intersect(&self, other: &Rect<S>) -> (r: Option<Self>)
        ensures
            opt_rect(r) == rect_meet::<S>(self@, other@),
    {
        match self.x_interval.intersect(&other.x_interval) {
            None => None,
            Some(x_interval) => match self.y_interval.intersect(&other.y_interval) {
                None => None,
                Some(y_interval) => Some(Rect { x_interval, y_interval }),
            },
        }
    }
}

/// Rectangle intersection agrees with point membership: a point that both
/// rectangles hold lies in their intersection, which then exists; and an
/// intersection that exists holds exactly the points that both hold.
pub proof fn lemma_rect_intersect_contains<S: IntervalDomain>(a: Rect<S>, b: Rect<S>, p: P2<S>)
    requires
        fits::<S>(a@.0.start, a@.0.diameter),
        fits::<S>(a@.1.start, a@.1.diameter),
        fits::<S>(b@.0.start, b@.0.diameter),
        fits::<S>(b@.1.start, b@.1.diameter),
    ensures
        rect_holds(a@, p.x.value(), p.y.value()) && rect_holds(b@, p.x.value(), p.y.value())
            ==> rect_meet::<S>(a@, b@) is Some && rect_holds(
            rect_meet::<S>(a@, b@)->Some_0,
            p.x.value(),
            p.y.value(),
        ),
        rect_meet::<S>(a@, b@) is Some ==> (rect_holds(
            rect_meet::<S>(a@, b@)->Some_0,
            p.x.value(),
            p.y.value(),
        ) <==> (rect_holds(a@, p.x.value(), p.y.value()) && rect_holds(
            b@,
            p.x.value(),
            p.y.value(),
        ))),
{
    lemma_meet_contains::<S>(a@.0, b@.0, p.x.value());
    lemma_meet_contains::<S>(a@.1, b@.1, p.y.value());
}

} // verus!
