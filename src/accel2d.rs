use vstd::prelude::*;

use crate::domain::IntervalDomain;
use crate::interval::Span;
use crate::p2::P2;
use crate::rect::{rect_holds, Rect};

verus! {

/// The test that a query by the rectangle with spans `r` applies to each pair.
pub open spec fn in_rect<S: IntervalDomain, T>(r: (Span, Span)) -> spec_fn((P2<S>, T)) -> bool {
    |e: (P2<S>, T)| rect_holds(r, e.0.x.value(), e.0.y.value())
}

/// The pairs that a sequence of references points to.
pub open spec fn targets<A>(s: Seq<&A>) -> Seq<A> {
    s.map_values(|e: &A| *e)
}

/// A structure that holds points with payloads and answers which of them lie
/// in a rectangle.
///
/// Implementations may answer queries faster than a scan, but must hand back
/// every stored pair whose point the rectangle holds, each as often as it was
/// inserted, in any order.
pub trait Accel2D: Sized {
    type Scalar: IntervalDomain;

    type Item;

    /// Every pair inserted so far, in order of insertion.
    spec fn entries(&self) -> Seq<(P2<Self::Scalar>, Self::Item)>;

    fn new() -> (r: Self)
        ensures
            r.entries() == Seq::<(P2<Self::Scalar>, Self::Item)>::empty(),
    ;

    fn new_from_vec(items: Vec<(P2<Self::Scalar>, Self::Item)>) -> (r: Self)
        ensures
            r.entries() == items@,
    {
        let mut accel2d = Self::new();
        accel2d.insert(items);
        assert(accel2d.entries() =~= items@);
        accel2d
    }

    /// Inserts the pairs one by one, in order.
    fn insert(&mut self, items: Vec<(P2<Self::Scalar>, Self::Item)>)
        ensures
            final(self).entries() == old(self).entries() + items@,
    {
        let ghost before = self.entries();
        let ghost all = items@;
        let mut rest = items;
        let ghost mut k: int = 0;
        while rest.len() > 0
            invariant
                0 <= k <= all.len(),
                rest@ == all.skip(k),
                self.entries() == before + all.take(k),
            decreases rest.len(),
        {
            let item = rest.remove(0);
            self.push(item);
            proof {
                assert(rest@ =~= all.skip(k + 1));
                assert(before + all.take(k + 1) =~= (before + all.take(k)).push(all[k]));
                k = k + 1;
            }
        }
        proof {
            assert(all.take(k) =~= all);
        }
    }

    fn push(&mut self, item: (P2<Self::Scalar>, Self::Item))
        ensures
            final(self).entries() == old(self).entries().push(item),
    ;

    /// Every stored pair whose point `rect` holds, in any order.
    fn query_rect(&self, rect: &Rect<Self::Scalar>) -> (r: Vec<&(P2<Self::Scalar>, Self::Item)>)
        ensures
            targets(r@).to_multiset() == self.entries().filter(
                in_rect::<Self::Scalar, Self::Item>(rect@),
            ).to_multiset(),
    ;
}

/// A structure that answers each query by a scan of every pair it holds.
///
/// It is meant as a baseline that faster structures are checked against.
pub struct Reference<S, T> {
    items: Vec<(P2<S>, T)>,
}

impl<S: IntervalDomain, T> Reference<S, T> {
    /// The pairs that `rect` holds, in order of insertion.
    fn scan(&self, rect: &Rect<S>) -> (r: Vec<&(P2<S>, T)>)
        ensures
            targets(r@) == self.items@.filter(in_rect::<S, T>(rect@)),
    {
        let mut r: Vec<&(P2<S>, T)> = Vec::new();
        let mut i: usize = 0;
        while i < self.items.len()
            invariant
                i <= self.items@.len(),
                targets(r@) == self.items@.take(i as int).filter(in_rect::<S, T>(rect@)),
            decreases self.items.len() - i,
        {
            let e = &self.items[i];
            let hit = rect.contains(&e.0);
            if hit {
                r.push(e);
            }
            proof {
                let prefix = self.items@.take(i + 1);
                assert(prefix.drop_last() =~= self.items@.take(i as int));
                assert(prefix.last() == self.items@[i as int]);
                reveal(Seq::filter);
                assert(targets(r@) =~= prefix.filter(in_rect::<S, T>(rect@)));
            }
            i += 1;
        }
        proof {
            assert(self.items@.take(i as int) =~= self.items@);
        }
        r
    }
}

impl<S: IntervalDomain, T> Accel2D for Reference<S, T> {
    type Scalar = S;

    type Item = T;

    closed spec fn entries(&self) -> Seq<(P2<S>, T)> {
        self.items@
    }

    fn new() -> (r: Self) {
        Reference { items: Vec::new() }
    }

    fn push(&mut self, item: (P2<S>, T)) {
        self.items.push(item);
    }

    fn query_rect(&self, rect: &Rect<S>) -> (r: Vec<&(P2<S>, T)>) {
        self.scan(rect)
    }
}

/// Each pair comes back from a filter by a rectangle as often as the sequence
/// holds it where the rectangle holds its point, and never otherwise.
proof fn lemma_filter_counts<S: IntervalDomain, T>(items: Seq<(P2<S>, T)>, r: (Span, Span))
    ensures
        forall|e: (P2<S>, T)| #[trigger]
            items.filter(in_rect::<S, T>(r)).to_multiset().count(e) == if rect_holds(
                r,
                e.0.x.value(),
                e.0.y.value(),
            ) {
                items.to_multiset().count(e)
            } else {
                0
            },
    decreases items.len(),
{
    broadcast use vstd::multiset::group_multiset_axioms;
    broadcast use vstd::seq_lib::to_multiset_build;

    reveal(Seq::filter);
    if items.len() == 0 {
        assert(items.filter(in_rect::<S, T>(r)) =~= items);
        assert(items.to_multiset() =~= vstd::multiset::Multiset::empty()) by {
            items.to_multiset_ensures();
        }
    } else {
        let init = items.drop_last();
        let last = items.last();
        let pred = in_rect::<S, T>(r);
        lemma_filter_counts(init, r);
        assert(init.push(last) =~= items);
        assert(items.to_multiset() =~= init.to_multiset().insert(last));
        if pred(last) {
            assert(items.filter(pred) == init.filter(pred).push(last));
            assert(items.filter(pred).to_multiset() =~= init.filter(pred).to_multiset().insert(
                last,
            ));
        } else {
            assert(items.filter(pred) == init.filter(pred));
        }
    }
}

/// A query of any index answers as a brute-force filter over the inserted
/// pairs would: each pair comes back as often as it was inserted where the
/// rectangle holds its point, and never otherwise.
pub proof fn lemma_query_is_brute_force<A: Accel2D>(index: A, rect: Rect<A::Scalar>)
    ensures
        forall|e: (P2<A::Scalar>, A::Item)| #[trigger]
            index.entries().filter(in_rect::<A::Scalar, A::Item>(rect@)).to_multiset().count(e)
                == if rect_holds(rect@, e.0.x.value(), e.0.y.value()) {
                index.entries().to_multiset().count(e)
            } else {
                0
            },
{
    lemma_filter_counts(index.entries(), rect@);
}

} // verus!
