//! What holds of every grid, proved over the model.
use super::error::GridError;
use super::grid_object::GridObject;
use super::model::GridModel;
use crate::base::{GridNum, Vec3};
use vstd::prelude::*;

verus! {

/// On the axis where `p` and `q` differ, neither lies below zero.
pub open spec fn steps_stay_non_negative(p: (int, int, int), q: (int, int, int)) -> bool {
    &&& p.0 != q.0 ==> p.0 >= 0 && q.0 >= 0
    &&& p.1 != q.1 ==> p.1 >= 0 && q.1 >= 0
    &&& p.2 != q.2 ==> p.2 >= 0 && q.2 >= 0
}

/// A product of non-negative factors grows with its first factor.
pub proof fn lemma_product_grows(a: int, b: int, c: int)
    by (nonlinear_arith)
    requires
        0 <= a <= b,
        0 <= c,
    ensures
        0 <= a * c <= b * c,
{
}

/// A multiple of a base plus a number below the base determines both.
pub proof fn lemma_two_digits(x1: int, y1: int, x2: int, y2: int, base: int)
    by (nonlinear_arith)
    requires
        0 <= y1 < base,
        0 <= y2 < base,
        x1 * base + y1 == x2 * base + y2,
    ensures
        x1 == x2,
        y1 == y2,
{
}

/// The hashing order names each axis once, from the largest extent to the
/// smallest.
pub proof fn lemma_hash_order_sorted(width: int, height: int, depth: int)
    ensures
        ({
            let (a, b, c) = super::model::hash_order_spec(width, height, depth);
            let e = (width, height, depth);
            &&& 0 <= a <= 2 && 0 <= b <= 2 && 0 <= c <= 2
            &&& a != b && b != c && a != c
            &&& super::model::pick(e, a) >= super::model::pick(e, b) >= super::model::pick(e, c)
        }),
{
}

impl<I, T: GridNum> GridModel<I, T> {
    /// A candidate that resolves to an index contributes that index.
    pub proof fn lemma_resolve_contains(self, cands: Seq<(int, int, int)>, j: int)
        requires
            0 <= j < cands.len(),
            self.index(cands[j]) is Some,
        ensures
            self.resolve(cands).contains(self.index(cands[j])->0),
        decreases cands.len(),
    {
        let i = self.index(cands[j])->0;
        let before = self.resolve(cands.drop_last());
        if j == cands.len() - 1 {
            assert(before.push(i).last() == i);
        } else {
            self.lemma_resolve_contains(cands.drop_last(), j);
            let at = choose|at: int| 0 <= at < before.len() && before[at] == i;
            match self.index(cands.last()) {
                Some(other) => {
                    assert(before.push(other)[at] == i);
                },
                None => {},
            }
        }
    }

    /// Every index that a query yields is the index of one of its
    /// candidates, and that cell is used.
    pub proof fn lemma_resolve_sound(self, cands: Seq<(int, int, int)>, at: int)
        requires
            0 <= at < self.resolve(cands).len(),
        ensures
            self.index_used(self.resolve(cands)[at]),
            exists|j: int|
                0 <= j < cands.len() && self.index(#[trigger] cands[j]) == Some(
                    self.resolve(cands)[at],
                ),
        decreases cands.len(),
    {
        if cands.len() > 0 {
            let before = self.resolve(cands.drop_last());
            if at < before.len() {
                self.lemma_resolve_sound(cands.drop_last(), at);
                let j = choose|j: int|
                    0 <= j < cands.drop_last().len() && self.index(#[trigger] cands.drop_last()[j])
                        == Some(before[at]);
                assert(cands[j] == cands.drop_last()[j]);
            } else {
                assert(self.index(cands[cands.len() - 1]) == Some(self.resolve(cands)[at]));
            }
        }
    }

    /// Whether `p` lies inside the bounds and, shifted, stays below the
    /// weight of the next axis on the two axes that are not hashed first:
    /// with the axes a, b, c in hashing order and s the shifted position,
    /// s[b] < extent[a] and s[c] < extent[b].
    pub open spec fn separable(self, p: (int, int, int)) -> bool {
        let s = self.shifted(p);
        let e = self.extents();
        let (a, b, c) = self.order();
        &&& self.in_bounds(p)
        &&& super::model::pick(s, b) < super::model::pick(e, a)
        &&& super::model::pick(s, c) < super::model::pick(e, b)
    }

    /// Two separable positions with the same hash are the same position.
    pub proof fn lemma_hash_injective(self, p: (int, int, int), q: (int, int, int))
        requires
            self.separable(p),
            self.separable(q),
            self.hash(p) == self.hash(q),
        ensures
            p == q,
    {
        let e = self.extents();
        let (a, b, c) = self.order();
        lemma_hash_order_sorted(e.0, e.1, e.2);
        let s = self.shifted(p);
        let t = self.shifted(q);
        let ea = super::model::pick(e, a);
        let eb = super::model::pick(e, b);
        let (sa, sb, sc) = (
            super::model::pick(s, a),
            super::model::pick(s, b),
            super::model::pick(s, c),
        );
        let (ta, tb, tc) = (
            super::model::pick(t, a),
            super::model::pick(t, b),
            super::model::pick(t, c),
        );
        assert(0 <= sb && 0 <= sc && 0 <= tb && 0 <= tc);
        assert(sa * ea * eb + sb * eb == (sa * ea + sb) * eb) by (nonlinear_arith);
        assert(ta * ea * eb + tb * eb == (ta * ea + tb) * eb) by (nonlinear_arith);
        lemma_two_digits(sa * ea + sb, sc, ta * ea + tb, tc, eb);
        lemma_two_digits(sa, sb, ta, tb, ea);
        assert(s == t);
    }

    /// Where the hash of the upper corner can be computed, so can the hash
    /// of every position inside the bounds.
    pub proof fn lemma_hash_defined_within(self, p: (int, int, int))
        requires
            self.ordered(),
            self.hash_defined(self.max.ints()),
            self.in_bounds(p),
        ensures
            self.hash_defined(p),
            0 <= self.hash(p) <= self.hash(self.max.ints()),
    {
        let s = self.shifted(p);
        let t = self.shifted(self.max.ints());
        let e = self.extents();
        let (a, b, c) = self.order();
        lemma_hash_order_sorted(e.0, e.1, e.2);
        T::lemma_range(self.min.x);
        let sa = super::model::pick(s, a);
        let ta = super::model::pick(t, a);
        let sb = super::model::pick(s, b);
        let tb = super::model::pick(t, b);
        let ea = super::model::pick(e, a);
        let eb = super::model::pick(e, b);
        assert(0 <= sa <= ta);
        assert(0 <= sb <= tb);
        lemma_product_grows(sa, ta, ea);
        lemma_product_grows(sa * ea, ta * ea, eb);
        lemma_product_grows(sb, tb, eb);
    }

    /// In a cube whose lower corner has no positive coordinate, every
    /// position inside the bounds has a valid index.
    pub proof fn lemma_cube_indices_valid(self, p: (int, int, int))
        requires
            self.ordered(),
            self.extents().0 == self.extents().1 == self.extents().2,
            self.min.x.as_int() <= 0 && self.min.y.as_int() <= 0 && self.min.z.as_int() <= 0,
            self.in_bounds(p),
        ensures
            0 <= self.hash(p) <= self.max_index(),
    {
        let n = self.extents().0;
        let s = self.shifted(p);
        assert(self.order() == (0int, 2int, 1int));
        assert(0 <= s.0 <= n && 0 <= s.1 <= n && 0 <= s.2 <= n);
        lemma_product_grows(s.0, n, n);
        lemma_product_grows(s.0 * n, n * n, n);
        lemma_product_grows(s.2, n, n);
    }

    /// After `item` has been added at `pos`, and where the index of `pos`
    /// is a valid one, `index` finds `pos` under the index that `add`
    /// returned, and `item` of that index is what was added.
    pub proof fn lemma_add_then_find(self, item: I, pos: Vec3<T>)
        requires
            self.add(item, pos).0 is Ok,
            self.index_valid(self.key(pos.ints())),
        ensures
            ({
                let (outcome, after) = self.add(item, pos);
                let k = outcome->Ok_0;
                &&& after.index(pos.ints()) == Some(k)
                &&& after.item(k) == Some(GridObject::at(pos, item))
                &&& after.item(k)->0.item_spec() == item
                &&& after.item(k)->0.position_spec() == pos
            }),
    {
        GridObject::lemma_parts(pos, item);
    }

    /// Once an item has been added at `pos`, a second `add` there is refused
    /// with `SpaceOccupied` and changes nothing.
    pub proof fn lemma_second_add_refused(self, first: I, second: I, pos: Vec3<T>)
        requires
            self.add(first, pos).0 is Ok,
        ensures
            ({
                let after = self.add(first, pos).1;
                after.add(second, pos) == (
                    Err::<usize, GridError<T>>(GridError::SpaceOccupied(pos)),
                    after,
                )
            }),
    {
    }

    /// Once the item added at `pos` has been removed through its index, and
    /// where that index is a valid one, `add` at `pos` succeeds again.
    pub proof fn lemma_add_after_remove(self, first: I, second: I, pos: Vec3<T>)
        requires
            self.add(first, pos).0 is Ok,
            self.index_valid(self.key(pos.ints())),
        ensures
            ({
                let (outcome, after) = self.add(first, pos);
                let k = outcome->Ok_0;
                let (removed, emptied) = after.remove(k);
                &&& removed
                &&& emptied.cells =~= self.cells
                &&& emptied.add(second, pos).0 == Ok::<usize, GridError<T>>(k)
            }),
    {
    }

    /// `add` at a position outside the bounds is refused with `OutOfBounds`
    /// and leaves the grid as it was.
    pub proof fn lemma_out_of_bounds_refused(self, item: I, pos: Vec3<T>)
        requires
            !self.in_bounds(pos.ints()),
        ensures
            self.add(item, pos) == (Err::<usize, GridError<T>>(GridError::OutOfBounds), self),
    {
    }

    /// `remove` at an index that is not valid, or whose cell is empty,
    /// returns false and changes nothing; and after any `remove` a second
    /// one at the same index is of that kind.
    pub proof fn lemma_remove_idempotent(self, i: usize)
        ensures
            !self.index_valid(i) || !self.cells.contains_key(i) ==> self.remove(i) == (false, self),
            !self.remove(i).0 ==> self.remove(i).1.len() == self.len(),
            self.remove(i).1.remove(i) == (false, self.remove(i).1),
    {
    }

    /// Two used cells one step apart along an axis, neither below zero on
    /// that axis, each have the other among their face neighbors.
    pub proof fn lemma_neighbor_symmetry(self, p: (int, int, int), q: (int, int, int))
        requires
            super::model::face_neighbors(p, q),
            steps_stay_non_negative(p, q),
            self.index(p) is Some,
            self.index(q) is Some,
        ensures
            self.neighbors(p, false).contains(self.index(q)->0),
            self.neighbors(q, false).contains(self.index(p)->0),
    {
        self.lemma_face_neighbor_listed(p, q);
        self.lemma_face_neighbor_listed(q, p);
    }

    /// A used cell one step from `p` along an axis, not below zero on that
    /// axis, is among the face neighbors of `p`.
    pub proof fn lemma_face_neighbor_listed(self, p: (int, int, int), q: (int, int, int))
        requires
            super::model::face_neighbors(p, q),
            steps_stay_non_negative(p, q),
            self.index(q) is Some,
        ensures
            self.neighbors(p, false).contains(self.index(q)->0),
    {
        let cands = super::model::cross_candidates(p);
        let j = choose|j: int| 0 <= j < cands.len() && cands[j] == q;
        assert(exists|j: int| 0 <= j < cands.len() && cands[j] == q) by {
            let up = seq![(p.0 + 1, p.1, p.2), (p.0, p.1 + 1, p.2), (p.0, p.1, p.2 + 1)];
            if q.0 == p.0 + 1 {
                assert(cands[0] == q);
            } else if q.1 == p.1 + 1 {
                assert(cands[1] == q);
            } else if q.2 == p.2 + 1 {
                assert(cands[2] == q);
            } else if q.0 == p.0 - 1 {
                assert(cands[3] == q);
            } else if q.1 == p.1 - 1 {
                let at = if p.0 >= 1 {
                    4int
                } else {
                    3int
                };
                assert(cands[at] == q);
            } else {
                let at = 3 + if p.0 >= 1 {
                    1int
                } else {
                    0int
                } + if p.1 >= 1 {
                    1int
                } else {
                    0int
                };
                assert(cands[at] == q);
            }
        }
        self.lemma_resolve_contains(cands, j);
    }
}

} // verus!
