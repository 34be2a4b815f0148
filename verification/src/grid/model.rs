//! The grid as a mathematical value: its bounds, the cell each position
//! falls in, and what the cells hold.
use super::error::GridError;
use super::grid_object::GridObject;
use crate::base::{GridNum, Vec3};
use vstd::prelude::*;

verus! {

/// Component `i` of a triple; every `i` other than 0 and 1 picks the last.
pub open spec fn pick(t: (int, int, int), i: int) -> int {
    if i == 0 {
        t.0
    } else if i == 1 {
        t.1
    } else {
        t.2
    }
}

/// The axes (0 for x, 1 for y, 2 for z) from the largest extent to the
/// smallest. The first is x where the width is at least both other extents,
/// else z where the depth is at least both others, else y.
pub open spec fn hash_order_spec(width: int, height: int, depth: int) -> (int, int, int) {
    if width >= depth && width >= height {
        if height > depth {
            (0, 1, 2)
        } else {
            (0, 2, 1)
        }
    } else if depth >= width && depth >= height {
        if height > width {
            (2, 1, 0)
        } else {
            (2, 0, 1)
        }
    } else {
        if width > depth {
            (1, 0, 2)
        } else {
            (1, 2, 0)
        }
    }
}

/// The shift that brings a lower bound `m` to a non-negative coordinate.
pub open spec fn shift_of(m: int) -> int {
    if m < 0 {
        -m
    } else {
        0
    }
}

/// Whether `p` and `q` differ by at most one on every axis.
pub open spec fn near(p: (int, int, int), q: (int, int, int)) -> bool {
    &&& -1 <= q.0 - p.0 <= 1
    &&& -1 <= q.1 - p.1 <= 1
    &&& -1 <= q.2 - p.2 <= 1
}

/// Whether `p` and `q` differ by exactly one on exactly one axis.
pub open spec fn face_neighbors(p: (int, int, int), q: (int, int, int)) -> bool {
    ||| (q.0 - p.0 == 1 || p.0 - q.0 == 1) && p.1 == q.1 && p.2 == q.2
    ||| p.0 == q.0 && (q.1 - p.1 == 1 || p.1 - q.1 == 1) && p.2 == q.2
    ||| p.0 == q.0 && p.1 == q.1 && (q.2 - p.2 == 1 || p.2 - q.2 == 1)
}

/// The first coordinate a block around `c` starts at: one below `c`, but
/// never below zero.
pub open spec fn block_start(c: int) -> int {
    if c <= 0 {
        0
    } else {
        c - 1
    }
}

/// The cells `(x, y, z)` for `z` from `z_start` up to but not including
/// `z_end`, without `center`.
pub open spec fn row(x: int, y: int, z_start: int, z_end: int, center: (int, int, int)) -> Seq<
    (int, int, int),
>
    decreases z_end - z_start,
{
    if z_end <= z_start {
        Seq::empty()
    } else {
        let before = row(x, y, z_start, z_end - 1, center);
        if (x, y, z_end - 1) == center {
            before
        } else {
            before.push((x, y, z_end - 1))
        }
    }
}

/// The rows for `y` from `y_start` up to but not including `y_end`, one
/// after the other.
pub open spec fn slab(
    x: int,
    y_start: int,
    y_end: int,
    z_start: int,
    z_end: int,
    center: (int, int, int),
) -> Seq<(int, int, int)>
    decreases y_end - y_start,
{
    if y_end <= y_start {
        Seq::empty()
    } else {
        slab(x, y_start, y_end - 1, z_start, z_end, center) + row(
            x,
            y_end - 1,
            z_start,
            z_end,
            center,
        )
    }
}

/// The slabs for `x` from `x_start` up to but not including `x_end`, one
/// after the other.
pub open spec fn block(
    x_start: int,
    x_end: int,
    y_start: int,
    y_end: int,
    z_start: int,
    z_end: int,
    center: (int, int, int),
) -> Seq<(int, int, int)>
    decreases x_end - x_start,
{
    if x_end <= x_start {
        Seq::empty()
    } else {
        block(x_start, x_end - 1, y_start, y_end, z_start, z_end, center) + slab(
            x_end - 1,
            y_start,
            y_end,
            z_start,
            z_end,
            center,
        )
    }
}

/// The cells around `p` that a diagonal query looks at: the block of up to
/// three cells per axis around `p`, cut off below zero, without `p` itself,
/// with x varying slowest and z fastest.
pub open spec fn diag_candidates(p: (int, int, int)) -> Seq<(int, int, int)> {
    block(
        block_start(p.0),
        p.0 + 2,
        block_start(p.1),
        p.1 + 2,
        block_start(p.2),
        p.2 + 2,
        p,
    )
}

/// The cells around `p` that a face query looks at: one step up on each
/// axis, then one step down on each axis where `p` is at least one.
pub open spec fn cross_candidates(p: (int, int, int)) -> Seq<(int, int, int)> {
    let up = seq![(p.0 + 1, p.1, p.2), (p.0, p.1 + 1, p.2), (p.0, p.1, p.2 + 1)];
    let dx = if p.0 >= 1 {
        up.push((p.0 - 1, p.1, p.2))
    } else {
        up
    };
    let dy = if p.1 >= 1 {
        dx.push((p.0, p.1 - 1, p.2))
    } else {
        dx
    };
    if p.2 >= 1 {
        dy.push((p.0, p.1, p.2 - 1))
    } else {
        dy
    }
}

/// The numbers of a sequence of indices.
pub open spec fn index_views(s: Seq<crate::base::PointIndex>) -> Seq<usize> {
    Seq::new(s.len(), |j: int| s[j]@)
}

/// Whether a neighbor query at `p` can form its candidates in `T`: one step
/// up on every axis is representable, and for a diagonal query the upper
/// end of the block is a count.
pub open spec fn steppable<T: GridNum>(p: (int, int, int), diagonal: bool) -> bool {
    &&& p.0 + 1 <= T::max_int() && p.1 + 1 <= T::max_int() && p.2 + 1 <= T::max_int()
    &&& diagonal ==> {
        &&& 0 <= p.0 + 1 && p.0 + 2 <= usize::MAX
        &&& 0 <= p.1 + 1 && p.1 + 2 <= usize::MAX
        &&& 0 <= p.2 + 1 && p.2 + 2 <= usize::MAX
    }
}

/// A grid as a value: the two corners of its bounds and what its cells hold,
/// keyed by flat index.
pub struct GridModel<I, T: GridNum> {
    pub min: Vec3<T>,
    pub max: Vec3<T>,
    pub cells: Map<usize, GridObject<T, I>>,
}

impl<I, T: GridNum> GridModel<I, T> {
    /// The extents of the bounds along x, y and z: width, height and depth.
    pub open spec fn extents(self) -> (int, int, int) {
        (
            self.max.x.as_int() - self.min.x.as_int(),
            self.max.y.as_int() - self.min.y.as_int(),
            self.max.z.as_int() - self.min.z.as_int(),
        )
    }

    /// The shift applied to a position before it is hashed.
    pub open spec fn offset(self) -> (int, int, int) {
        (
            shift_of(self.min.x.as_int()),
            shift_of(self.min.y.as_int()),
            shift_of(self.min.z.as_int()),
        )
    }

    /// The axes in hashing order.
    pub open spec fn order(self) -> (int, int, int) {
        hash_order_spec(self.extents().0, self.extents().1, self.extents().2)
    }

    /// The largest index that counts as valid:
    /// height + width² + depth·width·depth.
    pub open spec fn max_index(self) -> int {
        let (w, h, d) = self.extents();
        h + w * w + d * w * d
    }

    /// Whether the bounds have a non-negative extent on every axis.
    pub open spec fn ordered(self) -> bool {
        &&& self.extents().0 >= 0
        &&& self.extents().1 >= 0
        &&& self.extents().2 >= 0
    }

    /// `p` moved by the offset.
    pub open spec fn shifted(self, p: (int, int, int)) -> (int, int, int) {
        (p.0 + self.offset().0, p.1 + self.offset().1, p.2 + self.offset().2)
    }

    /// The flat index of `p`: with the axes a, b, c in hashing order and s
    /// the shifted position, s[a]·extent[a]·extent[b] + s[b]·extent[b] + s[c].
    pub open spec fn hash(self, p: (int, int, int)) -> int {
        let s = self.shifted(p);
        let e = self.extents();
        let (a, b, c) = self.order();
        pick(s, a) * pick(e, a) * pick(e, b) + pick(s, b) * pick(e, b) + pick(s, c)
    }

    /// Whether the hash of `p` can be computed in `T` step by step and then
    /// taken as a `usize`.
    pub open spec fn hash_defined(self, p: (int, int, int)) -> bool {
        let s = self.shifted(p);
        let e = self.extents();
        let (a, b, c) = self.order();
        let lo = T::min_int();
        let hi = T::max_int();
        &&& lo <= s.0 <= hi
        &&& lo <= s.1 <= hi
        &&& lo <= s.2 <= hi
        &&& lo <= pick(s, a) * pick(e, a) <= hi
        &&& lo <= pick(s, a) * pick(e, a) * pick(e, b) <= hi
        &&& lo <= pick(s, b) * pick(e, b) <= hi
        &&& lo <= pick(s, a) * pick(e, a) * pick(e, b) + pick(s, b) * pick(e, b) <= hi
        &&& lo <= self.hash(p) <= hi
        &&& 0 <= self.hash(p) <= usize::MAX
    }

    /// The flat index of `p` as a key of the store.
    pub open spec fn key(self, p: (int, int, int)) -> usize {
        self.hash(p) as usize
    }

    /// Whether `p` lies inside the bounds, borders included.
    pub open spec fn in_bounds(self, p: (int, int, int)) -> bool {
        crate::geom::collider::spans_point(self.min.ints(), self.max.ints(), p)
    }

    /// Whether `i` is at most the largest valid index.
    pub open spec fn index_valid(self, i: usize) -> bool {
        i <= self.max_index()
    }

    /// Whether `i` is valid and its cell holds an item.
    pub open spec fn index_used(self, i: usize) -> bool {
        self.index_valid(i) && self.cells.contains_key(i)
    }

    /// The index of `p` where `p` is inside the bounds and its cell is used.
    pub open spec fn index(self, p: (int, int, int)) -> Option<usize> {
        if self.in_bounds(p) && self.index_used(self.key(p)) {
            Some(self.key(p))
        } else {
            None
        }
    }

    /// What the cell `i` holds, where `i` is valid and the cell is used.
    pub open spec fn item(self, i: usize) -> Option<GridObject<T, I>> {
        if self.index_used(i) {
            Some(self.cells[i])
        } else {
            None
        }
    }

    /// The number of cells that hold an item.
    pub open spec fn len(self) -> nat {
        self.cells.len()
    }

    /// The outcome of adding `item` at `pos`, and the grid afterwards.
    pub open spec fn add(self, item: I, pos: Vec3<T>) -> (Result<usize, GridError<T>>, Self) {
        let k = self.key(pos.ints());
        if !self.in_bounds(pos.ints()) {
            (Err(GridError::OutOfBounds), self)
        } else if self.cells.contains_key(k) {
            (Err(GridError::SpaceOccupied(pos)), self)
        } else {
            (
                Ok(k),
                GridModel { cells: self.cells.insert(k, GridObject::at(pos, item)), ..self },
            )
        }
    }

    /// Whether removing at `i` removes something, and the grid afterwards.
    pub open spec fn remove(self, i: usize) -> (bool, Self) {
        if self.index_used(i) {
            (true, GridModel { cells: self.cells.remove(i), ..self })
        } else {
            (false, self)
        }
    }

    /// The indices of those of `cands` that resolve to a used cell, in the
    /// order of `cands`.
    pub open spec fn resolve(self, cands: Seq<(int, int, int)>) -> Seq<usize>
        decreases cands.len(),
    {
        if cands.len() == 0 {
            Seq::empty()
        } else {
            let before = self.resolve(cands.drop_last());
            match self.index(cands.last()) {
                Some(i) => before.push(i),
                None => before,
            }
        }
    }

    /// Whether every position next to `p` that lies inside the bounds can
    /// be hashed.
    pub open spec fn probeable(self, p: (int, int, int)) -> bool {
        forall|q: (int, int, int)|
            near(p, q) && #[trigger] self.in_bounds(q) ==> self.hash_defined(q)
    }

    /// What a neighbor query at `p` returns.
    pub open spec fn neighbors(self, p: (int, int, int), diagonal: bool) -> Seq<usize> {
        if diagonal {
            self.resolve(diag_candidates(p))
        } else {
            self.resolve(cross_candidates(p))
        }
    }
}

} // verus!
