//! The hash-map backed grid.
use super::error::GridError;
use super::grid_object::GridObject;
use super::model::GridModel;
use super::Grid3D;
use crate::base::{GridNum, OrdNum, PointIndex, Vec3};
use crate::geom::{BoundingBox, BoxCollider, Cube};
use std::collections::hash_map::Entry;
use std::collections::HashMap;
use vstd::prelude::*;

verus! {

broadcast use vstd::std_specs::hash::group_hash_axioms;

/// A sparse grid over a bounding box. Each position inside the box hashes to
/// a flat index, and each index holds at most one item.
#[verifier::reject_recursive_types(I)]
pub struct GridMap<I, T: GridNum> {
    items: HashMap<usize, GridObject<T, I>>,
    layout: Layout<T>,
}

/// What is fixed when a grid is made: the bounds and what hashing derives
/// from them.
struct Layout<T: GridNum> {
    bounds: BoundingBox<T>,
    max_index: usize,
    dimensions: Vec3<T>,
    hash_order: (usize, usize, usize),
    offset: Vec3<T>,
}

impl<T: GridNum> Layout<T> {
    /// The layout read as a grid without items.
    spec fn blank(self) -> GridModel<(), T> {
        GridModel {
            min: self.bounds.min_corner(),
            max: self.bounds.max_corner(),
            cells: Map::empty(),
        }
    }

    #[verifier::type_invariant]
    spec fn laid_out(self) -> bool {
        &&& self.blank().ordered()
        &&& self.dimensions.ints() == self.blank().extents()
        &&& self.offset.ints() == self.blank().offset()
        &&& (self.hash_order.0 as int, self.hash_order.1 as int, self.hash_order.2 as int)
            == self.blank().order()
        &&& self.max_index as int == self.blank().max_index()
    }
}

/// The axes (0 for x, 1 for y, 2 for z) from the largest extent to the
/// smallest.
pub fn get_hash_order(width: usize, height: usize, depth: usize) -> (r: (usize, usize, usize))
    ensures
        (r.0 as int, r.1 as int, r.2 as int) == super::model::hash_order_spec(
            width as int,
            height as int,
            depth as int,
        ),
{
    if width >= depth && width >= height {
        if height > depth {
            (0, 1, 2)
        } else {
            (0, 2, 1)
        }
    } else if depth >= width && depth >= height {
        if height > width {
            (2, 1, 0)
        } else {
            (2, 0, 1)
        }
    } else {
        if width > depth {
            (1, 0, 2)
        } else {
            (1, 2, 0)
        }
    }
}

/// Component `i` of `v`; every `i` other than 0 and 1 picks `z`.
fn axis<T: GridNum>(v: Vec3<T>, i: usize) -> (r: T)
    ensures
        r.as_int() == super::model::pick(v.ints(), i as int),
{
    if i == 0 {
        v.x
    } else if i == 1 {
        v.y
    } else {
        v.z
    }
}

/// The shift for a lower bound `m`: its absolute value where it is
/// negative, zero otherwise.
fn shift_for<T: GridNum>(m: T) -> (r: T)
    requires
        m.as_int() < 0 ==> -m.as_int() <= T::max_int(),
    ensures
        r.as_int() == super::model::shift_of(m.as_int()),
{
    if m.lt(T::zero()) {
        m.abs()
    } else {
        T::zero()
    }
}

impl<I, T: GridNum> View for GridMap<I, T> {
    type V = GridModel<I, T>;

    closed spec fn view(&self) -> GridModel<I, T> {
        GridModel {
            min: self.layout.bounds.min_corner(),
            max: self.layout.bounds.max_corner(),
            cells: self.items@,
        }
    }
}

impl<I, T: GridNum> GridMap<I, T> {
    /// Whether a grid can be laid out over the box from `min` to `max`: the
    /// extents are non-negative counts, the largest valid index fits a
    /// `usize`, and every negative lower bound has an absolute value.
    pub open spec fn constructible(min: Vec3<T>, max: Vec3<T>) -> bool {
        let m = GridModel::<I, T> { min, max, cells: Map::empty() };
        let (w, h, d) = m.extents();
        &&& 0 <= w <= T::max_int() && w <= usize::MAX
        &&& 0 <= h <= T::max_int() && h <= usize::MAX
        &&& 0 <= d <= T::max_int() && d <= usize::MAX
        &&& w * w <= usize::MAX
        &&& h + w * w <= usize::MAX
        &&& d * w <= usize::MAX
        &&& d * w * d <= usize::MAX
        &&& h + w * w + d * w * d <= usize::MAX
        &&& -min.x.as_int() <= T::max_int()
        &&& -min.y.as_int() <= T::max_int()
        &&& -min.z.as_int() <= T::max_int()
    }

    /// An empty grid over the box from `min` to `max`.
    pub fn new(min: Vec3<T>, max: Vec3<T>) -> (r: Self)
        requires
            Self::constructible(min, max),
        ensures
            r@ == (GridModel::<I, T> { min, max, cells: Map::empty() }),
    {
        Self::from_boundingbox(BoundingBox::new(min, max))
    }

    /// An empty grid over `bounds`.
    pub fn from_boundingbox(bounds: BoundingBox<T>) -> (r: Self)
        requires
            Self::constructible(bounds.min_corner(), bounds.max_corner()),
        ensures
            r@ == (GridModel::<I, T> {
                min: bounds.min_corner(),
                max: bounds.max_corner(),
                cells: Map::empty(),
            }),
    {
        proof {
            T::lemma_range(bounds.min_corner().x);
        }
        let width = bounds.width().to_usize().unwrap();
        let depth = bounds.depth().to_usize().unwrap();
        let height = bounds.height().to_usize().unwrap();
        let dimensions = Vec3::new(
            T::from_usize(width).unwrap(),
            T::from_usize(height).unwrap(),
            T::from_usize(depth).unwrap(),
        );
        let hash_order = get_hash_order(width, height, depth);
        let max_index = height + (width * width) + (depth * width * depth);
        let min = bounds.min();
        let offset = Vec3::new(shift_for(min.x), shift_for(min.y), shift_for(min.z));
        GridMap {
            items: HashMap::new(),
            layout: Layout { bounds, max_index, offset, dimensions, hash_order },
        }
    }

    /// The flat index of `pos`.
    pub fn hash(&self, pos: Vec3<T>) -> (r: PointIndex)
        requires
            self@.hash_defined(pos.ints()),
        ensures
            r@ == self@.key(pos.ints()),
            r@ == self@.hash(pos.ints()),
    {
        proof {
            use_type_invariant(&self.layout);
        }
        let point = Vec3::new(
            self.layout.offset.x.plus(pos.x),
            self.layout.offset.y.plus(pos.y),
            self.layout.offset.z.plus(pos.z),
        );
        let dim = self.layout.dimensions;
        let first = axis(point, self.layout.hash_order.0).times(axis(dim, self.layout.hash_order.0)).times(
            axis(dim, self.layout.hash_order.1),
        );
        let second = axis(point, self.layout.hash_order.1).times(axis(dim, self.layout.hash_order.1));
        let last = axis(point, self.layout.hash_order.2);
        PointIndex::new(first.plus(second).plus(last).to_usize().unwrap())
    }

    /// Whether `index` is at most the largest valid index.
    pub fn index_valid(&self, index: PointIndex) -> (b: bool)
        ensures
            b == self@.index_valid(index@),
    {
        proof {
            use_type_invariant(&self.layout);
        }
        index.index() <= self.layout.max_index
    }

    /// Whether `index` is valid and its cell holds an item.
    pub fn index_used(&self, index: PointIndex) -> (b: bool)
        ensures
            b == self@.index_used(index@),
    {
        if self.index_valid(index) {
            let k = index.index();
            return self.items.contains_key(&k);
        }
        false
    }
}

impl<I, T: GridNum> GridMap<I, T> {
    /// The used cells among the face neighbors of `pos`.
    fn cross_neighbors(&self, pos: Vec3<T>) -> (r: Vec<PointIndex>)
        requires
            self@.probeable(pos.ints()),
            super::model::steppable::<T>(pos.ints(), false),
        ensures
            super::model::index_views(r@) == self@.resolve(
                super::model::cross_candidates(pos.ints()),
            ),
    {
        proof {
            T::lemma_range(pos.x);
            T::lemma_range(pos.y);
            T::lemma_range(pos.z);
        }
        let one = T::one();
        let mut neighbors: Vec<Vec3<T>> = Vec::new();
        neighbors.push(Vec3::new(pos.x.plus(one), pos.y, pos.z));
        neighbors.push(Vec3::new(pos.x, pos.y.plus(one), pos.z));
        neighbors.push(Vec3::new(pos.x, pos.y, pos.z.plus(one)));
        if one.le(pos.x) {
            neighbors.push(Vec3::new(pos.x.minus(one), pos.y, pos.z));
        }
        if one.le(pos.y) {
            neighbors.push(Vec3::new(pos.x, pos.y.minus(one), pos.z));
        }
        if one.le(pos.z) {
            neighbors.push(Vec3::new(pos.x, pos.y, pos.z.minus(one)));
        }
        let ghost cands = super::model::cross_candidates(pos.ints());
        assert(neighbors.len() == cands.len());
        assert(forall|j: int| 0 <= j < cands.len() ==> (#[trigger] neighbors[j]).ints() == cands[j]);
        assert(forall|j: int| 0 <= j < cands.len() ==> super::model::near(pos.ints(), #[trigger] cands[j]));
        let mut array: Vec<PointIndex> = Vec::new();
        let mut k: usize = 0;
        assert(cands.take(0) =~= Seq::empty());
        while k < neighbors.len()
            invariant
                k <= neighbors.len(),
                neighbors.len() == cands.len(),
                self@.probeable(pos.ints()),
                forall|j: int| 0 <= j < cands.len() ==> (#[trigger] neighbors[j]).ints() == cands[j],
                forall|j: int|
                    0 <= j < cands.len() ==> super::model::near(pos.ints(), #[trigger] cands[j]),
                super::model::index_views(array@) == self@.resolve(cands.take(k as int)),
            decreases neighbors.len() - k,
        {
            let n = neighbors[k];
            let ghost before = array@;
            assert(super::model::near(pos.ints(), cands[k as int]));
            let item = self.index(n);
            if let Some(index) = item {
                array.push(index);
            }
            proof {
                let next = cands.take(k as int + 1);
                assert(next.drop_last() =~= cands.take(k as int));
                assert(next.last() == cands[k as int]);
                match item {
                    Some(index) => {
                        assert(super::model::index_views(array@) =~= super::model::index_views(
                            before,
                        ).push(index@));
                    },
                    None => {},
                }
            }
            k += 1;
        }
        assert(cands.take(k as int) =~= cands);
        array
    }

    /// The used cells in the block around `pos`.
    fn diag_neighbors(&self, pos: Vec3<T>) -> (r: Vec<PointIndex>)
        requires
            self@.probeable(pos.ints()),
            super::model::steppable::<T>(pos.ints(), true),
        ensures
            super::model::index_views(r@) == self@.resolve(
                super::model::diag_candidates(pos.ints()),
            ),
    {
        proof {
            T::lemma_range(pos.x);
            T::lemma_range(pos.y);
            T::lemma_range(pos.z);
        }
        let zero = T::zero();
        let one = T::one();
        let min_x = if pos.x.le(zero) {
            0
        } else {
            pos.x.minus(one).to_usize().unwrap()
        };
        let max_x = pos.x.plus(one).to_usize().unwrap();
        let min_y = if pos.y.le(zero) {
            0
        } else {
            pos.y.minus(one).to_usize().unwrap()
        };
        let max_y = pos.y.plus(one).to_usize().unwrap();
        let min_z = if pos.z.le(zero) {
            0
        } else {
            pos.z.minus(one).to_usize().unwrap()
        };
        let max_z = pos.z.plus(one).to_usize().unwrap();

        let ghost center = pos.ints();
        let ghost mut cands: Seq<(int, int, int)> = Seq::empty();
        let mut array: Vec<PointIndex> = Vec::new();
        let mut x: usize = min_x;
        assert(super::model::index_views(array@) =~= Seq::empty());
        while x < max_x + 1
            invariant
                min_x <= x <= max_x + 1,
                self@.probeable(center),
                center == pos.ints(),
                min_x == super::model::block_start(center.0),
                max_x == center.0 + 1,
                min_y == super::model::block_start(center.1),
                max_y == center.1 + 1,
                min_z == super::model::block_start(center.2),
                max_z == center.2 + 1,
                max_x < usize::MAX && max_y < usize::MAX && max_z < usize::MAX,
                max_x <= T::max_int() && max_y <= T::max_int() && max_z <= T::max_int(),
                cands == super::model::block(
                    min_x as int,
                    x as int,
                    min_y as int,
                    max_y + 1,
                    min_z as int,
                    max_z + 1,
                    center,
                ),
                super::model::index_views(array@) == self@.resolve(cands),
            decreases max_x + 1 - x,
        {
            let ghost done_x = cands;
            let mut y: usize = min_y;
            assert(done_x + Seq::<(int, int, int)>::empty() =~= done_x);
            while y < max_y + 1
                invariant
                    min_x <= x <= max_x,
                    min_y <= y <= max_y + 1,
                    self@.probeable(center),
                    center == pos.ints(),
                    min_x == super::model::block_start(center.0),
                    max_x == center.0 + 1,
                    min_y == super::model::block_start(center.1),
                    max_y == center.1 + 1,
                    min_z == super::model::block_start(center.2),
                    max_z == center.2 + 1,
                    max_x < usize::MAX && max_y < usize::MAX && max_z < usize::MAX,
                    max_x <= T::max_int() && max_y <= T::max_int() && max_z <= T::max_int(),
                    cands == done_x + super::model::slab(
                        x as int,
                        min_y as int,
                        y as int,
                        min_z as int,
                        max_z + 1,
                        center,
                    ),
                    super::model::index_views(array@) == self@.resolve(cands),
                decreases max_y + 1 - y,
            {
                let ghost done_y = cands;
                let mut z: usize = min_z;
                assert(done_y + Seq::<(int, int, int)>::empty() =~= done_y);
                while z < max_z + 1
                    invariant
                        min_x <= x <= max_x,
                        min_y <= y <= max_y,
                        min_z <= z <= max_z + 1,
                        self@.probeable(center),
                        center == pos.ints(),
                        min_x == super::model::block_start(center.0),
                        max_x == center.0 + 1,
                        min_y == super::model::block_start(center.1),
                        max_y == center.1 + 1,
                        min_z == super::model::block_start(center.2),
                        max_z == center.2 + 1,
                        max_x < usize::MAX && max_y < usize::MAX && max_z < usize::MAX,
                        max_x <= T::max_int() && max_y <= T::max_int() && max_z <= T::max_int(),
                        cands == done_y + super::model::row(
                            x as int,
                            y as int,
                            min_z as int,
                            z as int,
                            center,
                        ),
                        super::model::index_views(array@) == self@.resolve(cands),
                    decreases max_z + 1 - z,
                {
                    let p = Vec3::new(
                        T::from_usize(x).unwrap(),
                        T::from_usize(y).unwrap(),
                        T::from_usize(z).unwrap(),
                    );
                    let ghost q = (x as int, y as int, z as int);
                    let ghost row_before = super::model::row(
                        x as int,
                        y as int,
                        min_z as int,
                        z as int,
                        center,
                    );
                    proof {
                        if p.ints() == pos.ints() {
                            Vec3::lemma_ints_injective(p, pos);
                        }
                    }
                    if !p.same(pos) {
                        let ghost before = array@;
                        assert(super::model::near(center, q));
                        let item = self.index(p);
                        if let Some(index) = item {
                            array.push(index);
                        }
                        proof {
                            let grown = cands.push(q);
                            assert(grown.drop_last() =~= cands);
                            assert(grown.last() == q);
                            assert(done_y + row_before.push(q) =~= grown);
                            match item {
                                Some(index) => {
                                    assert(super::model::index_views(array@)
                                        =~= super::model::index_views(before).push(index@));
                                },
                                None => {},
                            }
                            cands = grown;
                        }
                    }
                    z += 1;
                }
                proof {
                    let full_row = super::model::row(
                        x as int,
                        y as int,
                        min_z as int,
                        max_z + 1,
                        center,
                    );
                    let slab_before = super::model::slab(
                        x as int,
                        min_y as int,
                        y as int,
                        min_z as int,
                        max_z + 1,
                        center,
                    );
                    assert(done_x + (slab_before + full_row) =~= (done_x + slab_before) + full_row);
                }
                y += 1;
            }
            x += 1;
        }
        array
    }
}

impl<I, T: GridNum> Cube<T> for GridMap<I, T> {
    open spec fn min_corner(&self) -> Vec3<T> {
        self@.min
    }

    open spec fn max_corner(&self) -> Vec3<T> {
        self@.max
    }

    fn min(&self) -> (r: Vec3<T>) {
        self.layout.bounds.min()
    }

    fn max(&self) -> (r: Vec3<T>) {
        self.layout.bounds.max()
    }
}

impl<I, T: GridNum> BoxCollider<T> for GridMap<I, T> {
    fn intersects<C: Cube<T>>(&self, other: &C) -> (b: bool) {
        self.layout.bounds.intersects(other)
    }

    fn contains<C: Cube<T>>(&self, other: &C) -> (b: bool) {
        self.layout.bounds.contains(other)
    }

    fn contains_point(&self, pos: Vec3<T>) -> (b: bool) {
        self.layout.bounds.contains_point(pos)
    }
}

impl<I, T: GridNum> Grid3D<I, T> for GridMap<I, T> {
    open spec fn model(&self) -> GridModel<I, T> {
        self@
    }

    fn add(&mut self, item: I, pos: Vec3<T>) -> (r: Result<PointIndex, GridError<T>>) {
        if !self.contains_point(pos) {
            return Err(GridError::OutOfBounds);
        }
        let i = self.hash(pos);
        let k = i.index();
        if !self.items.contains_key(&k) {
            self.items.insert(k, GridObject::new(pos, item));
            return Ok(i);
        }
        Err(GridError::SpaceOccupied(pos))
    }

    fn remove(&mut self, index: PointIndex) -> (b: bool) {
        if self.index_valid(index) && self.index_used(index) {
            let k = index.index();
            self.items.remove(&k);
            return true;
        }
        false
    }

    fn index(&self, pos: Vec3<T>) -> (r: Option<PointIndex>) {
        if !self.contains_point(pos) {
            return None;
        }
        let i = self.hash(pos);
        if self.index_used(i) {
            return Some(i);
        }
        None
    }

    fn len(&self) -> (n: usize) {
        self.items.len()
    }

    fn item(&self, index: PointIndex) -> (r: Option<&GridObject<T, I>>) {
        if self.index_valid(index) {
            let k = index.index();
            return self.items.get(&k);
        }
        None
    }

    fn item_mut(&mut self, index: PointIndex) -> (r: Option<&mut GridObject<T, I>>) {
        if self.index_valid(index) {
            let k = index.index();
            let ghost before = self.items@;
            return match self.items.entry(k) {
                Entry::Occupied(e) => Some(e.into_mut()),
                Entry::Vacant(_) => {
                    assert(before.remove(k) =~= before);
                    None
                },
            };
        }
        None
    }

    fn items(&self) -> (r: Vec<&GridObject<T, I>>) {
        let mut items: Vec<&GridObject<T, I>> = Vec::new();
        let ghost all = vstd::std_specs::iter::IteratorSpec::remaining(
            &vstd::std_specs::hash::spec_hash_map_iter(&self.items),
        );
        for pair in it: self.items.iter()
            invariant
                it.seq() == all,
                all.no_duplicates(),
                items.len() == it.index(),
                forall|j: int| 0 <= j < items.len() ==> *items[j] == *(#[trigger] all[j]).1,
        {
            items.push(pair.1);
        }
        proof {
            let keys = Seq::new(all.len(), |j: int| *all[j].0);
            assert forall|a: int, b: int|
                0 <= a < keys.len() && 0 <= b < keys.len() && a != b implies keys[a] != keys[b] by {
                if keys[a] == keys[b] {
                    assert(self.items@[*all[a].0] == *all[a].1);
                    assert(self.items@[*all[b].0] == *all[b].1);
                    assert(all[a] == all[b]);
                }
            }
            assert(keys.to_set() =~= self.items@.dom()) by {
                assert forall|k: usize| self.items@.dom().contains(k) implies keys.to_set().contains(
                    k,
                ) by {
                    let pair = (&k, &self.items@[k]);
                    assert(all.contains(pair));
                    let j = choose|j: int| 0 <= j < all.len() && all[j] == pair;
                    assert(keys[j] == k);
                }
                assert forall|k: usize| keys.to_set().contains(k) implies self.items@.dom().contains(
                    k,
                ) by {
                    let j = choose|j: int| 0 <= j < keys.len() && keys[j] == k;
                    assert(self.items@.contains_key(*all[j].0));
                }
            }
            assert forall|j: int| 0 <= j < items.len() implies *items[j] == self.items@[#[trigger] keys[j]] by {
                assert(self.items@[*all[j].0] == *all[j].1);
            }
        }
        items
    }

    fn neighbors(&self, pos: Vec3<T>, diagonal: bool) -> (r: Vec<PointIndex>) {
        if diagonal {
            self.diag_neighbors(pos)
        } else {
            self.cross_neighbors(pos)
        }
    }
}

} // verus!
