//! The sparse grid: lattice positions hashed to flat indices, at most one
//! item per cell.
pub mod error;
pub mod grid_map;
pub mod grid_object;
pub mod laws;
pub mod model;

pub use error::GridError;
pub use grid_map::GridMap;
pub use grid_object::GridObject;
pub use model::GridModel;

use crate::base::{GridNum, PointIndex, Vec3};
use crate::geom::Cube;
use vstd::prelude::*;

verus! {

/// A grid over three dimensions that holds at most one item per cell.
///
/// Every operation is stated over the grid's model. Positions handed to an
/// operation must hash without leaving the range of `T` wherever the
/// operation hashes them, that is wherever they lie inside the bounds.
pub trait Grid3D<I, T: GridNum>: Cube<T> {
    /// The grid as a mathematical value.
    spec fn model(&self) -> GridModel<I, T>;

    /// Places `item` at `pos`. Refuses with `OutOfBounds` where `pos` lies
    /// outside the bounds, with `SpaceOccupied` where its cell is taken, and
    /// leaves the grid as it was in both cases.
    fn add(&mut self, item: I, pos: Vec3<T>) -> (r: Result<PointIndex, GridError<T>>)
        requires
            old(self).model().in_bounds(pos.ints()) ==> old(self).model().hash_defined(pos.ints()),
        ensures
            final(self).model() == old(self).model().add(item, pos).1,
            match r {
                Ok(i) => old(self).model().add(item, pos).0 == Ok::<usize, GridError<T>>(i@),
                Err(e) => old(self).model().add(item, pos).0 == Err::<usize, GridError<T>>(e),
            },
    ;

    /// Empties the cell `index` and says whether it held anything: `true`
    /// exactly when `index` is valid and its cell was used.
    fn remove(&mut self, index: PointIndex) -> (b: bool)
        ensures
            b == old(self).model().remove(index@).0,
            final(self).model() == old(self).model().remove(index@).1,
    ;

    /// The index of `pos` where its cell is used; `None` for an empty cell
    /// and for a position outside the bounds alike.
    fn index(&self, pos: Vec3<T>) -> (r: Option<PointIndex>)
        requires
            self.model().in_bounds(pos.ints()) ==> self.model().hash_defined(pos.ints()),
        ensures
            match r {
                Some(i) => self.model().index(pos.ints()) == Some(i@),
                None => self.model().index(pos.ints()) is None,
            },
    ;

    /// The number of used cells.
    fn len(&self) -> (n: usize)
        ensures
            n == self.model().len(),
    ;

    /// What the cell `index` holds; `None` where `index` is not valid or the
    /// cell is empty.
    fn item(&self, index: PointIndex) -> (r: Option<&GridObject<T, I>>)
        ensures
            match r {
                Some(o) => self.model().item(index@) == Some(*o),
                None => self.model().item(index@) is None,
            },
    ;

    /// The same cell for writing. What the caller leaves in the returned
    /// object is what the cell holds afterwards.
    fn item_mut(&mut self, index: PointIndex) -> (r: Option<&mut GridObject<T, I>>)
        ensures
            match r {
                Some(o) => {
                    &&& old(self).model().item(index@) == Some(*o)
                    &&& final(self).model() == (GridModel {
                        cells: old(self).model().cells.insert(index@, *final(o)),
                        ..old(self).model()
                    })
                },
                None => {
                    &&& old(self).model().item(index@) is None
                    &&& final(self).model() == old(self).model()
                },
            },
    ;

    /// What the used cells hold, each cell once, in no particular order.
    fn items(&self) -> (r: Vec<&GridObject<T, I>>)
        ensures
            r.len() == self.model().len(),
            exists|keys: Seq<usize>|
                {
                    &&& keys.no_duplicates()
                    &&& keys.to_set() == self.model().cells.dom()
                    &&& keys.len() == r.len()
                    &&& forall|j: int|
                        0 <= j < r.len() ==> *r[j] == self.model().cells[#[trigger] keys[j]]
                },
    ;

    /// The indices of the used cells next to `pos`: with `diagonal` those of
    /// the whole block around `pos`, without it those one step away along
    /// an axis. No candidate has a negative coordinate.
    fn neighbors(&self, pos: Vec3<T>, diagonal: bool) -> (r: Vec<PointIndex>)
        requires
            self.model().probeable(pos.ints()),
            model::steppable::<T>(pos.ints(), diagonal),
        ensures
            model::index_views(r@) == self.model().neighbors(pos.ints(), diagonal),
    ;
}

} // verus!
