//! Based on: <https://cgns.github.io/CGNS_docs_current/midlevel/grid.html#gridcoordinates>
use vstd::prelude::*;

use super::GridCoordinates;
use crate::errors::CGNSError;
use crate::file::base::zone::{seq_sum, sums_fit, zone_dim};
use crate::traits::CGNSNode;
use crate::types::DataType;
use crate::utils::{bytes2string, is_name_read_error, spec_bytes2string};

verus! {

/// CGNS node `DataArray_t` under a `GridCoordinates_t`
pub struct Coordinates<'a> {
    pub name: String,
    pub dtype: DataType,
    grid_coordinate: &'a GridCoordinates<'a>,
    id: i32,
}

/// What a [`Coordinates`] holds, the grid coordinates aside.
pub struct CoordinatesView {
    pub name: Seq<char>,
    pub dtype: DataType,
    pub id: i32,
}

impl<'a> View for Coordinates<'a> {
    type V = CoordinatesView;

    closed spec fn view(&self) -> CoordinatesView {
        CoordinatesView { name: self.name@, dtype: self.dtype, id: self.id }
    }
}

impl<'a> Coordinates<'a> {
    /// The grid coordinates that hold these coordinates.
    pub closed spec fn spec_grid_coordinate(&self) -> &'a GridCoordinates<'a> {
        self.grid_coordinate
    }

    /// The coordinates number `id` of `grid_coordinate`, from what the
    /// library read of them.
    pub fn from_raw(grid_coordinate: &'a GridCoordinates<'a>, id: i32, name: &[u8], dtype: DataType) -> (r:
        Result<Self, CGNSError>)
        requires
            name@.len() > 0,
        ensures
            r is Ok <==> spec_bytes2string(name@) is Ok,
            r matches Ok(c) ==> {
                &&& spec_bytes2string(name@) == Ok::<Seq<char>, ()>(c@.name)
                &&& c@.dtype == dtype
                &&& c@.id == id
                &&& c.spec_grid_coordinate() == grid_coordinate
            },
            r matches Err(e) ==> is_name_read_error(name@, e),
    {
        match bytes2string(name) {
            Ok(name) => Ok(Coordinates { name, dtype, id, grid_coordinate }),
            Err(e) => Err(e),
        }
    }

    /// Number of points whose coordinates are read: the total number of
    /// vertices of the zone.
    pub fn point_count(&self) -> (r: i64)
        requires
            ({
                let zone = self.spec_grid_coordinate().spec_zone();
                let d = zone_dim(zone@.ztype, zone.spec_base()@.cell_dim);
                &&& sums_fit(zone@.raw_size.subrange(0, d))
                &&& sums_fit(zone@.raw_size.subrange(d, 2 * d))
                &&& sums_fit(zone@.raw_size.subrange(2 * d, 3 * d))
            }),
        ensures
            ({
                let zone = self.spec_grid_coordinate().spec_zone();
                let d = zone_dim(zone@.ztype, zone.spec_base()@.cell_dim);
                r == seq_sum(zone@.raw_size.subrange(0, d))
            }),
    {
        self.grid_coordinate.zone.total_size().vertices
    }
}

impl<'a> CGNSNode<'a> for Coordinates<'a> {
    type Parent = GridCoordinates<'a>;

    fn id(&self) -> (r: i32)
        ensures
            r == self@.id,
    {
        self.id
    }

    fn parent(&self) -> (r: &Self::Parent)
        ensures
            r == self.spec_grid_coordinate(),
    {
        self.grid_coordinate
    }
}

} // verus!
