//! Based on: <https://cgns.github.io/CGNS_docs_current/midlevel/grid.html#gridcoordinates>
pub mod coords;

use vstd::prelude::*;

use super::Zone;
use crate::errors::{CGNSError, OtherError};
use crate::traits::CGNSNode;
use crate::utils::{bytes2string, is_name_read_error, spec_bytes2string};

verus! {

/// CGNS node `GridCoordinates_t`
pub struct GridCoordinates<'a> {
    pub name: String,
    id: i32,
    zone: &'a Zone<'a>,
}

/// What a [`GridCoordinates`] holds, the zone aside.
pub struct GridCoordinatesView {
    pub name: Seq<char>,
    pub id: i32,
}

impl<'a> View for GridCoordinates<'a> {
    type V = GridCoordinatesView;

    closed spec fn view(&self) -> GridCoordinatesView {
        GridCoordinatesView { name: self.name@, id: self.id }
    }
}

impl<'a> GridCoordinates<'a> {
    /// The zone that holds the coordinates.
    pub closed spec fn spec_zone(&self) -> &'a Zone<'a> {
        self.zone
    }

    /// The grid coordinates number `id` of `zone`, from what the library read
    /// of them.
    pub fn from_raw(zone: &'a Zone<'a>, id: i32, name: &[u8]) -> (r: Result<Self, CGNSError>)
        requires
            name@.len() > 0,
        ensures
            r is Ok <==> spec_bytes2string(name@) is Ok,
            r matches Ok(g) ==> {
                &&& spec_bytes2string(name@) == Ok::<Seq<char>, ()>(g@.name)
                &&& g@.id == id
                &&& g.spec_zone() == zone
            },
            r matches Err(e) ==> is_name_read_error(name@, e),
    {
        match bytes2string(name) {
            Ok(name) => Ok(GridCoordinates { name, id, zone }),
            Err(e) => Err(e),
        }
    }

    /// The grid coordinates that the library wrote under the ID `id`.
    pub fn new(zone: &'a Zone<'a>, name: String, id: i32) -> (r: Self)
        ensures
            r@ == (GridCoordinatesView { name: name@, id }),
            r.spec_zone() == zone,
    {
        GridCoordinates { name, id, zone }
    }

    /// The mid-level library reads the coordinates of the first
    /// `GridCoordinates_t` node of a zone only: the children of any other
    /// one cannot be read.
    pub fn check_children_readable(&self) -> (r: Result<(), CGNSError>)
        ensures
            r is Ok <==> self@.id <= 1,
            r matches Err(e) ==> e == CGNSError::Other(OtherError::SingleGridCoordinates),
    {
        if self.id > 1 {
            return Err(CGNSError::Other(OtherError::SingleGridCoordinates));
        }
        Ok(())
    }
}

impl<'a> CGNSNode<'a> for GridCoordinates<'a> {
    type Parent = Zone<'a>;

    fn id(&self) -> (r: i32)
        ensures
            r == self@.id,
    {
        self.id
    }

    fn parent(&self) -> (r: &Self::Parent)
        ensures
            r == self.spec_zone(),
    {
        self.zone
    }
}

} // verus!
