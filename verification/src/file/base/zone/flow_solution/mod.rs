//! Based on: <https://cgns.github.io/CGNS_docs_current/midlevel/solution.html>
pub mod field;

use vstd::prelude::*;

use super::Zone;
use crate::errors::CGNSError;
use crate::traits::CGNSNode;
use crate::types::GridLocation;
use crate::utils::{bytes2string, is_name_read_error, spec_bytes2string};

verus! {

/// CGNS node `FlowSolution_t`
pub struct FlowSolution<'a> {
    pub name: String,
    pub grid_location: GridLocation,
    id: i32,
    pub zone: &'a Zone<'a>,
}

/// What a [`FlowSolution`] holds, the zone aside.
pub struct FlowSolutionView {
    pub name: Seq<char>,
    pub grid_location: GridLocation,
    pub id: i32,
}

impl<'a> View for FlowSolution<'a> {
    type V = FlowSolutionView;

    closed spec fn view(&self) -> FlowSolutionView {
        FlowSolutionView { name: self.name@, grid_location: self.grid_location, id: self.id }
    }
}

impl<'a> FlowSolution<'a> {
    /// The zone that holds the solution.
    pub closed spec fn spec_zone(&self) -> &'a Zone<'a> {
        self.zone
    }

    /// The solution number `id` of `zone`, from what the library read of it.
    pub fn from_raw(zone: &'a Zone<'a>, id: i32, name: &[u8], grid_location: GridLocation) -> (r:
        Result<Self, CGNSError>)
        requires
            name@.len() > 0,
        ensures
            r is Ok <==> spec_bytes2string(name@) is Ok,
            r matches Ok(s) ==> {
                &&& spec_bytes2string(name@) == Ok::<Seq<char>, ()>(s@.name)
                &&& s@.grid_location == grid_location
                &&& s@.id == id
                &&& s.spec_zone() == zone
            },
            r matches Err(e) ==> is_name_read_error(name@, e),
    {
        match bytes2string(name) {
            Ok(name) => Ok(FlowSolution { name, grid_location, id, zone }),
            Err(e) => Err(e),
        }
    }
}

impl<'a> CGNSNode<'a> for FlowSolution<'a> {
    type Parent = Zone<'a>;

    fn id(&self) -> (r: i32)
        ensures
            r == self@.id,
    {
        self.id
    }

    fn parent(&self) -> (r: &Self::Parent)
        ensures
            r == self.spec_zone(),
    {
        self.zone
    }
}

} // verus!
