//! Based on: <https://cgns.github.io/CGNS_docs_current/midlevel/solution.html#flowsolution_array>
use vstd::prelude::*;

use super::FlowSolution;
use crate::errors::CGNSError;
use crate::file::base::zone::zone_dim;
use crate::traits::CGNSNode;
use crate::types::{DataType, GridLocation};
use crate::utils::{bytes2string, copy_from_partial_slice, is_name_read_error, spec_bytes2string};

verus! {

/// CGNS node `DataArray_t` under a `FlowSolution_t`
pub struct Field<'a> {
    pub name: String,
    pub datatype: DataType,
    id: i32,
    flow_solution: &'a FlowSolution<'a>,
}

/// What a [`Field`] holds, the solution aside.
pub struct FieldView {
    pub name: Seq<char>,
    pub datatype: DataType,
    pub id: i32,
}

impl<'a> View for Field<'a> {
    type V = FieldView;

    closed spec fn view(&self) -> FieldView {
        FieldView { name: self.name@, datatype: self.datatype, id: self.id }
    }
}

/// The extent of a field located at `location` in a zone whose sizes are
/// `vertices` and `cells`: the size of the matching part, padded with ones
/// to three entries.
pub open spec fn field_extent(location: GridLocation, vertices: Seq<i64>, cells: Seq<i64>) -> Seq<
    i64,
> {
    let part = if location == GridLocation::Vertex {
        vertices
    } else {
        cells
    };
    part + Seq::new((3 - part.len()) as nat, |i: int| 1i64)
}

/// The extent of a field is the size of the part of the zone where its
/// values lie (the vertex sizes for vertex fields, the cell sizes for
/// cell-centered fields), and 1 in every direction past the zone's index
/// dimension, so that the number of values, the product of the extents, is
/// the product of the part's sizes.
pub proof fn law_field_extent_pads_with_ones(location: GridLocation, vertices: Seq<i64>, cells: Seq<
    i64,
>)
    requires
        location == GridLocation::Vertex || location == GridLocation::CellCenter,
        vertices.len() <= 3,
        cells.len() <= 3,
    ensures
        ({
            let e = field_extent(location, vertices, cells);
            let part = if location == GridLocation::Vertex {
                vertices
            } else {
                cells
            };
            &&& e.len() == 3
            &&& forall|i: int| 0 <= i < part.len() ==> e[i] == part[i]
            &&& forall|i: int| part.len() <= i < 3 ==> e[i] == 1
            &&& e[0] * e[1] * e[2] == (if part.len() >= 1 {
                part[0] as int
            } else {
                1
            }) * (if part.len() >= 2 {
                part[1] as int
            } else {
                1
            }) * (if part.len() >= 3 {
                part[2] as int
            } else {
                1
            })
        }),
{
    let e = field_extent(location, vertices, cells);
    let part = if location == GridLocation::Vertex {
        vertices
    } else {
        cells
    };
    assert(e.len() == 3);
    assert forall|i: int| part.len() <= i < 3 implies e[i] == 1 by {
        assert(e[i] == Seq::new((3 - part.len()) as nat, |j: int| 1i64)[i - part.len()]);
    }
    assert forall|i: int| 0 <= i < part.len() implies e[i] == part[i] by {}
    if part.len() >= 1 {
        assert(e[0] == part[0]);
    } else {
        assert(e[0] == 1);
    }
    if part.len() >= 2 {
        assert(e[1] == part[1]);
    } else {
        assert(e[1] == 1);
    }
    if part.len() >= 3 {
        assert(e[2] == part[2]);
    } else {
        assert(e[2] == 1);
    }
}

impl<'a> Field<'a> {
    /// The solution that holds the field.
    pub closed spec fn spec_flow_solution(&self) -> &'a FlowSolution<'a> {
        self.flow_solution
    }

    /// The field number `id` of `flow_solution`, from what the library read
    /// of it.
    pub fn from_raw(flow_solution: &'a FlowSolution<'a>, id: i32, name: &[u8], datatype: DataType) -> (r:
        Result<Self, CGNSError>)
        requires
            name@.len() > 0,
        ensures
            r is Ok <==> spec_bytes2string(name@) is Ok,
            r matches Ok(f) ==> {
                &&& spec_bytes2string(name@) == Ok::<Seq<char>, ()>(f@.name)
                &&& f@.datatype == datatype
                &&& f@.id == id
                &&& f.spec_flow_solution() == flow_solution
            },
            r matches Err(e) ==> is_name_read_error(name@, e),
    {
        match bytes2string(name) {
            Ok(name) => Ok(Field { name, datatype, id, flow_solution }),
            Err(e) => Err(e),
        }
    }

    /// Where the values of the field are located: where those of its
    /// solution are.
    pub fn location(&self) -> (r: &GridLocation)
        ensures
            *r == self.spec_flow_solution()@.grid_location,
    {
        &self.flow_solution.grid_location
    }

    /// The extent of the field in each direction: the vertex or cell sizes of
    /// its zone, as it is located at vertices or cell centers, padded with
    /// ones to three entries.
    pub fn size(&self) -> (r: [i64; 3])
        requires
            self.spec_flow_solution()@.grid_location == GridLocation::Vertex
                || self.spec_flow_solution()@.grid_location == GridLocation::CellCenter,
        ensures
            ({
                let zone = self.spec_flow_solution().spec_zone();
                let d = zone_dim(zone@.ztype, zone.spec_base()@.cell_dim);
                r@ == field_extent(
                    self.spec_flow_solution()@.grid_location,
                    zone@.raw_size.subrange(0, d),
                    zone@.raw_size.subrange(d, 2 * d),
                )
            }),
    {
        let mut range_max: [i64; 3] = [1i64; 3];
        let zone_size = self.flow_solution.zone.size();
        let grid_location = self.location();
        let ghost before = range_max@;
        match grid_location {
            GridLocation::Vertex => copy_from_partial_slice(&mut range_max, zone_size.vertices),
            _ => copy_from_partial_slice(&mut range_max, zone_size.cells),
        }
        proof {
            let part = if *grid_location == GridLocation::Vertex {
                zone_size.vertices@
            } else {
                zone_size.cells@
            };
            assert(before.skip(part.len() as int) =~= Seq::new(
                (3 - part.len()) as nat,
                |i: int| 1i64,
            ));
        }
        range_max
    }

    /// Number of values of the field: the product of its extents.
    pub fn data_len(&self) -> (r: usize)
        requires
            self.spec_flow_solution()@.grid_location == GridLocation::Vertex
                || self.spec_flow_solution()@.grid_location == GridLocation::CellCenter,
            ({
                let zone = self.spec_flow_solution().spec_zone();
                let d = zone_dim(zone@.ztype, zone.spec_base()@.cell_dim);
                let e = field_extent(
                    self.spec_flow_solution()@.grid_location,
                    zone@.raw_size.subrange(0, d),
                    zone@.raw_size.subrange(d, 2 * d),
                );
                &&& i64::MIN <= e[0] * e[1] <= i64::MAX
                &&& 0 <= e[0] * e[1] * e[2] <= i64::MAX
                &&& e[0] * e[1] * e[2] <= usize::MAX
            }),
        ensures
            ({
                let zone = self.spec_flow_solution().spec_zone();
                let d = zone_dim(zone@.ztype, zone.spec_base()@.cell_dim);
                let e = field_extent(
                    self.spec_flow_solution()@.grid_location,
                    zone@.raw_size.subrange(0, d),
                    zone@.raw_size.subrange(d, 2 * d),
                );
                r == e[0] * e[1] * e[2]
            }),
    {
        let range_max = self.size();
        let first_two = range_max[0] * range_max[1];
        let all = first_two * range_max[2];
        all as usize
    }
}

impl<'a> CGNSNode<'a> for Field<'a> {
    type Parent = FlowSolution<'a>;

    fn id(&self) -> (r: i32)
        ensures
            r == self@.id,
    {
        self.id
    }

    fn parent(&self) -> (r: &Self::Parent)
        ensures
            r == self.spec_flow_solution(),
    {
        self.flow_solution
    }
}

} // verus!
