//! Based on: <https://cgns.github.io/CGNS_docs_current/midlevel/bc.html>
use vstd::prelude::*;

use super::Zone;
use crate::errors::CGNSError;
use crate::traits::CGNSNode;
use crate::types::DataType;
use crate::utils::{bytes2string, is_name_read_error, spec_bytes2string};

verus! {

/// CGNS node `BC_t`
pub struct BC<'a> {
    pub name: String,
    /// Code of the boundary condition type (`BCType_t`).
    pub bc_type: u32,
    /// Code of the point set type (`PointSetType_t`).
    pub point_set_type: u32,
    pub nb_points: i64,
    pub normal_index: [i32; 3],
    pub normal_list_flag: bool,
    pub normal_data_type: DataType,
    pub nb_datasets: i32,
    id: i32,
    pub zone: &'a Zone<'a>,
}

/// What a [`BC`] holds, the zone aside.
pub struct BCView {
    pub name: Seq<char>,
    pub bc_type: u32,
    pub point_set_type: u32,
    pub nb_points: i64,
    pub normal_index: Seq<i32>,
    pub normal_list_flag: bool,
    pub normal_data_type: DataType,
    pub nb_datasets: i32,
    pub id: i32,
}

impl<'a> View for BC<'a> {
    type V = BCView;

    closed spec fn view(&self) -> BCView {
        BCView {
            name: self.name@,
            bc_type: self.bc_type,
            point_set_type: self.point_set_type,
            nb_points: self.nb_points,
            normal_index: self.normal_index@,
            normal_list_flag: self.normal_list_flag,
            normal_data_type: self.normal_data_type,
            nb_datasets: self.nb_datasets,
            id: self.id,
        }
    }
}

impl<'a> BC<'a> {
    /// The zone that holds the boundary condition.
    pub closed spec fn spec_zone(&self) -> &'a Zone<'a> {
        self.zone
    }

    /// The boundary condition number `id` of `zone`, from what the library
    /// read of it; a normal list flag of one means that normals are given.
    pub fn from_raw(
        zone: &'a Zone<'a>,
        id: i32,
        name: &[u8],
        bc_type: u32,
        point_set_type: u32,
        nb_points: i64,
        normal_index: [i32; 3],
        normal_list_flag: i64,
        normal_data_type: DataType,
        nb_datasets: i32,
    ) -> (r: Result<Self, CGNSError>)
        requires
            name@.len() > 0,
        ensures
            r is Ok <==> spec_bytes2string(name@) is Ok,
            r matches Ok(bc) ==> {
                &&& spec_bytes2string(name@) == Ok::<Seq<char>, ()>(bc@.name)
                &&& bc@.bc_type == bc_type
                &&& bc@.point_set_type == point_set_type
                &&& bc@.nb_points == nb_points
                &&& bc@.normal_index == normal_index@
                &&& bc@.normal_list_flag == (normal_list_flag == 1)
                &&& bc@.normal_data_type == normal_data_type
                &&& bc@.nb_datasets == nb_datasets
                &&& bc@.id == id
                &&& bc.spec_zone() == zone
            },
            r matches Err(e) ==> is_name_read_error(name@, e),
    {
        match bytes2string(name) {
            Ok(name) => Ok(
                BC {
                    name,
                    bc_type,
                    point_set_type,
                    nb_points,
                    normal_index,
                    normal_list_flag: normal_list_flag == 1,
                    normal_data_type,
                    nb_datasets,
                    id,
                    zone,
                },
            ),
            Err(e) => Err(e),
        }
    }
}

impl<'a> CGNSNode<'a> for BC<'a> {
    type Parent = Zone<'a>;

    fn id(&self) -> (r: i32)
        ensures
            r == self@.id,
    {
        self.id
    }

    fn parent(&self) -> (r: &Self::Parent)
        ensures
            r == self.spec_zone(),
    {
        self.zone
    }
}

} // verus!
