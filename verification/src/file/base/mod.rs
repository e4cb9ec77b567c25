//! Based on: <https://cgns.github.io/CGNS_docs_current/midlevel/structural.html#base>

use vstd::prelude::*;

use super::File;
use crate::errors::CGNSError;
use crate::traits::CGNSNode;
use vstd::utf8::encode_utf8;

use crate::utils::{bytes2string, has_nul, is_name_read_error, law_name_round_trip, spec_bytes2string};

pub mod zone;

verus! {

/// Dimension of the cells of a base.
#[derive(Debug, Clone, Copy, PartialEq, Eq)]
pub enum CellDimension {
    Line,
    Surface,
    Volume,
}

/// The number that stands for `d` in the CGNS library.
pub open spec fn cell_dimension_value(d: CellDimension) -> i32 {
    match d {
        CellDimension::Line => 1,
        CellDimension::Surface => 2,
        CellDimension::Volume => 3,
    }
}

impl CellDimension {
    /// The number that stands for the dimension.
    pub fn into_i32(self) -> (r: i32)
        ensures
            r == cell_dimension_value(self),
    {
        match self {
            CellDimension::Line => 1,
            CellDimension::Surface => 2,
            CellDimension::Volume => 3,
        }
    }

    /// The dimension that `value` stands for: 1, 2 or 3.
    pub fn try_from_i32(value: i32) -> (r: Option<Self>)
        ensures
            r is Some <==> 1 <= value <= 3,
            r matches Some(d) ==> cell_dimension_value(d) == value,
    {
        if value == 1 {
            Some(CellDimension::Line)
        } else if value == 2 {
            Some(CellDimension::Surface)
        } else if value == 3 {
            Some(CellDimension::Volume)
        } else {
            None
        }
    }
}

/// A dimension is found again from the number that stands for it.
pub proof fn law_cell_dimension_round_trip(d: CellDimension)
    ensures
        1 <= cell_dimension_value(d) <= 3,
        forall|e: CellDimension| cell_dimension_value(e) == cell_dimension_value(d) ==> e == d,
{
}

/// CGNS node [`CGNSBase_t`](https://cgns.github.io/CGNS_docs_current/sids/cgnsbase.html)
///
/// The master CGNS node. Most `File`s have a single `Base` (fittingly named `Base`).
pub struct Base<'a> {
    pub name: String,
    /// Dimension of the cells
    pub cell_dim: i32,
    /// Number of coordinates required to define a vector in the field.
    pub phys_dim: i32,
    id: i32,
    file: &'a File<'a>,
}

/// What a [`Base`] holds, the file aside.
pub struct BaseView {
    pub name: Seq<char>,
    pub cell_dim: i32,
    pub phys_dim: i32,
    pub id: i32,
}

/// The base that the library's answer to a base read gives: the name read
/// from the buffer `name`, the dimensions and the index `id`.
pub open spec fn spec_base_from_raw(id: i32, name: Seq<u8>, cell_dim: i32, phys_dim: i32) -> Result<
    BaseView,
    (),
> {
    match spec_bytes2string(name) {
        Ok(n) => Ok(BaseView { name: n, cell_dim, phys_dim, id }),
        Err(_) => Err(()),
    }
}

impl<'a> View for Base<'a> {
    type V = BaseView;

    closed spec fn view(&self) -> BaseView {
        BaseView { name: self.name@, cell_dim: self.cell_dim, phys_dim: self.phys_dim, id: self.id }
    }
}

impl<'a> Base<'a> {

    pub closed spec fn spec_file(&self) -> &'a File<'a> {
        self.file
    }

    /// The base number `id` of `file`, from what the library read of it: the
    /// buffer that holds its name, and its cell and physical dimensions.
    pub fn from_raw(file: &'a File<'a>, id: i32, name: &[u8], cell_dim: i32, phys_dim: i32) -> (r:
        Result<Self, CGNSError>)
        requires
            name@.len() > 0,
        ensures
            r is Ok <==> spec_bytes2string(name@) is Ok,
            r matches Ok(b) ==> spec_base_from_raw(id, name@, cell_dim, phys_dim) == Ok::<
                BaseView,
                (),
            >(b@),
            r matches Ok(b) ==> {
                &&& spec_bytes2string(name@) == Ok::<Seq<char>, ()>(b@.name)
                &&& b@.cell_dim == cell_dim
                &&& b@.phys_dim == phys_dim
                &&& b@.id == id
                &&& b.spec_file() == file
            },
            r matches Err(e) ==> is_name_read_error(name@, e),
    {
        match bytes2string(name) {
            Ok(name) => Ok(Base { name, cell_dim, phys_dim, id, file }),
            Err(e) => Err(e),
        }
    }

    /// The base that the library wrote under the ID `id`.
    pub fn new(file: &'a File<'a>, name: String, cell_dim: i32, phys_dim: i32, id: i32) -> (r:
        Self)
        ensures
            r@ == (BaseView { name: name@, cell_dim, phys_dim, id }),
            r.spec_file() == file,
    {
        Base { name, cell_dim, phys_dim, id, file }
    }
}

impl<'a> CGNSNode<'a> for Base<'a> {
    type Parent = File<'a>;

    fn id(&self) -> (r: i32)
        ensures
            r == self@.id,
    {
        self.id
    }

    fn parent(&self) -> (r: &Self::Parent)
        ensures
            r == self.spec_file(),
    {
        self.file
    }
}

/// A base written under a name without nul characters is read back with
/// that name, when the library answers the read with the name as it was
/// written (whatever follows its nul in the buffer) and the same dimensions.
pub proof fn law_base_read_back(
    id: i32,
    name: Seq<char>,
    rest: Seq<u8>,
    cell_dim: i32,
    phys_dim: i32,
)
    requires
        !has_nul(encode_utf8(name)),
    ensures
        spec_base_from_raw(id, encode_utf8(name).push(0u8) + rest, cell_dim, phys_dim) == Ok::<
            BaseView,
            (),
        >(BaseView { name, cell_dim, phys_dim, id }),
{
    law_name_round_trip(name, rest);
}

} // verus!
