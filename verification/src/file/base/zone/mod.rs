//! Based on: <https://cgns.github.io/CGNS_docs_current/midlevel/structural.html#zone>
use vstd::prelude::*;

use super::Base;
use crate::errors::CGNSError;
use crate::traits::CGNSNode;
use crate::utils::{bytes2string, is_name_read_error, spec_bytes2string};

pub mod boundary_conditions;
pub mod elements;
pub mod flow_solution;
pub mod grid_coordinate;
pub mod section;
pub mod typed_size;

verus! {

/// Type of a zone (`ZoneType_t`).
#[derive(Debug, Clone, Copy, PartialEq, Eq)]
pub enum ZoneType {
    ZoneTypeNull,
    ZoneTypeUserDefined,
    Structured,
    Unstructured,
}

/// The code of `t` in the CGNS library.
pub open spec fn zone_type_code(t: ZoneType) -> u32 {
    match t {
        ZoneType::ZoneTypeNull => 0,
        ZoneType::ZoneTypeUserDefined => 1,
        ZoneType::Structured => 2,
        ZoneType::Unstructured => 3,
    }
}

impl ZoneType {
    /// The code of the zone type in the CGNS library.
    pub fn into_code(self) -> (r: u32)
        ensures
            r == zone_type_code(self),
    {
        match self {
            ZoneType::ZoneTypeNull => 0,
            ZoneType::ZoneTypeUserDefined => 1,
            ZoneType::Structured => 2,
            ZoneType::Unstructured => 3,
        }
    }

    /// The zone type that has this code, if any.
    pub fn try_from_code(code: u32) -> (r: Option<Self>)
        ensures
            r is Some <==> code <= 3,
            r matches Some(t) ==> zone_type_code(t) == code,
    {
        if code == 0 {
            Some(ZoneType::ZoneTypeNull)
        } else if code == 1 {
            Some(ZoneType::ZoneTypeUserDefined)
        } else if code == 2 {
            Some(ZoneType::Structured)
        } else if code == 3 {
            Some(ZoneType::Unstructured)
        } else {
            None
        }
    }
}

/// Distinct zone types have distinct codes, so a zone type is found again
/// from its code.
pub proof fn law_zone_type_code_injective(a: ZoneType, b: ZoneType)
    ensures
        zone_type_code(a) == zone_type_code(b) ==> a == b,
{
}

/// Number of entries of each of the three parts (vertices, cells, boundary
/// vertices) of the raw size of a zone of type `ztype` in a base of cell
/// dimension `cell_dim`, which is the index dimension of its structured
/// zones: that dimension for structured zones of dimension one to three, one
/// for unstructured zones, none otherwise.
pub open spec fn zone_dim(ztype: ZoneType, cell_dim: i32) -> int {
    match ztype {
        ZoneType::Structured => if 1 <= cell_dim <= 3 {
            cell_dim as int
        } else {
            0
        },
        ZoneType::Unstructured => 1,
        _ => 0,
    }
}

/// Sum of the values of `s`.
pub open spec fn seq_sum(s: Seq<i64>) -> int
    decreases s.len(),
{
    if s.len() == 0 {
        0
    } else {
        seq_sum(s.drop_last()) + s.last()
    }
}

/// Every partial sum of `s`, from the left, fits in an `i64`.
pub open spec fn sums_fit(s: Seq<i64>) -> bool {
    forall|k: int| 0 <= k <= s.len() ==> i64::MIN <= #[trigger] seq_sum(s.take(k)) <= i64::MAX
}

/// Sum of the values of `s`, which must not overflow on the way.
pub fn slice_sum(s: &[i64]) -> (r: i64)
    requires
        sums_fit(s@),
    ensures
        r == seq_sum(s@),
{
    let mut total: i64 = 0;
    let mut i: usize = 0;
    assert(s@.take(0) =~= Seq::<i64>::empty());
    while i < s.len()
        invariant
            i <= s@.len(),
            sums_fit(s@),
            total == seq_sum(s@.take(i as int)),
        decreases s@.len() - i,
    {
        assert(s@.take(i + 1).drop_last() =~= s@.take(i as int));
        assert(i64::MIN <= seq_sum(s@.take(i + 1)) <= i64::MAX);
        total = total + s[i];
        i = i + 1;
    }
    assert(s@.take(s@.len() as int) =~= s@);
    total
}

/// CGNS node [`Zone_t`](https://cgns.github.io/CGNS_docs_current/sids/cgnsbase.html#Zone)
pub struct Zone<'a> {
    pub name: String,
    raw_size: [i64; 9],
    ztype: ZoneType,
    pub base: &'a Base<'a>,
    id: i32,
}

/// What a [`Zone`] holds, the base aside.
pub struct ZoneView {
    pub name: Seq<char>,
    pub raw_size: Seq<i64>,
    pub ztype: ZoneType,
    pub id: i32,
}

impl<'a> View for Zone<'a> {
    type V = ZoneView;

    closed spec fn view(&self) -> ZoneView {
        ZoneView { name: self.name@, raw_size: self.raw_size@, ztype: self.ztype, id: self.id }
    }
}

/// The sizes of a zone, as parts of its raw size.
pub struct ZoneSize<'a> {
    pub vertices: &'a [i64],
    /// For structured zones: `number_of_cells = number_of_vertices - 1`
    pub cells: &'a [i64],
    /// Always 0 for structured grids
    pub bound_vertices: &'a [i64],
}

/// The total sizes of a zone.
#[derive(Debug, Clone, Copy, PartialEq, Eq)]
pub struct ZoneSize1D {
    pub vertices: i64,
    pub cells: i64,
    /// Always 0 for structured grids
    pub bound_vertices: i64,
}

/// The raw size made of the parts `v`, `c`, `b`, padded with zeros to nine
/// entries.
pub open spec fn raw_of_parts(v: Seq<i64>, c: Seq<i64>, b: Seq<i64>) -> Seq<i64> {
    v + c + b + Seq::new((9 - v.len() - c.len() - b.len()) as nat, |i: int| 0i64)
}

impl<'a> ZoneSize<'a> {
    /// The raw size that holds these sizes: vertices, then cells, then
    /// boundary vertices, then zeros.
    pub fn raw(&self) -> (r: [i64; 9])
        requires
            self.vertices@.len() + self.cells@.len() + self.bound_vertices@.len() <= 9,
        ensures
            r@ == raw_of_parts(self.vertices@, self.cells@, self.bound_vertices@),
    {
        let mut res: [i64; 9] = [0i64; 9];
        let mut k: usize = 0;
        let ghost full = raw_of_parts(self.vertices@, self.cells@, self.bound_vertices@);
        let nv = self.vertices.len();
        let nc = self.cells.len();
        let nb = self.bound_vertices.len();
        let mut i: usize = 0;
        while i < nv
            invariant
                nv == self.vertices@.len(),
                nv + nc + nb <= 9,
                i <= nv,
                k == i,
                res@.len() == 9,
                full == raw_of_parts(self.vertices@, self.cells@, self.bound_vertices@),
                forall|j: int| 0 <= j < k ==> res@[j] == full[j],
                forall|j: int| k <= j < 9 ==> res@[j] == 0,
            decreases nv - i,
        {
            res[k] = self.vertices[i];
            k = k + 1;
            i = i + 1;
        }
        let mut i: usize = 0;
        while i < nc
            invariant
                nv == self.vertices@.len(),
                nc == self.cells@.len(),
                nv + nc + nb <= 9,
                i <= nc,
                k == nv + i,
                res@.len() == 9,
                full == raw_of_parts(self.vertices@, self.cells@, self.bound_vertices@),
                forall|j: int| 0 <= j < k ==> res@[j] == full[j],
                forall|j: int| k <= j < 9 ==> res@[j] == 0,
            decreases nc - i,
        {
            res[k] = self.cells[i];
            k = k + 1;
            i = i + 1;
        }
        let mut i: usize = 0;
        while i < nb
            invariant
                nv == self.vertices@.len(),
                nc == self.cells@.len(),
                nb == self.bound_vertices@.len(),
                nv + nc + nb <= 9,
                i <= nb,
                k == nv + nc + i,
                res@.len() == 9,
                full == raw_of_parts(self.vertices@, self.cells@, self.bound_vertices@),
                forall|j: int| 0 <= j < k ==> res@[j] == full[j],
                forall|j: int| k <= j < 9 ==> res@[j] == 0,
            decreases nb - i,
        {
            res[k] = self.bound_vertices[i];
            k = k + 1;
            i = i + 1;
        }
        assert(res@ =~= full);
        res
    }

    /// The sum of each part.
    pub fn total_size(&self) -> (r: ZoneSize1D)
        requires
            sums_fit(self.vertices@),
            sums_fit(self.cells@),
            sums_fit(self.bound_vertices@),
        ensures
            r.vertices == seq_sum(self.vertices@),
            r.cells == seq_sum(self.cells@),
            r.bound_vertices == seq_sum(self.bound_vertices@),
    {
        ZoneSize1D {
            vertices: slice_sum(self.vertices),
            cells: slice_sum(self.cells),
            bound_vertices: slice_sum(self.bound_vertices),
        }
    }
}

impl<'a> Zone<'a> {
    /// The base that holds the zone.
    pub closed spec fn spec_base(&self) -> &'a Base<'a> {
        self.base
    }

    /// The zone number `id` of `base`, from what the library read of it: the
    /// buffer that holds its name, its raw size and its type.
    pub fn from_raw(
        base: &'a Base<'a>,
        id: i32,
        name: &[u8],
        raw_size: [i64; 9],
        ztype: ZoneType,
    ) -> (r: Result<Self, CGNSError>)
        requires
            name@.len() > 0,
        ensures
            r is Ok <==> spec_bytes2string(name@) is Ok,
            r matches Ok(z) ==> {
                &&& spec_bytes2string(name@) == Ok::<Seq<char>, ()>(z@.name)
                &&& z@.raw_size == raw_size@
                &&& z@.ztype == ztype
                &&& z@.id == id
                &&& z.spec_base() == base
            },
            r matches Err(e) ==> is_name_read_error(name@, e),
    {
        match bytes2string(name) {
            Ok(name) => Ok(Zone { name, raw_size, ztype, base, id }),
            Err(e) => Err(e),
        }
    }

    /// The zone that the library wrote under the ID `id`.
    pub fn new(base: &'a Base<'a>, name: String, raw_size: [i64; 9], ztype: ZoneType, id: i32) -> (r:
        Self)
        ensures
            r@ == (ZoneView { name: name@, raw_size: raw_size@, ztype, id }),
            r.spec_base() == base,
    {
        Zone { name, raw_size, ztype, base, id }
    }

    /// The raw size that the library gave for the zone.
    pub fn raw_size(&self) -> (r: [i64; 9])
        ensures
            r@ == self@.raw_size,
    {
        self.raw_size
    }

    /// The type of the zone.
    pub fn ztype(&self) -> (r: ZoneType)
        ensures
            r == self@.ztype,
    {
        self.ztype
    }

    /// The sizes of the zone: its raw size cut into three parts of
    /// `zone_dim` entries each (none for an invalid type or dimension).
    pub fn size(&self) -> (r: ZoneSize<'_>)
        ensures
            ({
                let d = zone_dim(self@.ztype, self.spec_base()@.cell_dim);
                &&& r.vertices@ == self@.raw_size.subrange(0, d)
                &&& r.cells@ == self@.raw_size.subrange(d, 2 * d)
                &&& r.bound_vertices@ == self@.raw_size.subrange(2 * d, 3 * d)
            }),
    {
        let d: usize = match self.ztype {
            ZoneType::Structured => {
                let cell_dim = self.base.cell_dim;
                if cell_dim == 1 {
                    1
                } else if cell_dim == 2 {
                    2
                } else if cell_dim == 3 {
                    3
                } else {
                    0
                }
            },
            ZoneType::Unstructured => 1,
            _ => 0,
        };
        let raw = self.raw_size.as_slice();
        ZoneSize {
            vertices: vstd::slice::slice_subrange(raw, 0, d),
            cells: vstd::slice::slice_subrange(raw, d, 2 * d),
            bound_vertices: vstd::slice::slice_subrange(raw, 2 * d, 3 * d),
        }
    }

    /// The total sizes of the zone.
    pub fn total_size(&self) -> (r: ZoneSize1D)
        requires
            ({
                let d = zone_dim(self@.ztype, self.spec_base()@.cell_dim);
                &&& sums_fit(self@.raw_size.subrange(0, d))
                &&& sums_fit(self@.raw_size.subrange(d, 2 * d))
                &&& sums_fit(self@.raw_size.subrange(2 * d, 3 * d))
            }),
        ensures
            ({
                let d = zone_dim(self@.ztype, self.spec_base()@.cell_dim);
                &&& r.vertices == seq_sum(self@.raw_size.subrange(0, d))
                &&& r.cells == seq_sum(self@.raw_size.subrange(d, 2 * d))
                &&& r.bound_vertices == seq_sum(self@.raw_size.subrange(2 * d, 3 * d))
            }),
    {
        self.size().total_size()
    }
}

impl<'a> CGNSNode<'a> for Zone<'a> {
    type Parent = Base<'a>;

    fn id(&self) -> (r: i32)
        ensures
            r == self@.id,
    {
        self.id
    }

    fn parent(&self) -> (r: &Self::Parent)
        ensures
            r == self.spec_base(),
    {
        self.base
    }
}

/// The sizes of a zone written from the raw size of sizes whose three parts
/// have `zone_dim` entries each are read back unchanged.
pub proof fn law_size_read_back(ztype: ZoneType, cell_dim: i32, v: Seq<i64>, c: Seq<i64>, b: Seq<i64>)
    requires
        v.len() == zone_dim(ztype, cell_dim),
        c.len() == zone_dim(ztype, cell_dim),
        b.len() == zone_dim(ztype, cell_dim),
    ensures
        ({
            let d = zone_dim(ztype, cell_dim);
            let raw = raw_of_parts(v, c, b);
            &&& raw.len() == 9
            &&& raw.subrange(0, d) == v
            &&& raw.subrange(d, 2 * d) == c
            &&& raw.subrange(2 * d, 3 * d) == b
        }),
{
    let d = zone_dim(ztype, cell_dim);
    let raw = raw_of_parts(v, c, b);
    assert(raw.subrange(0, d) =~= v);
    assert(raw.subrange(d, 2 * d) =~= c);
    assert(raw.subrange(2 * d, 3 * d) =~= b);
}

/// The raw size that a CGNS file gives a structured zone of index dimension
/// `d`: the vertex counts, then cell counts of one less, then zeros as
/// boundary vertex counts.
pub open spec fn structured_raw_size(raw: Seq<i64>, d: int) -> bool {
    &&& raw.len() == 9
    &&& forall|i: int| 0 <= i < d ==> raw[d + i] == #[trigger] raw[i] - 1 && raw[2 * d + i] == 0
}

/// For a structured zone whose raw size is laid out by its index dimension,
/// the cell dimension of its base, the sizes hold cells that are vertices
/// minus one and no boundary vertices.
pub proof fn law_structured_cells_are_vertices_minus_one(cell_dim: i32, raw: Seq<i64>)
    requires
        1 <= cell_dim <= 3,
        structured_raw_size(raw, cell_dim as int),
    ensures
        ({
            let d = zone_dim(ZoneType::Structured, cell_dim);
            let vertices = raw.subrange(0, d);
            let cells = raw.subrange(d, 2 * d);
            let bound_vertices = raw.subrange(2 * d, 3 * d);
            &&& vertices.len() == cells.len() == bound_vertices.len() == cell_dim
            &&& forall|i: int|
                0 <= i < d ==> cells[i] == vertices[i] - 1 && bound_vertices[i] == 0
        }),
{
    let d = zone_dim(ZoneType::Structured, cell_dim);
    assert forall|i: int| 0 <= i < d implies raw.subrange(d, 2 * d)[i] == raw.subrange(0, d)[i] - 1
        && raw.subrange(2 * d, 3 * d)[i] == 0 by {
        assert(raw.subrange(0, d)[i] == raw[i]);
        assert(raw.subrange(d, 2 * d)[i] == raw[d + i]);
        assert(raw.subrange(2 * d, 3 * d)[i] == raw[2 * d + i]);
    }
}

/// The raw size rebuilt from the sizes of a zone is the zone's raw size,
/// exactly when the entries past the three parts are zero.
pub proof fn law_raw_read_back(ztype: ZoneType, cell_dim: i32, raw: Seq<i64>)
    requires
        raw.len() == 9,
    ensures
        ({
            let d = zone_dim(ztype, cell_dim);
            raw_of_parts(raw.subrange(0, d), raw.subrange(d, 2 * d), raw.subrange(2 * d, 3 * d))
                == raw <==> forall|j: int| 3 * d <= j < 9 ==> raw[j] == 0
        }),
{
    let d = zone_dim(ztype, cell_dim);
    let r = raw_of_parts(raw.subrange(0, d), raw.subrange(d, 2 * d), raw.subrange(2 * d, 3 * d));
    assert(r.len() == 9);
    if forall|j: int| 3 * d <= j < 9 ==> raw[j] == 0 {
        assert(r =~= raw);
    }
    if r == raw {
        assert forall|j: int| 3 * d <= j < 9 implies raw[j] == 0 by {
            assert(r[j] == 0);
        }
    }
}

} // verus!
