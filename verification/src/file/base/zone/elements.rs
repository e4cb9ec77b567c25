//! Element sections whose layout is told by the CGNS version of the file
//! (see [`super::section`] for sections that rebuild missing offsets).
//!
//! Based on: <https://cgns.github.io/CGNS_docs_current/midlevel/grid.html>
use vstd::prelude::*;

use super::section::{
    connectivity_buffer_check, has_offsets, section_size, section_size_fits, section_size_in_range,
};
use super::Zone;
use crate::errors::{CGNSError, OtherError};
use crate::traits::CGNSNode;
use crate::utils::{bytes2string, is_name_read_error, spec_bytes2string};

verus! {

/// CGNS node `Elements_t`
pub struct Element<'a> {
    pub name: String,
    /// Type of enclosed elements (its code in `ElementType_t`).
    pub elem_type: u32,
    pub range_start: i64,
    pub range_end: i64,
    nbndry: i32,
    is_parent_data_defined: bool,
    id: i32,
    pub zone: &'a Zone<'a>,
}

/// What an [`Element`] holds, the zone aside.
pub struct ElementView {
    pub name: Seq<char>,
    pub elem_type: u32,
    pub range_start: i64,
    pub range_end: i64,
    pub nbndry: i32,
    pub is_parent_data_defined: bool,
    pub id: i32,
}

impl<'a> View for Element<'a> {
    type V = ElementView;

    closed spec fn view(&self) -> ElementView {
        ElementView {
            name: self.name@,
            elem_type: self.elem_type,
            range_start: self.range_start,
            range_end: self.range_end,
            nbndry: self.nbndry,
            is_parent_data_defined: self.is_parent_data_defined,
            id: self.id,
        }
    }
}

/// Element connectivity, with its offsets when it has them.
pub struct Connectivity {
    pub connectivity: Vec<i64>,
    pub offsets: Option<Vec<i64>>,
}

/// Whether the connectivity of elements of type `t`, in a file whose CGNS
/// version is below 4 exactly when `old_cgns_compat`, has offsets.
pub open spec fn connectivity_offsets(t: u32, old_cgns_compat: bool) -> bool {
    !old_cgns_compat && has_offsets(t)
}

/// In a file of CGNS version 4 or later, a connectivity has offsets exactly
/// for the element types `MIXED` (20), `NGON_n` (22) and `NFACE_n` (23); in
/// an older file, never.
pub proof fn law_connectivity_offsets_by_type(t: u32)
    ensures
        connectivity_offsets(t, false) <==> (t == 20 || t == 22 || t == 23),
        !connectivity_offsets(t, true),
{
}

/// The offsets check succeeds exactly when a connectivity without offsets
/// is read, or a buffer of one value more than there are elements is given.
pub proof fn law_element_offsets_check_exact_length(
    t: u32,
    old_cgns_compat: bool,
    start: i64,
    end: i64,
    offsets_len: Option<usize>,
)
    requires
        section_size_fits(start, end),
        0 <= section_size(start, end) + 1 <= usize::MAX,
    ensures
        element_offsets_check(t, old_cgns_compat, start, end, offsets_len) is Ok <==> (
        !connectivity_offsets(t, old_cgns_compat) || (offsets_len matches Some(l) && l
            == section_size(start, end) + 1)),
{
    let size = section_size(start, end);
    assert(((size + 1) as i64) as usize == size + 1);
}

/// What checking an offsets buffer of `offsets_len` values (`None` for no
/// buffer) gives for elements of type `elem_type` from `start` to `end`:
/// a connectivity with offsets needs a buffer of one value more than there
/// are elements.
pub open spec fn element_offsets_check(
    elem_type: u32,
    old_cgns_compat: bool,
    start: i64,
    end: i64,
    offsets_len: Option<usize>,
) -> Result<(), CGNSError> {
    let size = section_size(start, end);
    let with_offsets = connectivity_offsets(elem_type, old_cgns_compat);
    if with_offsets && offsets_len is None {
        Err(CGNSError::Other(OtherError::MissingOffsetBuffer))
    } else if with_offsets && offsets_len->0 != ((size + 1) as i64) as usize {
        Err(
            CGNSError::Other(
                OtherError::OffsetBufferLength { len: offsets_len->0, size: size as i64 },
            ),
        )
    } else {
        Ok(())
    }
}

/// The buffers that [`Element::new_connectivity_buffers`] makes pass the
/// checks of [`Element::check_offsets_buffer`] and
/// [`check_connectivity_buffer`](super::section::check_connectivity_buffer),
/// so reading into them reads what reading into fresh buffers reads.
pub proof fn law_element_buffers_pass_checks(
    elem_type: u32,
    old_cgns_compat: bool,
    start: i64,
    end: i64,
    data_size: i64,
)
    requires
        0 <= data_size <= usize::MAX,
        connectivity_offsets(elem_type, old_cgns_compat) ==> section_size_fits(start, end) && 0
            <= section_size(start, end) && section_size(start, end) + 1 <= usize::MAX,
    ensures
        element_offsets_check(
            elem_type,
            old_cgns_compat,
            start,
            end,
            if connectivity_offsets(elem_type, old_cgns_compat) {
                Some((section_size(start, end) + 1) as usize)
            } else {
                None
            },
        ) == Ok::<(), CGNSError>(()),
        connectivity_buffer_check(data_size as usize, data_size) == Ok::<(), CGNSError>(()),
{
}

impl<'a> Element<'a> {
    /// The zone that holds the elements.
    pub closed spec fn spec_zone(&self) -> &'a Zone<'a> {
        self.zone
    }

    /// The section number `id` of `zone`, from what the library read of it.
    pub fn from_raw(
        zone: &'a Zone<'a>,
        id: i32,
        name: &[u8],
        elem_type: u32,
        range_start: i64,
        range_end: i64,
        nbndry: i32,
        is_parent_defined: i32,
    ) -> (r: Result<Self, CGNSError>)
        requires
            name@.len() > 0,
        ensures
            r is Ok <==> spec_bytes2string(name@) is Ok,
            r matches Ok(el) ==> {
                &&& spec_bytes2string(name@) == Ok::<Seq<char>, ()>(el@.name)
                &&& el@.elem_type == elem_type
                &&& el@.range_start == range_start
                &&& el@.range_end == range_end
                &&& el@.nbndry == nbndry
                &&& el@.is_parent_data_defined == (is_parent_defined == 1)
                &&& el@.id == id
                &&& el.spec_zone() == zone
            },
            r matches Err(e) ==> is_name_read_error(name@, e),
    {
        match bytes2string(name) {
            Ok(name) => Ok(
                Element {
                    name,
                    elem_type,
                    range_start,
                    range_end,
                    is_parent_data_defined: is_parent_defined == 1,
                    nbndry,
                    id,
                    zone,
                },
            ),
            Err(e) => Err(e),
        }
    }

    /// Whether the connectivity is composed of `connectivity` and `offsets`
    /// or not; files of CGNS versions below 4 (`old_cgns_compat`) have no
    /// offsets.
    pub fn connectivity_has_offsets(&self, old_cgns_compat: bool) -> (r: bool)
        ensures
            r == connectivity_offsets(self@.elem_type, old_cgns_compat),
    {
        !old_cgns_compat && (self.elem_type == super::section::MIXED || self.elem_type
            == super::section::NGON_N || self.elem_type == super::section::NFACE_N)
    }

    /// Number of elements.
    pub fn size(&self) -> (r: i64)
        requires
            section_size_in_range(self@.range_start, self@.range_end),
        ensures
            r == section_size(self@.range_start, self@.range_end),
    {
        self.range_end - self.range_start + 1
    }

    /// Checks the offsets buffer that the connectivity is to be read into:
    /// it is needed exactly when the connectivity has offsets, and must then
    /// hold [`Self::size()`] + 1 values, as many as the library writes.
    pub fn check_offsets_buffer(&self, old_cgns_compat: bool, offsets_len: Option<usize>) -> (r:
        Result<(), CGNSError>)
        requires
            connectivity_offsets(self@.elem_type, old_cgns_compat) && offsets_len is Some
                ==> section_size_fits(self@.range_start, self@.range_end),
        ensures
            r == element_offsets_check(
                self@.elem_type,
                old_cgns_compat,
                self@.range_start,
                self@.range_end,
                offsets_len,
            ),
    {
        if self.connectivity_has_offsets(old_cgns_compat) {
            match offsets_len {
                Some(len) => {
                    if len != (self.size() + 1) as usize {
                        return Err(
                            CGNSError::Other(
                                OtherError::OffsetBufferLength { len, size: self.size() },
                            ),
                        );
                    }
                },
                None => {
                    return Err(CGNSError::Other(OtherError::MissingOffsetBuffer));
                },
            }
        }
        Ok(())
    }

    /// Zeroed buffers to read the connectivity into: `data_size` values and,
    /// when the connectivity has offsets, [`Self::size()`] + 1 offsets.
    pub fn new_connectivity_buffers(&self, old_cgns_compat: bool, data_size: i64) -> (r:
        Connectivity)
        requires
            0 <= data_size <= usize::MAX,
            connectivity_offsets(self@.elem_type, old_cgns_compat) ==> section_size_fits(
                self@.range_start,
                self@.range_end,
            ) && 0 <= section_size(self@.range_start, self@.range_end) && section_size(
                self@.range_start,
                self@.range_end,
            ) + 1 <= usize::MAX,
        ensures
            r.connectivity@ == Seq::new(data_size as nat, |i: int| 0i64),
            connectivity_offsets(self@.elem_type, old_cgns_compat) <==> r.offsets is Some,
            r.offsets matches Some(o) ==> o@ == Seq::new(
                (section_size(self@.range_start, self@.range_end) + 1) as nat,
                |i: int| 0i64,
            ),
    {
        let connectivity: Vec<i64> = vec![0i64; data_size as usize];
        let offsets = if self.connectivity_has_offsets(old_cgns_compat) {
            Some(vec![0i64; self.size() as usize + 1])
        } else {
            None
        };
        proof {
            assert(connectivity@ =~= Seq::new(data_size as nat, |i: int| 0i64));
            if offsets is Some {
                assert(offsets->0@ =~= Seq::new(
                    (section_size(self@.range_start, self@.range_end) + 1) as nat,
                    |i: int| 0i64,
                ));
            }
        }
        Connectivity { connectivity, offsets }
    }
}

impl<'a> CGNSNode<'a> for Element<'a> {
    type Parent = Zone<'a>;

    fn id(&self) -> (r: i32)
        ensures
            r == self@.id,
    {
        self.id
    }

    fn parent(&self) -> (r: &Self::Parent)
        ensures
            r == self.spec_zone(),
    {
        self.zone
    }
}

} // verus!
