//! Zone sizes as typed values, one shape per kind of zone.
use vstd::prelude::*;

use super::{zone_dim, zone_type_code, ZoneType};
use crate::errors::{CGNSError, OtherError};

verus! {

/// Sizes of a structured zone of dimension `DIMENSIONS`.
#[derive(Debug, Clone, PartialEq)]
pub struct ZoneSizeStructured<const DIMENSIONS: usize> {
    pub n_vertex: [i64; DIMENSIONS],
    pub n_cells: [i64; DIMENSIONS],
}

/// Sizes of an unstructured zone.
#[derive(Debug, Clone, PartialEq)]
pub struct ZoneSizeUnstructured {
    pub n_vertex: i64,
    pub n_cells: i64,
    pub n_bound_vertex: i64,
}

/// Sizes of a zone, by kind of zone.
#[derive(Debug, Clone, PartialEq)]
pub enum ZoneSize {
    Structured3D(ZoneSizeStructured<3>),
    Structured2D(ZoneSizeStructured<2>),
    Unstructured(ZoneSizeUnstructured),
}

impl ZoneSize {
    /// The sizes held by the raw size `vals` of a zone of type `zone_type` and
    /// of index dimension `dim` (the cell dimension of its base): the vertex
    /// counts then the
    /// cell counts for structured zones of dimension two or three, the
    /// vertex, cell and boundary vertex counts for unstructured zones.
    /// Other zones are refused.
    pub fn from_raw_values(vals: [i64; 9], zone_type: ZoneType, dim: i32) -> (r: Result<
        Self,
        CGNSError,
    >)
        ensures
            ({
                let v = vals@;
                match zone_type {
                    ZoneType::Structured => if dim == 2 {
                        r matches Ok(ZoneSize::Structured2D(s)) && s.n_vertex@ == v.subrange(0, 2)
                            && s.n_cells@ == v.subrange(2, 4)
                    } else if dim == 3 {
                        r matches Ok(ZoneSize::Structured3D(s)) && s.n_vertex@ == v.subrange(0, 3)
                            && s.n_cells@ == v.subrange(3, 6)
                    } else {
                        r == Err::<ZoneSize, CGNSError>(
                            CGNSError::Other(
                                OtherError::UnsupportedZone {
                                    zone_type: zone_type_code(zone_type),
                                    dim,
                                },
                            ),
                        )
                    },
                    ZoneType::Unstructured => r == Ok::<ZoneSize, CGNSError>(
                        ZoneSize::Unstructured(
                            ZoneSizeUnstructured {
                                n_vertex: v[0],
                                n_cells: v[1],
                                n_bound_vertex: v[2],
                            },
                        ),
                    ),
                    _ => r == Err::<ZoneSize, CGNSError>(
                        CGNSError::Other(
                            OtherError::UnsupportedZone {
                                zone_type: zone_type_code(zone_type),
                                dim,
                            },
                        ),
                    ),
                }
            }),
    {
        match zone_type {
            ZoneType::Structured if dim == 2 => {
                let s = ZoneSizeStructured { n_vertex: [vals[0], vals[1]], n_cells: [vals[2], vals[3]] };
                assert(s.n_vertex@ =~= vals@.subrange(0, 2));
                assert(s.n_cells@ =~= vals@.subrange(2, 4));
                Ok(ZoneSize::Structured2D(s))
            },
            ZoneType::Structured if dim == 3 => {
                let s = ZoneSizeStructured {
                    n_vertex: [vals[0], vals[1], vals[2]],
                    n_cells: [vals[3], vals[4], vals[5]],
                };
                assert(s.n_vertex@ =~= vals@.subrange(0, 3));
                assert(s.n_cells@ =~= vals@.subrange(3, 6));
                Ok(ZoneSize::Structured3D(s))
            },
            ZoneType::Unstructured => Ok(
                ZoneSize::Unstructured(
                    ZoneSizeUnstructured { n_vertex: vals[0], n_cells: vals[1], n_bound_vertex: vals[2] },
                ),
            ),
            _ => Err(
                CGNSError::Other(
                    OtherError::UnsupportedZone { zone_type: zone_type.into_code(), dim },
                ),
            ),
        }
    }
}

/// The typed sizes agree with the sizes that a zone reads from the same raw
/// size: for the zones that have typed sizes, the vertex and cell counts are
/// the first two parts of `zone_dim` entries of the raw size.
pub proof fn law_typed_sizes_agree(ztype: ZoneType, dim: i32, vals: Seq<i64>)
    requires
        vals.len() == 9,
        ztype == ZoneType::Unstructured || (ztype == ZoneType::Structured && (dim == 2
            || dim == 3)),
    ensures
        ({
            let d = zone_dim(ztype, dim);
            &&& ztype == ZoneType::Structured ==> d == dim && vals.subrange(0, d)
                == vals.subrange(0, dim as int) && vals.subrange(d, 2 * d) == vals.subrange(
                dim as int,
                2 * dim,
            )
            &&& ztype == ZoneType::Unstructured ==> d == 1 && vals.subrange(0, d) == seq![vals[0]]
                && vals.subrange(d, 2 * d) == seq![vals[1]] && vals.subrange(2 * d, 3 * d)
                == seq![vals[2]]
        }),
{
    let d = zone_dim(ztype, dim);
    if ztype == ZoneType::Unstructured {
        assert(vals.subrange(0, d) =~= seq![vals[0]]);
        assert(vals.subrange(d, 2 * d) =~= seq![vals[1]]);
        assert(vals.subrange(2 * d, 3 * d) =~= seq![vals[2]]);
    }
}

} // verus!
