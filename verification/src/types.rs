//! Enumerations of the CGNS standard that the node types read.
use vstd::prelude::*;

verus! {

/// Where the values of a solution are located (`GridLocation_t`).
#[derive(Debug, Clone, Copy, PartialEq, Eq)]
pub enum GridLocation {
    GridLocationNull,
    GridLocationUserDefined,
    Vertex,
    CellCenter,
    FaceCenter,
    IFaceCenter,
    JFaceCenter,
    KFaceCenter,
    EdgeCenter,
}

/// The code of `l` in the CGNS library.
pub open spec fn grid_location_code(l: GridLocation) -> u32 {
    match l {
        GridLocation::GridLocationNull => 0,
        GridLocation::GridLocationUserDefined => 1,
        GridLocation::Vertex => 2,
        GridLocation::CellCenter => 3,
        GridLocation::FaceCenter => 4,
        GridLocation::IFaceCenter => 5,
        GridLocation::JFaceCenter => 6,
        GridLocation::KFaceCenter => 7,
        GridLocation::EdgeCenter => 8,
    }
}

impl GridLocation {
    /// The code of the location in the CGNS library.
    pub fn into_code(self) -> (r: u32)
        ensures
            r == grid_location_code(self),
    {
        match self {
            GridLocation::GridLocationNull => 0,
            GridLocation::GridLocationUserDefined => 1,
            GridLocation::Vertex => 2,
            GridLocation::CellCenter => 3,
            GridLocation::FaceCenter => 4,
            GridLocation::IFaceCenter => 5,
            GridLocation::JFaceCenter => 6,
            GridLocation::KFaceCenter => 7,
            GridLocation::EdgeCenter => 8,
        }
    }

    /// The location that has this code, if any.
    pub fn try_from_code(code: u32) -> (r: Option<Self>)
        ensures
            r is Some <==> code <= 8,
            r matches Some(l) ==> grid_location_code(l) == code,
    {
        match code {
            0 => Some(GridLocation::GridLocationNull),
            1 => Some(GridLocation::GridLocationUserDefined),
            2 => Some(GridLocation::Vertex),
            3 => Some(GridLocation::CellCenter),
            4 => Some(GridLocation::FaceCenter),
            5 => Some(GridLocation::IFaceCenter),
            6 => Some(GridLocation::JFaceCenter),
            7 => Some(GridLocation::KFaceCenter),
            8 => Some(GridLocation::EdgeCenter),
            _ => None,
        }
    }
}

/// Type of the values of a data array (`DataType_t`).
#[derive(Debug, Clone, Copy, PartialEq, Eq)]
pub enum DataType {
    DataTypeNull,
    DataTypeUserDefined,
    Integer,
    RealSingle,
    RealDouble,
    Character,
    LongInteger,
    ComplexSingle,
    ComplexDouble,
}

/// The code of `t` in the CGNS library.
pub open spec fn data_type_code(t: DataType) -> u32 {
    match t {
        DataType::DataTypeNull => 0,
        DataType::DataTypeUserDefined => 1,
        DataType::Integer => 2,
        DataType::RealSingle => 3,
        DataType::RealDouble => 4,
        DataType::Character => 5,
        DataType::LongInteger => 6,
        DataType::ComplexSingle => 7,
        DataType::ComplexDouble => 8,
    }
}

impl DataType {
    /// The code of the data type in the CGNS library.
    pub fn into_code(self) -> (r: u32)
        ensures
            r == data_type_code(self),
    {
        match self {
            DataType::DataTypeNull => 0,
            DataType::DataTypeUserDefined => 1,
            DataType::Integer => 2,
            DataType::RealSingle => 3,
            DataType::RealDouble => 4,
            DataType::Character => 5,
            DataType::LongInteger => 6,
            DataType::ComplexSingle => 7,
            DataType::ComplexDouble => 8,
        }
    }

    /// The data type that has this code, if any.
    pub fn try_from_code(code: u32) -> (r: Option<Self>)
        ensures
            r is Some <==> code <= 8,
            r matches Some(t) ==> data_type_code(t) == code,
    {
        match code {
            0 => Some(DataType::DataTypeNull),
            1 => Some(DataType::DataTypeUserDefined),
            2 => Some(DataType::Integer),
            3 => Some(DataType::RealSingle),
            4 => Some(DataType::RealDouble),
            5 => Some(DataType::Character),
            6 => Some(DataType::LongInteger),
            7 => Some(DataType::ComplexSingle),
            8 => Some(DataType::ComplexDouble),
            _ => None,
        }
    }
}

/// Distinct locations have distinct codes, so a location is found again from
/// its code.
pub proof fn law_grid_location_code_injective(a: GridLocation, b: GridLocation)
    ensures
        grid_location_code(a) == grid_location_code(b) ==> a == b,
{
}

/// Distinct data types have distinct codes, so a data type is found again
/// from its code.
pub proof fn law_data_type_code_injective(a: DataType, b: DataType)
    ensures
        data_type_code(a) == data_type_code(b) ==> a == b,
{
}

} // verus!
