//! A friendly but low-level model of the CGNS mid-level library.
//!
//! The types here describe the nodes of a CGNS file (bases, zones, sections,
//! boundary conditions, solutions, coordinates) and the computations made on
//! the values that the C library hands back: decoding node names, slicing zone
//! sizes, validating element buffers and rebuilding connectivity offsets.

pub mod errors;
pub mod utils;
pub mod library;
pub mod traits;
pub mod file;
pub mod types;
