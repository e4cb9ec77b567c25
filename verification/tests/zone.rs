use cgns_rust::errors::{CGNSError, OtherError};
use cgns_rust::file::base::zone::typed_size::{self, ZoneSizeStructured, ZoneSizeUnstructured};
use cgns_rust::file::base::zone::{slice_sum, Zone, ZoneSize, ZoneSize1D, ZoneType};
use cgns_rust::file::base::{Base, CellDimension};
use cgns_rust::file::{File, OpenFileMode};
use cgns_rust::library::LibraryHandle;
use cgns_rust::traits::CGNSNode;

#[test]
fn zone_size_raw() {
    let size1 = ZoneSize {
        vertices: &[9999],
        cells: &[999],
        bound_vertices: &[123],
    };
    let size2 = ZoneSize {
        vertices: &[12, 12, 12],
        cells: &[11, 11, 11],
        bound_vertices: &[0, 0, 0],
    };
    assert_eq!(size1.raw(), [9999, 999, 123, 0, 0, 0, 0, 0, 0]);
    assert_eq!(size2.raw(), [12, 12, 12, 11, 11, 11, 0, 0, 0]);
    assert_eq!(
        size2.total_size(),
        ZoneSize1D { vertices: 36, cells: 33, bound_vertices: 0 }
    );
}

#[test]
fn zone_sizes_by_type_and_dimension() {
    let lib = LibraryHandle::fake_aquire();
    let file = File::from_id(&lib, 1);
    let raw = [1, 2, 3, 4, 5, 6, 7, 8, 9];
    let b3 = Base::new(&file, "ArcticBase".to_string(), 3, 3, 1);
    let b2 = Base::new(&file, "Flat".to_string(), 2, 2, 2);
    let b1 = Base::new(&file, "Line".to_string(), 1, 1, 3);
    let b4 = Base::new(&file, "Odd".to_string(), 4, 4, 4);
    let surface = Base::new(&file, "Surface".to_string(), 2, 3, 5);

    let z = Zone::new(&b3, "S3".to_string(), raw, ZoneType::Structured, 1);
    let s = z.size();
    assert_eq!((s.vertices, s.cells, s.bound_vertices), (&[1, 2, 3][..], &[4, 5, 6][..], &[7, 8, 9][..]));
    assert_eq!(z.total_size(), ZoneSize1D { vertices: 6, cells: 15, bound_vertices: 24 });

    let z = Zone::new(&b2, "S2".to_string(), raw, ZoneType::Structured, 1);
    let s = z.size();
    assert_eq!((s.vertices, s.cells, s.bound_vertices), (&[1, 2][..], &[3, 4][..], &[5, 6][..]));

    let z = Zone::new(&b1, "S1".to_string(), raw, ZoneType::Structured, 1);
    let s = z.size();
    assert_eq!((s.vertices, s.cells, s.bound_vertices), (&[1][..], &[2][..], &[3][..]));

    // A surface in 3D: the raw size is laid out by the index dimension, 2.
    let surface_raw = [5, 7, 4, 6, 0, 0, 0, 0, 0];
    let z = Zone::new(&surface, "Sheet".to_string(), surface_raw, ZoneType::Structured, 1);
    let s = z.size();
    assert_eq!((s.vertices, s.cells, s.bound_vertices), (&[5, 7][..], &[4, 6][..], &[0, 0][..]));

    let z = Zone::new(&b3, "U".to_string(), raw, ZoneType::Unstructured, 2);
    let s = z.size();
    assert_eq!((s.vertices, s.cells, s.bound_vertices), (&[1][..], &[2][..], &[3][..]));

    let z = Zone::new(&b4, "Bad".to_string(), raw, ZoneType::Structured, 1);
    let s = z.size();
    assert!(s.vertices.is_empty() && s.cells.is_empty() && s.bound_vertices.is_empty());
    assert_eq!(z.total_size(), ZoneSize1D { vertices: 0, cells: 0, bound_vertices: 0 });

    let z = Zone::new(&b3, "Null".to_string(), raw, ZoneType::ZoneTypeNull, 1);
    assert!(z.size().vertices.is_empty());
}

#[test]
fn zone_written_size_read_back() {
    let lib = LibraryHandle::fake_aquire();
    let file = File::from_id(&lib, 1);
    let base = Base::new(&file, "ArcticBase".to_string(), 3, 3, 1);
    let size1 = ZoneSize { vertices: &[9999], cells: &[999], bound_vertices: &[123] };
    let z2 = Zone::new(&base, "ElementEighty".to_string(), size1.raw(), ZoneType::Unstructured, 2);
    assert_eq!(z2.id(), 2);
    assert_eq!(z2.name, "ElementEighty");
    assert_eq!(z2.raw_size(), [9999, 999, 123, 0, 0, 0, 0, 0, 0]);
    let back = z2.size();
    assert_eq!(back.vertices, size1.vertices);
    assert_eq!(back.cells, size1.cells);
    assert_eq!(back.bound_vertices, size1.bound_vertices);
    assert_eq!(back.raw(), z2.raw_size());
}

#[test]
fn zone_read_from_raw() {
    let lib = LibraryHandle::fake_aquire();
    let file = File::from_id(&lib, 1);
    let base = Base::new(&file, "ArcticBase".to_string(), 3, 3, 1);
    let z = Zone::from_raw(&base, 3, b"Stratovarius\0garbage", [1; 9], ZoneType::Structured).unwrap();
    assert_eq!(z.name, "Stratovarius");
    assert_eq!(z.id(), 3);
    assert_eq!(z.ztype(), ZoneType::Structured);
    assert_eq!(z.parent().name, "ArcticBase");
    assert!(Zone::from_raw(&base, 3, b"no end", [1; 9], ZoneType::Structured).is_err());
}

#[test]
fn typed_zone_sizes() {
    let vals = [1, 2, 3, 4, 5, 6, 7, 8, 9];
    assert_eq!(
        typed_size::ZoneSize::from_raw_values(vals, ZoneType::Structured, 2),
        Ok(typed_size::ZoneSize::Structured2D(ZoneSizeStructured {
            n_vertex: [1, 2],
            n_cells: [3, 4]
        }))
    );
    assert_eq!(
        typed_size::ZoneSize::from_raw_values(vals, ZoneType::Structured, 3),
        Ok(typed_size::ZoneSize::Structured3D(ZoneSizeStructured {
            n_vertex: [1, 2, 3],
            n_cells: [4, 5, 6]
        }))
    );
    assert_eq!(
        typed_size::ZoneSize::from_raw_values(vals, ZoneType::Unstructured, 7),
        Ok(typed_size::ZoneSize::Unstructured(ZoneSizeUnstructured {
            n_vertex: 1,
            n_cells: 2,
            n_bound_vertex: 3
        }))
    );
    assert_eq!(
        typed_size::ZoneSize::from_raw_values(vals, ZoneType::Structured, 1),
        Err(CGNSError::Other(OtherError::UnsupportedZone { zone_type: 2, dim: 1 }))
    );
    assert_eq!(
        typed_size::ZoneSize::from_raw_values(vals, ZoneType::ZoneTypeUserDefined, 3),
        Err(CGNSError::Other(OtherError::UnsupportedZone { zone_type: 1, dim: 3 }))
    );
}

#[test]
fn zone_type_codes() {
    for code in 0..4 {
        assert_eq!(ZoneType::try_from_code(code).unwrap().into_code(), code);
    }
    assert_eq!(ZoneType::try_from_code(4), None);
    assert_eq!(ZoneType::Unstructured.into_code(), 3);
}

#[test]
fn sums() {
    assert_eq!(slice_sum(&[]), 0);
    assert_eq!(slice_sum(&[1, -2, 10]), 9);
}

#[test]
fn base_read_and_written() {
    let lib = LibraryHandle::fake_aquire();
    let file = File::from_id(&lib, 7);
    let b = Base::from_raw(&file, 1, b"HelloWorld\0\0\0", 3, 3).unwrap();
    assert_eq!(b.name, "HelloWorld");
    assert_eq!((b.cell_dim, b.phys_dim, b.id()), (3, 3, 1));
    assert_eq!(b.parent().id(), 7);
    let b2 = Base::new(&file, "zozo".to_string(), 1, 2, 2);
    assert_eq!((b2.name.as_str(), b2.cell_dim, b2.phys_dim, b2.id()), ("zozo", 1, 2, 2));
}

#[test]
fn cell_dimensions() {
    assert_eq!(CellDimension::try_from_i32(1), Some(CellDimension::Line));
    assert_eq!(CellDimension::try_from_i32(2), Some(CellDimension::Surface));
    assert_eq!(CellDimension::try_from_i32(3), Some(CellDimension::Volume));
    assert_eq!(CellDimension::try_from_i32(0), None);
    assert_eq!(CellDimension::try_from_i32(4), None);
    assert_eq!(CellDimension::Volume.into_i32(), 3);
}

#[test]
fn open_modes() {
    assert_eq!(OpenFileMode::Read.into_code(), 0);
    assert_eq!(OpenFileMode::Write.into_code(), 1);
    assert_eq!(OpenFileMode::Modify.into_code(), 2);
    assert_eq!(OpenFileMode::try_from_code(2), Some(OpenFileMode::Modify));
    assert_eq!(OpenFileMode::try_from_code(3), None);
}
