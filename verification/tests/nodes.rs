use cgns_rust::errors::{CGNSError, OtherError};
use cgns_rust::file::base::zone::boundary_conditions::BC;
use cgns_rust::file::base::zone::elements::Element;
use cgns_rust::file::base::zone::flow_solution::field::Field;
use cgns_rust::file::base::zone::flow_solution::FlowSolution;
use cgns_rust::file::base::zone::grid_coordinate::coords::Coordinates;
use cgns_rust::file::base::zone::grid_coordinate::GridCoordinates;
use cgns_rust::file::base::zone::section::{MIXED, NGON_N};
use cgns_rust::file::base::zone::{Zone, ZoneType};
use cgns_rust::file::base::Base;
use cgns_rust::file::File;
use cgns_rust::library::LibraryHandle;
use cgns_rust::traits::{CGNSNode, CGNSNodeIterator};
use cgns_rust::types::{DataType, GridLocation};

#[test]
fn field_extent_and_length() {
    let lib = LibraryHandle::fake_aquire();
    let file = File::from_id(&lib, 1);
    let base = Base::new(&file, "B".to_string(), 3, 3, 1);
    let zone = Zone::new(&base, "Z".to_string(), [5, 6, 7, 4, 5, 6, 0, 0, 0], ZoneType::Structured, 1);
    let at_vertices = FlowSolution::from_raw(&zone, 1, b"Sol\0", GridLocation::Vertex).unwrap();
    let at_cells = FlowSolution::from_raw(&zone, 2, b"SolC\0", GridLocation::CellCenter).unwrap();
    let f = Field::from_raw(&at_vertices, 1, b"Density\0", DataType::RealSingle).unwrap();
    assert_eq!(f.name, "Density");
    assert_eq!(*f.location(), GridLocation::Vertex);
    assert_eq!(f.size(), [5, 6, 7]);
    assert_eq!(f.data_len(), 210);
    let g = Field::from_raw(&at_cells, 1, b"Pressure\0", DataType::RealDouble).unwrap();
    assert_eq!(g.size(), [4, 5, 6]);
    assert_eq!(g.data_len(), 120);
    assert_eq!(g.parent().id(), 2);

    // A surface in 3D: sizes follow the cell (index) dimension.
    let base2 = Base::new(&file, "B2".to_string(), 2, 3, 2);
    let zone2 = Zone::new(&base2, "Z2".to_string(), [5, 6, 4, 5, 0, 0, 0, 0, 0], ZoneType::Structured, 1);
    let sol2 = FlowSolution::from_raw(&zone2, 1, b"S\0", GridLocation::CellCenter).unwrap();
    let h = Field::from_raw(&sol2, 1, b"T\0", DataType::RealSingle).unwrap();
    assert_eq!(h.size(), [4, 5, 1]);
    assert_eq!(h.data_len(), 20);
}

#[test]
fn grid_coordinates() {
    let lib = LibraryHandle::fake_aquire();
    let file = File::from_id(&lib, 1);
    let base = Base::new(&file, "B".to_string(), 3, 3, 1);
    let zone = Zone::new(&base, "Z".to_string(), [100, 50, 10, 0, 0, 0, 0, 0, 0], ZoneType::Unstructured, 1);
    let grid = GridCoordinates::from_raw(&zone, 1, b"GridCoordinates\0").unwrap();
    assert_eq!(grid.check_children_readable(), Ok(()));
    let second = GridCoordinates::new(&zone, "Other".to_string(), 2);
    assert_eq!(
        second.check_children_readable(),
        Err(CGNSError::Other(OtherError::SingleGridCoordinates))
    );
    let x = Coordinates::from_raw(&grid, 1, b"CoordinateX\0", DataType::RealDouble).unwrap();
    assert_eq!(x.name, "CoordinateX");
    assert_eq!(x.dtype, DataType::RealDouble);
    assert_eq!(x.point_count(), 100);
}

#[test]
fn boundary_condition_flags() {
    let lib = LibraryHandle::fake_aquire();
    let file = File::from_id(&lib, 1);
    let base = Base::new(&file, "B".to_string(), 3, 3, 1);
    let zone = Zone::new(&base, "Z".to_string(), [1; 9], ZoneType::Unstructured, 1);
    let bc = BC::from_raw(&zone, 4, b"Wall\0", 20, 4, 12, [1, 0, 0], 1, DataType::RealDouble, 0).unwrap();
    assert_eq!(bc.name, "Wall");
    assert!(bc.normal_list_flag);
    assert_eq!(bc.nb_points, 12);
    assert_eq!(bc.id(), 4);
    let bc = BC::from_raw(&zone, 5, b"Inlet\0", 9, 4, 3, [0, 0, 0], 0, DataType::DataTypeNull, 1).unwrap();
    assert!(!bc.normal_list_flag);
}

#[test]
fn first_element_sections() {
    let lib = LibraryHandle::fake_aquire();
    let file = File::from_id(&lib, 1);
    let base = Base::new(&file, "B".to_string(), 3, 3, 1);
    let zone = Zone::new(&base, "Z".to_string(), [1; 9], ZoneType::Unstructured, 1);
    let e = Element::from_raw(&zone, 1, b"Poly\0", NGON_N, 1, 10, 0, 0).unwrap();
    assert_eq!(e.size(), 10);
    assert!(e.connectivity_has_offsets(false));
    assert!(!e.connectivity_has_offsets(true));
    // As many offsets as the library writes: one per element and one more.
    assert_eq!(e.check_offsets_buffer(false, Some(11)), Ok(()));
    assert_eq!(
        e.check_offsets_buffer(false, Some(10)),
        Err(CGNSError::Other(OtherError::OffsetBufferLength { len: 10, size: 10 }))
    );
    assert_eq!(
        e.check_offsets_buffer(false, None),
        Err(CGNSError::Other(OtherError::MissingOffsetBuffer))
    );
    assert_eq!(e.check_offsets_buffer(true, None), Ok(()));
    let buffers = e.new_connectivity_buffers(false, 40);
    assert_eq!(buffers.connectivity.len(), 40);
    assert_eq!(buffers.offsets.map(|o| o.len()), Some(11));
    let m = Element::from_raw(&zone, 2, b"Mixed\0", MIXED, 11, 11, 0, 1).unwrap();
    assert_eq!(m.new_connectivity_buffers(true, 5).offsets, None);
}

#[test]
fn children_walk() {
    let mut it = CGNSNodeIterator::new(3);
    assert_eq!(it.len(), 3);
    assert_eq!(it.next_id(), Some(1));
    assert_eq!(it.next_id(), Some(2));
    assert_eq!(it.len(), 1);
    assert_eq!(it.next_id(), Some(3));
    assert_eq!(it.next_id(), None);
    assert_eq!(it.next_id(), None);
    assert_eq!(it.len(), 0);
    let mut empty = CGNSNodeIterator::new(0);
    assert_eq!(empty.next_id(), None);
    // A negative number of children counts as none.
    let mut negative = CGNSNodeIterator::new(-3);
    assert_eq!(negative.len(), 0);
    assert_eq!(negative.next_id(), None);
}

#[test]
fn children_read_in_order() {
    // Child 2 cannot be read: its step gives nothing, and the walk goes on.
    let read = |id: i32| if id == 2 { Err("unreadable") } else { Ok(id * 10) };
    let mut it = CGNSNodeIterator::new(3);
    assert_eq!(it.next_node(&read), Some(10));
    assert_eq!(it.next_node(&read), None);
    assert_eq!(it.len(), 1);
    assert_eq!(it.next_node(&read), Some(30));
    assert_eq!(it.next_node(&read), None);
    assert_eq!(it.len(), 0);
}

#[test]
fn code_round_trips() {
    for code in 0..9 {
        assert_eq!(GridLocation::try_from_code(code).unwrap().into_code(), code);
        assert_eq!(DataType::try_from_code(code).unwrap().into_code(), code);
    }
    assert_eq!(GridLocation::try_from_code(9), None);
    assert_eq!(DataType::try_from_code(9), None);
}
