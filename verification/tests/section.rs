use cgns_rust::errors::{CGNSError, OtherError};
use cgns_rust::file::base::zone::section::{
    can_fix_offsets, check_connectivity_buffer, fix_missing_elements_offsets, offsets_are_untouched, Section, CONTROL_PATTERN, MIXED, NFACE_N, NGON_N,
};
use cgns_rust::file::base::zone::{Zone, ZoneType};
use cgns_rust::file::base::Base;
use cgns_rust::file::File;
use cgns_rust::library::LibraryHandle;

#[test]
fn test_fix_missing_elements_offsets() {
    let mut connectivity = [3, 1, 2, 3, 4, 3, 2, 1, 4, 4, 4, 3, 2, 1, 2, 1, 2];
    let mut offsets = [0, 0, 0, 0, 0];
    let new_conn_len =
        fix_missing_elements_offsets(&mut connectivity, &mut offsets, NGON_N, &[]).unwrap();
    assert_eq!(new_conn_len, 13);
    assert_eq!(
        &connectivity[..new_conn_len],
        &[1, 2, 3, 3, 2, 1, 4, 4, 3, 2, 1, 1, 2]
    );
    assert_eq!(offsets, [0, 3, 7, 11, 13]);
}

#[test]
fn fix_offsets_nface_keeps_the_tail() {
    let mut connectivity = [2, 7, 8, 1, 9];
    let mut offsets = [5, 5, 5];
    let len = fix_missing_elements_offsets(&mut connectivity, &mut offsets, NFACE_N, &[]).unwrap();
    assert_eq!(len, 3);
    // The tail of the buffer keeps its old values.
    assert_eq!(connectivity, [7, 8, 9, 1, 9]);
    assert_eq!(offsets, [0, 2, 3]);
}

#[test]
fn fix_offsets_mixed_uses_element_sizes() {
    // Type 5 has three nodes, type 7 four.
    let mut npe = vec![0i64; 10];
    npe[5] = 3;
    npe[7] = 4;
    let mut connectivity = [5, 1, 2, 3, 7, 1, 2, 3, 4, 5, 4, 5, 6];
    let mut offsets = [9, 9, 9, 9];
    let len = fix_missing_elements_offsets(&mut connectivity, &mut offsets, MIXED, &npe).unwrap();
    assert_eq!(len, 13);
    assert_eq!(offsets, [0, 4, 9, 13]);
    // MIXED connectivity keeps the element types.
    assert_eq!(connectivity, [5, 1, 2, 3, 7, 1, 2, 3, 4, 5, 4, 5, 6]);
}

#[test]
fn fix_offsets_mixed_unknown_type() {
    let npe = vec![0i64, 0, 1, 2];
    let mut connectivity = [3, 1, 2, 42, 1];
    let mut offsets = [7, 7, 7, 7];
    let r = fix_missing_elements_offsets(&mut connectivity, &mut offsets, MIXED, &npe);
    assert_eq!(
        r,
        Err(CGNSError::Other(OtherError::InvalidMixedElement { value: 42 }))
    );
    assert_eq!(offsets, [0, 3, 7, 7]);
}

#[test]
fn fix_offsets_refuses_other_types() {
    let mut connectivity = [1, 2, 3];
    let mut offsets = [4, 4];
    let r = fix_missing_elements_offsets(&mut connectivity, &mut offsets, 5, &[]);
    assert_eq!(
        r,
        Err(CGNSError::Other(OtherError::InvalidElementTypeForOffsets { elem_type: 5 }))
    );
    assert_eq!(offsets, [0, 4]);
    assert_eq!(connectivity, [1, 2, 3]);
}

#[test]
fn fix_offsets_no_element() {
    let mut connectivity: [i64; 0] = [];
    let mut offsets = [3];
    let r = fix_missing_elements_offsets(&mut connectivity, &mut offsets, NGON_N, &[]);
    assert_eq!(r, Ok(0));
    assert_eq!(offsets, [0]);
}

fn with_section(elem_type: u32, start: i64, end: i64, f: impl FnOnce(&Section)) {
    let lib = LibraryHandle::fake_aquire();
    let file = File::from_id(&lib, 1);
    let base = Base::new(&file, "Base".to_string(), 3, 3, 1);
    let zone = Zone::new(&base, "Zone".to_string(), [8, 1, 0, 0, 0, 0, 0, 0, 0], ZoneType::Unstructured, 1);
    let section = Section::from_raw(&zone, 1, b"Elem\0\0", elem_type, start, end, 0, 1).unwrap();
    f(&section)
}

#[test]
fn section_sizes() {
    with_section(NGON_N, 3, 7, |s| {
        assert_eq!(s.name, "Elem");
        assert!(s.has_parent_data);
        assert!(s.elements_have_offsets());
        assert_eq!(s.size(), 5);
        assert_eq!(s.offsets_len(), 6);
    });
    with_section(5, 1, 1, |s| {
        assert!(!s.elements_have_offsets());
        assert_eq!(s.size(), 1);
    });
}

#[test]
fn section_buffer_checks() {
    with_section(NGON_N, 1, 4, |s| {
        assert_eq!(
            s.check_offsets_buffer(None),
            Err(CGNSError::Other(OtherError::MissingOffsetBuffer))
        );
        assert_eq!(
            s.check_offsets_buffer(Some(4)),
            Err(CGNSError::Other(OtherError::OffsetBufferLength { len: 4, size: 4 }))
        );
        assert_eq!(s.check_offsets_buffer(Some(5)), Ok(()));
    });
    with_section(5, 1, 4, |s| {
        assert_eq!(s.check_offsets_buffer(None), Ok(()));
        assert_eq!(s.check_offsets_buffer(Some(1)), Ok(()));
    });
    assert_eq!(
        check_connectivity_buffer(9, 10),
        Err(CGNSError::Other(OtherError::ConnectivityBufferLength { len: 9, expected: 10 }))
    );
    assert_eq!(check_connectivity_buffer(10, 10), Ok(()));
}

#[test]
fn section_read_steps() {
    with_section(NGON_N, 1, 2, |s| {
        let buffers = s.new_elements_buffers(6);
        assert_eq!(buffers.connectivity, vec![0; 6]);
        assert_eq!(buffers.offsets, Some(vec![0; 3]));

        // The library wrote the old layout and left the offsets alone.
        let mut connectivity = [2, 1, 2, 2, 3, 4];
        let mut offsets = [0, 0, 0];
        Section::mark_offsets_buffer(&mut offsets);
        assert_eq!(offsets, [CONTROL_PATTERN[0], CONTROL_PATTERN[1], 0]);
        let len = s.finish_elements_read(&mut connectivity, &mut offsets, &[]).unwrap();
        assert_eq!(len, 4);
        assert_eq!(offsets, [0, 2, 4]);
        assert_eq!(&connectivity[..len], &[1, 2, 3, 4]);

        // The library wrote the offsets: nothing to rebuild.
        let mut connectivity = [1, 2, 3, 4];
        let mut offsets = [0, 2, 4];
        let len = s.finish_elements_read(&mut connectivity, &mut offsets, &[]).unwrap();
        assert_eq!(len, 4);
        assert_eq!(offsets, [0, 2, 4]);
    });
    with_section(5, 1, 2, |s| {
        let buffers = s.new_elements_buffers(6);
        assert_eq!(buffers.offsets, None);
    });
}

#[test]
fn fix_offsets_mixed_type_from_low_bits() {
    // The type of an element is taken from the low 32 bits of its value.
    let npe = vec![0i64, 0, 1, 2];
    let mut connectivity = [(1i64 << 32) + 3, 1, 2, 2, 7];
    let mut offsets = [9, 9, 9];
    let len = fix_missing_elements_offsets(&mut connectivity, &mut offsets, MIXED, &npe).unwrap();
    assert_eq!(len, 5);
    assert_eq!(offsets, [0, 3, 5]);
    // A negative value names no known type.
    let mut connectivity = [-1, 1];
    let mut offsets = [9, 9];
    assert_eq!(
        fix_missing_elements_offsets(&mut connectivity, &mut offsets, MIXED, &npe),
        Err(CGNSError::Other(OtherError::InvalidMixedElement { value: -1 }))
    );
}

#[test]
fn untouched_offsets() {
    assert!(offsets_are_untouched(&[]));
    assert!(offsets_are_untouched(&[1337]));
    assert!(offsets_are_untouched(&[1337, 420, 5]));
    assert!(!offsets_are_untouched(&[0, 420]));
    assert!(!offsets_are_untouched(&[1337, 0]));
}

#[test]
fn fix_preconditions_are_checked() {
    let connectivity = [3, 1, 2, 3, 4, 3, 2, 1, 4, 4, 4, 3, 2, 1, 2, 1, 2];
    assert!(can_fix_offsets(&connectivity, 5, NGON_N, &[]));
    // One element more than the buffer holds.
    assert!(!can_fix_offsets(&connectivity, 6, NGON_N, &[]));
    // A count that runs past the end.
    assert!(!can_fix_offsets(&[9, 1, 2], 2, NFACE_N, &[]));
    assert!(!can_fix_offsets(&[], 0, NGON_N, &[]));
    let npe = [0i64, 0, 1, 2];
    assert!(can_fix_offsets(&[3, 1, 2, 2, 1], 3, MIXED, &npe));
    // An unknown type stops the walk with an error, safely.
    assert!(can_fix_offsets(&[3, 1, 2, 42, 1], 4, MIXED, &npe));
    // The walk reaches past the buffer.
    assert!(!can_fix_offsets(&[3, 1, 2], 3, MIXED, &npe));
    // Negative sizes are refused.
    assert!(!can_fix_offsets(&[3, 1, 2], 2, MIXED, &[0, 0, 0, -1]));
    // Other types need nothing.
    assert!(can_fix_offsets(&[], 1, 5, &[]));
}
