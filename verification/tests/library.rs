use cgns_rust::library::{LibraryHandle, LibraryLock, LIBRARY_IN_USE, MAX_SLEEP_MULTIPLIER};

#[test]
fn one_handle_at_a_time() {
    let mut lock = LibraryLock::new();
    assert!(!lock.is_in_use());
    let handle = LibraryHandle::try_acquire(&mut lock).unwrap();
    assert!(lock.is_in_use());
    assert_eq!(LibraryHandle::try_acquire(&mut lock).err(), Some(LIBRARY_IN_USE));
    assert!(lock.is_in_use());
    handle.release(&mut lock);
    assert!(!lock.is_in_use());
    let handle = LibraryHandle::try_acquire(&mut lock).unwrap();
    handle.release(&mut lock);
}

#[test]
fn in_use_message() {
    assert_eq!(LIBRARY_IN_USE, "The CGNS library is already in use.");
}

#[test]
fn sleep_multiplier_grows_to_a_cap() {
    assert_eq!(LibraryHandle::next_sleep_multiplier(0), 1);
    assert_eq!(LibraryHandle::next_sleep_multiplier(41), 42);
    assert_eq!(LibraryHandle::next_sleep_multiplier(499), 500);
    assert_eq!(LibraryHandle::next_sleep_multiplier(500), MAX_SLEEP_MULTIPLIER);
    assert_eq!(LibraryHandle::next_sleep_multiplier(u32::MAX), 500);
}
