use armc::cell::Core;

#[test]
fn cell_new_then_lock_reads_initial() {
    let mut cell = Core::new(5i32);
    cell.lock();
    assert_eq!(*cell.get(), 5);
    cell.unlock();
}

#[test]
fn cell_write_under_lock_persists() {
    let mut cell = Core::new(5i32);
    cell.lock();
    cell.set(9);
    assert_eq!(*cell.get(), 9);
    cell.unlock();
    assert_eq!(*cell.get(), 9);
    assert_eq!(Core::unwrap(cell), 9);
}

#[test]
fn cell_readers_come_and_go() {
    let mut cell = Core::new(7u64);
    cell.lock_ref();
    cell.lock_ref();
    assert_eq!(*cell.get(), 7);
    cell.unlock_ref();
    cell.unlock_ref();
    cell.lock();
    cell.set(8);
    cell.unlock();
    assert_eq!(*cell.get(), 8);
}

#[test]
fn cell_unwrap_returns_initial_value() {
    let cell = Core::new(String::from("kept"));
    assert_eq!(Core::unwrap(cell).as_str(), "kept");
}
