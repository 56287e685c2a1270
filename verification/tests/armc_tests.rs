use armc::Armc;
use std::sync::Arc;
use std::sync::Mutex;

#[test]
fn it_works() {
    let result = Armc::new(5i32);
    let mut guard = result.lock();
    let v: i32 = *guard.read();
    guard.write(v - 1);
    guard.release();
    let reader = result.lock_ref();
    assert_eq!(*reader.read(), 4);
    reader.release();
}

#[test]
fn test_cast_to_arc() {
    let result = Armc::new(5i32);
    let mut guard = result.lock();
    let v: i32 = *guard.read();
    guard.write(v - 1);
    guard.release();
    let arc_r: Arc<i32> = result.clone().into_arc();
    let reader = result.lock_ref();
    assert_eq!(*reader.read(), 4);
    reader.release();
    assert_eq!(*arc_r.as_ref(), 4);
    let arc_mut_r: Arc<Mutex<i32>> = result.into_arc_mutex();
    assert_eq!(*arc_mut_r.lock().unwrap(), 4);
}

#[test]
fn test_unwrap() {
    let result = Armc::new(5i32);
    let mut guard = result.lock();
    let v: i32 = *guard.read();
    guard.write(v - 1);
    guard.release();
    match Armc::try_unwrap(result) {
        Ok(_) => assert!(true),
        Err(_) => assert!(false),
    }
}

#[test]
fn new_then_lock_reads_initial() {
    let handle = Armc::new(41u64);
    let guard = handle.lock();
    assert_eq!(*guard.read(), 41);
    guard.release();
}

#[test]
fn new_then_lock_ref_reads_initial() {
    let handle = Armc::new(String::from("first"));
    let reader = handle.lock_ref();
    assert_eq!(reader.read().as_str(), "first");
    reader.release();
}

#[test]
fn mutation_visible_through_clones() {
    let numbers = Armc::new(vec![1i64, 2, 3]);
    let other = numbers.clone();

    let mut guard = other.lock();
    let mut changed: Vec<i64> = guard.read().clone();
    for x in changed.iter_mut() {
        *x *= 10;
    }
    guard.write(changed);
    guard.release();

    let reader = numbers.lock_ref();
    assert_eq!(reader.read().as_slice(), &[10i64, 20, 30]);
    reader.release();

    let guard = numbers.lock();
    assert_eq!(guard.read().as_slice(), &[10i64, 20, 30]);
    guard.release();
}

#[test]
fn clone_equality_is_identity() {
    let a = Armc::new(5i32);
    let b = a.clone();
    assert!(a == b);

    let c = Armc::new(5i32);
    assert!(!(a == c));
    assert!(!(b == c));
}

#[test]
fn try_unwrap_fails_while_clone_survives() {
    let a = Armc::new(5i32);
    let b = a.clone();

    let kept = match Armc::try_unwrap(a) {
        Ok(_) => panic!("unwrap must fail while a clone survives"),
        Err(handle) => handle,
    };

    assert!(kept == b);
    let reader = kept.lock_ref();
    assert_eq!(*reader.read(), 5);
    reader.release();

    drop(b);
    match Armc::try_unwrap(kept) {
        Ok(value) => assert_eq!(value, 5),
        Err(_) => panic!("unwrap must succeed for the last handle"),
    }
}

#[test]
fn shared_guards_coexist() {
    let handle = Armc::new(8u32);
    let clone = handle.clone();
    let first = handle.lock_ref();
    let second = clone.lock_ref();
    assert_eq!(*first.read(), 8);
    assert_eq!(*second.read(), 8);
    first.release();
    second.release();
}

#[test]
fn repeated_guarded_increments_accumulate() {
    let handle = Armc::new(0i64);
    let clone = handle.clone();
    for _ in 0..10 {
        let mut guard = clone.lock();
        let v: i64 = *guard.read();
        guard.write(v + 3);
        guard.release();
    }
    let reader = handle.lock_ref();
    assert_eq!(*reader.read(), 30);
    reader.release();
}

#[test]
fn round_trip_preserves_content() {
    let handle = Armc::new(42u8);
    let arc: Arc<u8> = handle.into_arc();
    assert_eq!(*arc, 42);

    let handle = Armc::new(String::from("payload"));
    let arc: Arc<Mutex<String>> = handle.into_arc_mutex();
    assert_eq!(arc.lock().unwrap().as_str(), "payload");
}
