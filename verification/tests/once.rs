use ksync::lazy::{OnceCell, OnceLock};

#[test]
fn once_cell_set_then_get_round_trips() {
    let mut cell: OnceCell<u32> = OnceCell::new();
    assert!(cell.get().is_none());
    assert_eq!(cell.set(5), Ok(()));
    assert_eq!(cell.get(), Some(&5));
}

#[test]
fn once_cell_second_set_fails_and_returns_the_value() {
    let mut cell: OnceCell<u32> = OnceCell::new();
    assert_eq!(cell.set(5), Ok(()));
    assert_eq!(cell.set(7), Err(7));
    assert_eq!(cell.get(), Some(&5));
}

#[test]
fn once_cell_get_or_init_never_reruns_the_initializer() {
    let mut cell: OnceCell<u32> = OnceCell::new();
    assert_eq!(cell.get_or_init(|| 42), Some(&42));
    // The second initializer would produce a different value; the published
    // value staying 42 shows the call took the fast path without it.
    assert_eq!(cell.get_or_init(|| 99), Some(&42));
    assert_eq!(cell.get(), Some(&42));
}

#[test]
fn once_cell_take_empties_the_cell() {
    let mut cell: OnceCell<u32> = OnceCell::new();
    assert_eq!(cell.take(), None);
    assert_eq!(cell.set(3), Ok(()));
    assert_eq!(cell.take(), Some(3));
    assert!(cell.get().is_none());
    assert_eq!(cell.set(4), Ok(()));
    assert_eq!(cell.get(), Some(&4));
}

#[test]
fn once_cell_get_mut_writes_through() {
    let mut cell: OnceCell<u32> = OnceCell::new();
    assert!(cell.get_mut().is_none());
    assert_eq!(cell.set(1), Ok(()));
    if let Some(v) = cell.get_mut() {
        *v = 10;
    }
    assert_eq!(cell.get(), Some(&10));
}

#[test]
fn once_cell_into_inner_returns_the_value() {
    let cell: OnceCell<u32> = OnceCell::new();
    assert_eq!(cell.into_inner(), None);
    let mut cell: OnceCell<u32> = OnceCell::new();
    assert_eq!(cell.set(8), Ok(()));
    assert_eq!(cell.into_inner(), Some(8));
}

#[test]
fn once_cell_teardown_empties_the_cell() {
    let mut cell: OnceCell<u32> = OnceCell::new();
    assert_eq!(cell.set(8), Ok(()));
    OnceCell::drop(&mut cell);
    assert!(cell.get().is_none());
}

#[test]
fn once_lock_set_then_get_round_trips() {
    let mut lock: OnceLock<u32> = OnceLock::new();
    assert!(!lock.is_initialized());
    assert!(lock.get().is_none());
    assert_eq!(lock.set(5), Ok(()));
    assert!(lock.is_initialized());
    assert_eq!(lock.get(), Some(&5));
}

#[test]
fn once_lock_second_set_fails_and_returns_the_value() {
    let mut lock: OnceLock<u32> = OnceLock::new();
    assert_eq!(lock.set(5), Ok(()));
    assert_eq!(lock.set(6), Err(6));
    assert_eq!(lock.get(), Some(&5));
}

#[test]
fn once_lock_get_or_init_never_reruns_the_initializer() {
    let mut lock: OnceLock<u32> = OnceLock::new();
    assert_eq!(lock.get_or_init(|| 11), Some(&11));
    // The second initializer would produce a different value; the published
    // value staying 11 shows it was never invoked.
    assert_eq!(lock.get_or_init(|| 999), Some(&11));
    assert_eq!(lock.get(), Some(&11));
}

#[test]
fn once_lock_wait_returns_the_published_value() {
    let mut lock: OnceLock<u32> = OnceLock::new();
    assert_eq!(lock.set(21), Ok(()));
    assert_eq!(*lock.wait(), 21);
}

#[test]
fn once_lock_take_resets_to_uninitialized() {
    let mut lock: OnceLock<u32> = OnceLock::new();
    assert_eq!(lock.take(), None);
    assert_eq!(lock.set(2), Ok(()));
    assert_eq!(lock.take(), Some(2));
    assert!(!lock.is_initialized());
    assert_eq!(lock.set(3), Ok(()));
    assert_eq!(lock.get(), Some(&3));
}

#[test]
fn once_lock_get_mut_writes_through() {
    let mut lock: OnceLock<u32> = OnceLock::new();
    assert!(lock.get_mut().is_none());
    assert_eq!(lock.set(1), Ok(()));
    if let Some(v) = lock.get_mut() {
        *v = 12;
    }
    assert_eq!(lock.get(), Some(&12));
}

#[test]
fn once_lock_teardown_leaves_it_unusable() {
    let mut lock: OnceLock<u32> = OnceLock::new();
    assert_eq!(lock.set(9), Ok(()));
    OnceLock::drop(&mut lock);
    // After the one permitted teardown the machine no longer reports a
    // value; a second teardown, like any further access, is out of contract.
    assert!(!lock.is_initialized());
}
