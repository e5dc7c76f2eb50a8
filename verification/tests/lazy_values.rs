use ksync::lazy::{LazyCell, LazyLock};

#[test]
fn lazy_lock_force_publishes_the_value() {
    let mut lazy = LazyLock::new(|| 7u32);
    assert!(lazy.get().is_none());
    assert_eq!(*LazyLock::force(&mut lazy), 7);
    assert_eq!(lazy.get(), Some(&7));
}

#[test]
fn lazy_lock_second_force_takes_the_fast_path() {
    let mut lazy = LazyLock::new(|| 7u32);
    assert_eq!(*LazyLock::force(&mut lazy), 7);
    // The initializer was consumed by the first force; the second returns
    // the published value unchanged.
    assert_eq!(*LazyLock::force(&mut lazy), 7);
    assert_eq!(*lazy.force_wait(), 7);
}

#[test]
fn lazy_lock_wait_is_immediate_once_published() {
    let mut lazy = LazyLock::new(|| 3u32);
    LazyLock::force(&mut lazy);
    lazy.wait();
    assert_eq!(lazy.get(), Some(&3));
}

#[test]
fn lazy_lock_get_mut_writes_through() {
    let mut lazy = LazyLock::new(|| 1u32);
    assert!(lazy.get_mut().is_none());
    LazyLock::force(&mut lazy);
    if let Some(v) = lazy.get_mut() {
        *v = 20;
    }
    assert_eq!(lazy.get(), Some(&20));
}

#[test]
fn lazy_lock_teardown_retires_the_machine() {
    let mut lazy = LazyLock::new(|| 7u32);
    LazyLock::force(&mut lazy);
    LazyLock::drop(&mut lazy);
    // The one permitted teardown; any further access is out of contract.
}

#[test]
fn lazy_cell_force_publishes_the_value() {
    let mut cell = LazyCell::new(|| 40u32 + 2);
    assert!(cell.get().is_none());
    assert_eq!(*LazyCell::force(&mut cell), 42);
    assert_eq!(cell.get(), Some(&42));
    assert_eq!(*LazyCell::force(&mut cell), 42);
}

#[test]
fn lazy_cell_force_mut_writes_through() {
    let mut cell = LazyCell::new(|| 5u32);
    *LazyCell::force_mut(&mut cell) = 50;
    assert_eq!(cell.get(), Some(&50));
}

#[test]
fn lazy_cell_get_mut_writes_through() {
    let mut cell = LazyCell::new(|| 5u32);
    assert!(cell.get_mut().is_none());
    LazyCell::force(&mut cell);
    if let Some(v) = cell.get_mut() {
        *v = 55;
    }
    assert_eq!(cell.get(), Some(&55));
}

#[test]
fn lazy_cell_into_inner_returns_value_or_initializer() {
    let mut cell = LazyCell::new(|| 9u32);
    LazyCell::force(&mut cell);
    match LazyCell::into_inner(cell) {
        Ok(v) => assert_eq!(v, 9),
        Err(_) => panic!("a forced machine must hand back its value"),
    }

    let unforced = LazyCell::new(|| 9u32);
    match LazyCell::into_inner(unforced) {
        Err(f) => assert_eq!(f(), 9),
        Ok(_) => panic!("an unforced machine must hand back its initializer"),
    }
}

#[test]
fn lazy_cell_teardown_poisons_the_machine() {
    let mut cell = LazyCell::new(|| 9u32);
    LazyCell::force(&mut cell);
    LazyCell::drop(&mut cell);
    // The probe is total and reads the poisoned machine as absent; forcing
    // it again is out of contract.
    assert!(cell.get().is_none());
}
