use ksync::errors::LockError;
use ksync::level::{Cpu, APC_LEVEL, DISPATCH_LEVEL, HIGH_LEVEL, PASSIVE_LEVEL};
use ksync::lock::{FastLock, ResourceLock, SharedLock, UniqueLock};
use ksync::mutex::{
    EmptyMutex, FastLocked, FastMutex, GuardLocked, InStackQueueLocked, Locked, LockedQuueHandle,
    Mutex, QueuedEmptyMutex, ResouceLocked, ResourceMutex, SpinLocked, SpinMutex,
    StackQueueLocked,
};

#[test]
fn fast_locked_counts_under_the_lock() {
    let mut cpu = Cpu::at_level(PASSIVE_LEVEL);
    let mut counter: FastLocked<u32> = FastLocked::new(0).unwrap();
    let mut cycles = 0u32;
    while cycles < 10 {
        let guard = counter.lock(&mut cpu).unwrap();
        *counter.write(&guard) += 1;
        counter.unlock(guard, &mut cpu);
        cycles += 1;
    }
    assert_eq!(*counter.get(), 10);
    assert_eq!(cpu.current_level(), PASSIVE_LEVEL);
}

#[test]
fn fast_locked_is_refused_at_elevated_level() {
    let mut cpu = Cpu::at_level(DISPATCH_LEVEL);
    let mut counter: FastLocked<u32> = FastLocked::new(0).unwrap();
    match counter.lock(&mut cpu) {
        Err(e) => assert_eq!(e, LockError::LevelNotPermitted),
        Ok(_) => panic!("a blocking strategy must be refused above the low levels"),
    }
    assert_eq!(cpu.current_level(), DISPATCH_LEVEL);
}

#[test]
fn lock_shared_on_a_non_shareable_strategy_is_always_rejected() {
    let mut cpu = Cpu::at_level(PASSIVE_LEVEL);
    let mut counter: FastLocked<u32> = FastLocked::new(0).unwrap();
    let mut trials = 0u32;
    while trials < 100 {
        match counter.lock_shared(&mut cpu) {
            Err(e) => assert_eq!(e, LockError::NotShareable),
            Ok(_) => panic!("a shared acquisition on an exclusive-only strategy must fail"),
        }
        trials += 1;
    }
}

#[test]
fn resource_locked_admits_concurrent_readers() {
    let mut cpu = Cpu::at_level(APC_LEVEL);
    let mut value: ResouceLocked<u32> = ResouceLocked::new(77).unwrap();
    let first = value.lock_shared(&mut cpu).unwrap();
    let second = value.lock_shared(&mut cpu).unwrap();
    assert_eq!(*value.read(&first), 77);
    assert_eq!(*value.read(&second), 77);
    value.unlock_shared(second, &mut cpu);
    value.unlock_shared(first, &mut cpu);
    // With every reader gone, exclusive acquisition is admitted again.
    let guard = value.lock(&mut cpu).unwrap();
    *value.write(&guard) = 78;
    value.unlock(guard, &mut cpu);
    assert_eq!(*value.get(), 78);
}

#[test]
fn spin_locked_raises_and_restores_the_level() {
    let mut cpu = Cpu::at_level(PASSIVE_LEVEL);
    let mut value: SpinLocked<u32> = SpinLocked::new(1).unwrap();
    let guard = value.lock(&mut cpu).unwrap();
    assert_eq!(cpu.current_level(), DISPATCH_LEVEL);
    *value.write(&guard) = 2;
    value.unlock(guard, &mut cpu);
    assert_eq!(cpu.current_level(), PASSIVE_LEVEL);
}

#[test]
fn spin_locked_already_elevated_keeps_the_level() {
    let mut cpu = Cpu::at_level(HIGH_LEVEL);
    let mut value: SpinLocked<u32> = SpinLocked::new(1).unwrap();
    let guard = value.lock(&mut cpu).unwrap();
    assert_eq!(cpu.current_level(), HIGH_LEVEL);
    value.unlock(guard, &mut cpu);
    assert_eq!(cpu.current_level(), HIGH_LEVEL);
}

#[test]
fn spin_mutex_try_lock_needs_the_elevated_level() {
    let mut cpu = Cpu::at_level(PASSIVE_LEVEL);
    let mut m = SpinMutex::new();
    assert!(!m.try_lock(&mut cpu));
    let mut cpu = Cpu::at_level(DISPATCH_LEVEL);
    assert!(m.try_lock(&mut cpu));
    m.unlock(&mut cpu);
    assert_eq!(cpu.current_level(), DISPATCH_LEVEL);
}

#[test]
fn empty_mutex_locks_without_effect() {
    let mut cpu = Cpu::at_level(PASSIVE_LEVEL);
    let mut value: Locked<u32, EmptyMutex> = Locked::new(5).unwrap();
    let guard = value.lock(&mut cpu).unwrap();
    assert_eq!(*value.read(&guard), 5);
    value.unlock(guard, &mut cpu);
    assert_eq!(cpu.current_level(), PASSIVE_LEVEL);
}

#[test]
fn queued_locked_serves_through_the_ticket() {
    let mut cpu = Cpu::at_level(PASSIVE_LEVEL);
    let mut value: InStackQueueLocked<u32> = InStackQueueLocked::new(0).unwrap();
    let mut handle = LockedQuueHandle::new();
    let guard = value.lock(&mut handle, &mut cpu).unwrap();
    assert_eq!(cpu.current_level(), DISPATCH_LEVEL);
    *value.write(&guard) = 4;
    value.unlock(guard, &mut handle, &mut cpu);
    assert_eq!(cpu.current_level(), PASSIVE_LEVEL);
    // The ticket record is back to its fresh state and serves the next
    // acquisition.
    let guard = value.lock(&mut handle, &mut cpu).unwrap();
    assert_eq!(*value.read(&guard), 4);
    value.unlock(guard, &mut handle, &mut cpu);
}

#[test]
fn queued_empty_mutex_writes_the_ticket_only() {
    let mut cpu = Cpu::at_level(APC_LEVEL);
    let mut value: StackQueueLocked<u32, QueuedEmptyMutex> = StackQueueLocked::new(6).unwrap();
    let mut handle = LockedQuueHandle::new();
    let guard = value.lock(&mut handle, &mut cpu).unwrap();
    assert_eq!(*value.read(&guard), 6);
    value.unlock(guard, &mut handle, &mut cpu);
    assert_eq!(cpu.current_level(), APC_LEVEL);
}

#[test]
fn unique_lock_guards_a_standalone_lock() {
    let mut cpu = Cpu::at_level(PASSIVE_LEVEL);
    let mut lock: FastLock = FastLock::new().unwrap();
    let token = UniqueLock::new(&mut lock, &mut cpu).unwrap();
    token.release(&mut lock, &mut cpu);
    // Released, the lock admits the next exclusive acquisition.
    let token = UniqueLock::new(&mut lock, &mut cpu).unwrap();
    token.release(&mut lock, &mut cpu);
}

#[test]
fn shared_lock_stacks_on_a_resource_lock() {
    let mut cpu = Cpu::at_level(PASSIVE_LEVEL);
    let mut lock: ResourceLock = ResourceLock::new().unwrap();
    let first = SharedLock::new(&mut lock, &mut cpu).unwrap();
    let second = SharedLock::new(&mut lock, &mut cpu).unwrap();
    second.release(&mut lock, &mut cpu);
    first.release(&mut lock, &mut cpu);
    // With every reader gone, the exclusive side is admitted.
    let token = UniqueLock::new(&mut lock, &mut cpu).unwrap();
    token.release(&mut lock, &mut cpu);
}

#[test]
fn replace_cycles_the_lock_and_restores_the_level() {
    let mut cpu = Cpu::at_level(PASSIVE_LEVEL);
    let mut value: SpinLocked<u32> = SpinLocked::new(30).unwrap();
    assert_eq!(value.replace(31, &mut cpu), Ok(30));
    assert_eq!(cpu.current_level(), PASSIVE_LEVEL);
    assert_eq!(*value.get(), 31);
}

#[test]
fn queued_replace_cycles_through_the_ticket() {
    let mut cpu = Cpu::at_level(APC_LEVEL);
    let mut value: InStackQueueLocked<u32> = InStackQueueLocked::new(8).unwrap();
    let mut handle = LockedQuueHandle::new();
    assert_eq!(value.replace(9, &mut handle, &mut cpu), Ok(8));
    assert_eq!(cpu.current_level(), APC_LEVEL);
    assert_eq!(*value.get(), 9);
}

#[test]
fn guard_locked_works_up_to_the_boundary_level() {
    let mut cpu = Cpu::at_level(APC_LEVEL);
    let mut value: GuardLocked<u32> = GuardLocked::new(12).unwrap();
    let guard = value.lock(&mut cpu).unwrap();
    *value.write(&guard) = 13;
    value.unlock(guard, &mut cpu);
    assert_eq!(*value.get(), 13);
    assert_eq!(cpu.current_level(), APC_LEVEL);
}

#[test]
fn fast_mutex_try_lock_fails_while_held() {
    let mut cpu = Cpu::at_level(PASSIVE_LEVEL);
    let mut m = FastMutex::new();
    assert!(m.try_lock(&mut cpu));
    assert!(!m.try_lock(&mut cpu));
    m.unlock(&mut cpu);
    assert!(m.try_lock(&mut cpu));
    m.unlock(&mut cpu);
}

#[test]
fn resource_mutex_try_lock_shared_waits_for_the_writer() {
    let mut cpu = Cpu::at_level(PASSIVE_LEVEL);
    let mut m = ResourceMutex::new();
    assert!(m.try_lock(&mut cpu));
    assert!(!m.try_lock_shared(&mut cpu));
    m.unlock(&mut cpu);
    assert!(m.try_lock_shared(&mut cpu));
    assert!(m.try_lock_shared(&mut cpu));
    m.unlock_shared(&mut cpu);
    m.unlock_shared(&mut cpu);
}

#[test]
fn empty_mutex_admits_stacked_acquisitions() {
    let mut cpu = Cpu::at_level(PASSIVE_LEVEL);
    let mut value: Locked<u32, EmptyMutex> = Locked::new(1).unwrap();
    let first = value.lock(&mut cpu).unwrap();
    let second = value.lock(&mut cpu).unwrap();
    assert_eq!(*value.read(&first), 1);
    assert_eq!(*value.read(&second), 1);
    value.unlock(second, &mut cpu);
    value.unlock(first, &mut cpu);
}

#[test]
fn every_strategy_counts_without_lost_updates() {
    let mut cpu = Cpu::at_level(PASSIVE_LEVEL);

    let mut guarded: GuardLocked<u32> = GuardLocked::new(0).unwrap();
    let mut resource: ResouceLocked<u32> = ResouceLocked::new(0).unwrap();
    let mut spin: SpinLocked<u32> = SpinLocked::new(0).unwrap();
    let mut queued: InStackQueueLocked<u32> = InStackQueueLocked::new(0).unwrap();
    let mut handle = LockedQuueHandle::new();

    let mut cycles = 0u32;
    while cycles < 5 {
        let g = guarded.lock(&mut cpu).unwrap();
        *guarded.write(&g) += 1;
        guarded.unlock(g, &mut cpu);

        let g = resource.lock(&mut cpu).unwrap();
        *resource.write(&g) += 1;
        resource.unlock(g, &mut cpu);

        let g = spin.lock(&mut cpu).unwrap();
        *spin.write(&g) += 1;
        spin.unlock(g, &mut cpu);

        let g = queued.lock(&mut handle, &mut cpu).unwrap();
        *queued.write(&g) += 1;
        queued.unlock(g, &mut handle, &mut cpu);

        cycles += 1;
    }

    assert_eq!(*guarded.get(), 5);
    assert_eq!(*resource.get(), 5);
    assert_eq!(*spin.get(), 5);
    assert_eq!(*queued.get(), 5);
    assert_eq!(cpu.current_level(), PASSIVE_LEVEL);
}

#[test]
fn containers_probe_their_occupancy() {
    let mut cpu = Cpu::at_level(PASSIVE_LEVEL);
    let mut value: FastLocked<u32> = FastLocked::new(0).unwrap();
    assert!(value.is_free());
    let guard = value.lock(&mut cpu).unwrap();
    assert!(!value.is_free());
    value.unlock(guard, &mut cpu);
    assert!(value.is_free());
}

#[test]
fn containers_tear_down_once_by_consumption() {
    let value: FastLocked<u32> = FastLocked::new(44).unwrap();
    value.teardown();
    let queued: InStackQueueLocked<u32> = InStackQueueLocked::new(45).unwrap();
    queued.teardown();
    // Consumed by value: a second teardown is unrepresentable, not merely
    // out of contract.
}
