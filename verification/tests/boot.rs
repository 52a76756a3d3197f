use booter::assert_booted;
use booter::boot;
use booter::BootBox;
use booter::BootError;
use booter::BootState;
use booter::Registry;

/// Ported test: after one boot call, the registered callback has run.
#[test]
fn it_boots() {
    let mut registry = Registry::new();
    registry.register(BootBox::new(0));

    let mut callbacks: Vec<Option<Box<dyn FnOnce()>>> = Vec::new();
    let callback_called = std::sync::Arc::new(std::sync::atomic::AtomicBool::new(false));
    let flag = callback_called.clone();
    callbacks.push(Some(Box::new(move || {
        flag.store(true, std::sync::atomic::Ordering::Release);
    })));

    let mut state = BootState::new(true);
    let ids = boot(&mut state, &mut registry).unwrap();
    for id in ids {
        if let Some(callback) = callbacks[id as usize].take() {
            callback();
        }
    }
    assert!(callback_called.load(std::sync::atomic::Ordering::Acquire));
}

/// Debug configuration: assert_booted before any boot reports the unbooted
/// state with its assertion message.
#[test]
fn assert_booted_before_boot_fails() {
    let state = BootState::new(true);
    let r = assert_booted(&state);
    assert_eq!(r, Err(BootError::NotBooted));
    assert_eq!(
        BootError::NotBooted.message(),
        "booter::boot should be called exactly once after env setup"
    );
}

/// Debug configuration: the second boot call fails, referencing "exactly
/// once", and drains nothing.
#[test]
fn debug_boot_twice_fails() {
    let mut registry = Registry::new();
    registry.register(BootBox::new(1));
    let mut state = BootState::new(true);

    let first = boot(&mut state, &mut registry).unwrap();
    assert_eq!(first, vec![1]);

    let second = boot(&mut state, &mut registry);
    assert_eq!(second, Err(BootError::DuplicateBoot));
    let message = BootError::DuplicateBoot.message();
    assert!(message.contains("exactly once"));
    assert_eq!(message, "boot should be called exactly once after environment setup");
}

/// Release configuration: booting twice succeeds both times and no callback
/// is handed out twice — the second pass finds every guard already empty.
#[test]
fn release_boot_twice_succeeds() {
    let mut registry = Registry::new();
    registry.register(BootBox::new(1));
    registry.register(BootBox::new(2));
    let mut state = BootState::new(false);

    let first = boot(&mut state, &mut registry).unwrap();
    assert_eq!(first, vec![1, 2]);

    let second = boot(&mut state, &mut registry).unwrap();
    assert_eq!(second, Vec::<u64>::new());
}

/// Scenario: one entry sets a shared flag; boot; the flag is true; then
/// assert_booted reports no failure.
#[test]
fn boot_sets_flag_then_assert_booted() {
    let flag = std::cell::Cell::new(false);
    let mut callbacks: Vec<Option<Box<dyn FnOnce() + '_>>> = Vec::new();
    callbacks.push(Some(Box::new(|| flag.set(true))));

    let mut registry = Registry::new();
    registry.register(BootBox::new(0));
    let mut state = BootState::new(true);

    let ids = boot(&mut state, &mut registry).unwrap();
    for id in ids {
        if let Some(callback) = callbacks[id as usize].take() {
            callback();
        }
    }
    assert!(flag.get());
    assert_eq!(assert_booted(&state), Ok(()));
}

/// Scenario: zero registered entries; boot completes with no work and no
/// failure, in either configuration.
#[test]
fn boot_with_no_entries() {
    let mut registry = Registry::new();
    let mut state = BootState::new(true);
    let ids = boot(&mut state, &mut registry).unwrap();
    assert_eq!(ids, Vec::<u64>::new());
    assert_eq!(assert_booted(&state), Ok(()));

    let mut release_registry = Registry::new();
    let mut release_state = BootState::new(false);
    let release_ids = boot(&mut release_state, &mut release_registry).unwrap();
    assert_eq!(release_ids, Vec::<u64>::new());
}

/// The take-once guard: over many take attempts on one entry, exactly one
/// receives the stored callback identifier and all others receive None.
#[test]
fn take_once_guard_yields_value_once() {
    let mut entry = BootBox::new(9);
    let mut winners = 0;
    for _ in 0..8 {
        if entry.take() == Some(9) {
            winners += 1;
        }
    }
    assert_eq!(winners, 1);
}

/// One boot pass returns each registered identifier exactly once, in
/// registration order, duplicates included.
#[test]
fn boot_returns_each_entry_once() {
    let mut registry = Registry::new();
    registry.register(BootBox::new(10));
    registry.register(BootBox::new(20));
    registry.register(BootBox::new(10));
    assert_eq!(registry.len(), 3);

    let mut state = BootState::new(false);
    let ids = boot(&mut state, &mut registry).unwrap();
    assert_eq!(ids, vec![10, 20, 10]);
}

/// An entry whose guard was already consumed is skipped silently: the drain
/// hands back only the identifiers that were still pending.
#[test]
fn boot_skips_already_taken_entries() {
    let mut taken_entry = BootBox::new(7);
    assert_eq!(taken_entry.take(), Some(7));

    let mut registry = Registry::new();
    registry.register(taken_entry);
    registry.register(BootBox::new(8));

    let mut state = BootState::new(true);
    let ids = boot(&mut state, &mut registry).unwrap();
    assert_eq!(ids, vec![8]);
}
