use std::cell::Cell;

use drag_drop_bridge::defaults::{DefaultBehaviorCache, DefaultImplementation};
use drag_drop_bridge::error::BridgeError;
use drag_drop_bridge::event::Operation;

const ALL: [Operation; 4] =
    [Operation::Enter, Operation::Update, Operation::Drop, Operation::Exit];

fn routine(address: usize) -> DefaultImplementation {
    DefaultImplementation { address }
}

#[test]
fn new_cache_holds_nothing() {
    let cache = DefaultBehaviorCache::new();
    for kind in ALL {
        assert_eq!(cache.lookup(kind), None);
    }
}

#[test]
fn recorded_routine_is_looked_up() {
    let mut cache = DefaultBehaviorCache::new();
    assert_eq!(cache.record(Operation::Update, Some(routine(0x1000))), Ok(routine(0x1000)));
    assert_eq!(cache.lookup(Operation::Update), Some(routine(0x1000)));
}

#[test]
fn each_operation_has_its_own_slot() {
    let mut cache = DefaultBehaviorCache::new();
    assert_eq!(cache.record(Operation::Enter, Some(routine(1))), Ok(routine(1)));
    assert_eq!(cache.lookup(Operation::Update), None);
    assert_eq!(cache.lookup(Operation::Drop), None);
    assert_eq!(cache.lookup(Operation::Exit), None);
    assert_eq!(cache.record(Operation::Update, Some(routine(2))), Ok(routine(2)));
    assert_eq!(cache.record(Operation::Drop, Some(routine(3))), Ok(routine(3)));
    assert_eq!(cache.record(Operation::Exit, Some(routine(4))), Ok(routine(4)));
    assert_eq!(cache.lookup(Operation::Enter), Some(routine(1)));
    assert_eq!(cache.lookup(Operation::Update), Some(routine(2)));
    assert_eq!(cache.lookup(Operation::Drop), Some(routine(3)));
    assert_eq!(cache.lookup(Operation::Exit), Some(routine(4)));
}

#[test]
fn first_routine_is_kept() {
    let mut cache = DefaultBehaviorCache::new();
    assert_eq!(cache.record(Operation::Update, Some(routine(0x1000))), Ok(routine(0x1000)));
    assert_eq!(cache.record(Operation::Update, Some(routine(0x2000))), Ok(routine(0x1000)));
    assert_eq!(cache.record(Operation::Update, None), Ok(routine(0x1000)));
    assert_eq!(cache.lookup(Operation::Update), Some(routine(0x1000)));
}

#[test]
fn nothing_found_is_unresolvable_and_caches_nothing() {
    let mut cache = DefaultBehaviorCache::new();
    assert_eq!(
        cache.record(Operation::Drop, None),
        Err(BridgeError::UnresolvableDefault { kind: Operation::Drop })
    );
    assert_eq!(cache.lookup(Operation::Drop), None);
    assert_eq!(cache.record(Operation::Drop, Some(routine(7))), Ok(routine(7)));
    assert_eq!(cache.lookup(Operation::Drop), Some(routine(7)));
}

#[test]
fn resolver_is_asked_once_per_operation() {
    let mut cache = DefaultBehaviorCache::new();
    let asked = Cell::new(0);
    for _ in 0..3 {
        let outcome = cache.resolve(Operation::Enter, |kind| {
            asked.set(asked.get() + 1);
            assert_eq!(kind, Operation::Enter);
            Some(routine(0xabc))
        });
        assert_eq!(outcome, Ok(routine(0xabc)));
    }
    assert_eq!(asked.get(), 1);
    assert_eq!(cache.lookup(Operation::Enter), Some(routine(0xabc)));
}

#[test]
fn resolver_is_told_the_operation_asked_for() {
    for kind in ALL {
        let mut cache = DefaultBehaviorCache::new();
        let told = Cell::new(None);
        let outcome = cache.resolve(kind, |asked| {
            told.set(Some(asked));
            Some(routine(5))
        });
        assert_eq!(outcome, Ok(routine(5)));
        assert_eq!(told.get(), Some(kind));
    }
}

#[test]
fn later_resolver_cannot_change_a_cached_routine() {
    let mut cache = DefaultBehaviorCache::new();
    assert_eq!(cache.resolve(Operation::Exit, |_| Some(routine(10))), Ok(routine(10)));
    assert_eq!(cache.resolve(Operation::Exit, |_| Some(routine(20))), Ok(routine(10)));
    assert_eq!(cache.resolve(Operation::Exit, |_| None), Ok(routine(10)));
}

#[test]
fn missing_operation_is_reported_and_asked_for_again() {
    let mut cache = DefaultBehaviorCache::new();
    let asked = Cell::new(0);
    for _ in 0..2 {
        let outcome = cache.resolve(Operation::Update, |_| {
            asked.set(asked.get() + 1);
            None
        });
        assert_eq!(outcome, Err(BridgeError::UnresolvableDefault { kind: Operation::Update }));
    }
    assert_eq!(asked.get(), 2);
    assert_eq!(cache.lookup(Operation::Update), None);
}

#[test]
fn address_zero_is_a_routine_like_any_other() {
    let mut cache = DefaultBehaviorCache::new();
    assert_eq!(cache.record(Operation::Enter, Some(routine(0))), Ok(routine(0)));
    assert_eq!(cache.lookup(Operation::Enter), Some(routine(0)));
    assert_eq!(cache.record(Operation::Enter, Some(routine(9))), Ok(routine(0)));
}
