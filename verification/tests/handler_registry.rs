use std::cell::Cell;

use drag_drop_bridge::error::BridgeError;
use drag_drop_bridge::event::DragDropEvent;
use drag_drop_bridge::registry::HandlerRegistry;

type Handler<'a> = Box<dyn Fn(DragDropEvent) -> bool + 'a>;

#[test]
fn new_registry_has_no_handler() {
    let registry: HandlerRegistry<Handler> = HandlerRegistry::new();
    assert!(!registry.is_attached(1));
    assert!(matches!(registry.lookup(1), Err(BridgeError::MissingHandler { surface: 1 })));
}

#[test]
fn attached_handler_is_looked_up() {
    let mut registry: HandlerRegistry<Handler> = HandlerRegistry::new();
    let handle = registry.attach(7, Box::new(|_| true));
    assert_eq!(handle.surface(), 7);
    assert!(registry.is_attached(7));
    let handler = registry.lookup(7).ok().unwrap();
    assert!(handler(DragDropEvent::Leave));
}

#[test]
fn lookup_of_another_surface_reports_that_surface() {
    let mut registry: HandlerRegistry<Handler> = HandlerRegistry::new();
    let _handle = registry.attach(7, Box::new(|_| true));
    assert!(matches!(registry.lookup(8), Err(BridgeError::MissingHandler { surface: 8 })));
}

#[test]
fn attach_replaces_the_handler_of_the_surface() {
    let mut registry: HandlerRegistry<Handler> = HandlerRegistry::new();
    let _first = registry.attach(7, Box::new(|_| true));
    let _second = registry.attach(7, Box::new(|_| false));
    let handler = registry.lookup(7).ok().unwrap();
    assert!(!handler(DragDropEvent::Leave));
}

#[test]
fn attach_leaves_other_surfaces_alone() {
    let calls_a = Cell::new(0);
    let calls_b = Cell::new(0);
    let mut registry: HandlerRegistry<Handler> = HandlerRegistry::new();
    let _a = registry.attach(
        1,
        Box::new(|_| {
            calls_a.set(calls_a.get() + 1);
            true
        }),
    );
    let _b = registry.attach(
        2,
        Box::new(|_| {
            calls_b.set(calls_b.get() + 1);
            false
        }),
    );
    assert!(registry.lookup(1).ok().unwrap()(DragDropEvent::Leave));
    assert_eq!((calls_a.get(), calls_b.get()), (1, 0));
    assert!(!registry.lookup(2).ok().unwrap()(DragDropEvent::Leave));
    assert_eq!((calls_a.get(), calls_b.get()), (1, 1));
}

#[test]
fn release_takes_the_handler_out() {
    let mut registry: HandlerRegistry<Handler> = HandlerRegistry::new();
    let handle = registry.attach(7, Box::new(|_| true));
    let _other = registry.attach(8, Box::new(|_| false));
    let released = registry.release(handle);
    assert!(released.unwrap()(DragDropEvent::Leave));
    assert!(!registry.is_attached(7));
    assert!(matches!(registry.lookup(7), Err(BridgeError::MissingHandler { surface: 7 })));
    assert!(registry.is_attached(8));
}

#[test]
fn release_of_a_released_surface_gives_nothing() {
    let mut registry: HandlerRegistry<Handler> = HandlerRegistry::new();
    let first = registry.attach(7, Box::new(|_| true));
    let second = registry.attach(7, Box::new(|_| false));
    assert!(registry.release(second).is_some());
    assert!(registry.release(first).is_none());
}
