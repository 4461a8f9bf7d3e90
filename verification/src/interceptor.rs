//! The four interception points of a surface.
//!
//! Each builds the event of its operation, asks the surface's handler whether
//! the application consumes it, and answers the toolkit: with the consumed
//! reply of the operation, or with what the platform's stock routine returns.

use vstd::prelude::*;

use crate::defaults::{resolves, DefaultBehaviorCache, DefaultImplementation};
use crate::error::BridgeError;
use crate::event::{
    DragDropEvent, DragDropEventView, DragOperation, Operation, DRAG_OPERATION_COPY,
    DRAG_OPERATION_NONE,
};
use crate::payload::{collect_paths, DragSession};
use crate::registry::HandlerRegistry;

verus! {

/// How an intercepted operation is to be answered once the handler has
/// decided.
#[derive(Clone, Copy, Debug, PartialEq, Eq, Structural)]
pub enum Directive {
    /// The application consumed the event: the toolkit gets the consumed
    /// reply of the operation and no stock routine is called.
    Consume,
    /// The application declined: this stock routine is called and the toolkit
    /// gets what it returns.
    Delegate(DefaultImplementation),
}

/// Whether dispatching `event` on `surface` can end with `outcome`, with the
/// cache of stock routines going from `before` to `after`.
///
/// A surface without a handler is an error and nothing else happens. A
/// handler that consumes the event ends the dispatch at once: nothing is
/// resolved. A handler that declines has the stock routine of the event's
/// operation resolved, and the dispatch ends with that routine or with the
/// error of resolving it.
pub open spec fn intercepted<
    H: Fn(DragDropEvent) -> bool,
    R: FnOnce(Operation) -> Option<DefaultImplementation>,
>(
    handlers: Map<u64, H>,
    before: Map<Operation, DefaultImplementation>,
    surface: u64,
    event: DragDropEvent,
    resolver: R,
    outcome: Result<Directive, BridgeError>,
    after: Map<Operation, DefaultImplementation>,
) -> bool {
    if !handlers.contains_key(surface) {
        outcome == Err::<Directive, BridgeError>(BridgeError::MissingHandler { surface })
            && after == before
    } else {
        match outcome {
            Ok(Directive::Consume) => call_ensures(handlers[surface], (event,), true) && after
                == before,
            Ok(Directive::Delegate(routine)) => call_ensures(handlers[surface], (event,), false)
                && resolves(before, event.spec_operation(), resolver, Ok(routine), after),
            Err(error) => call_ensures(handlers[surface], (event,), false) && resolves(
                before,
                event.spec_operation(),
                resolver,
                Err(error),
                after,
            ),
        }
    }
}

/// Dispatches `event` to the handler of `surface`, up to the point where the
/// toolkit can be answered or the stock routine has to be called.
pub fn intercept<H, R>(
    registry: &HandlerRegistry<H>,
    defaults: &mut DefaultBehaviorCache,
    surface: u64,
    event: DragDropEvent,
    resolver: R,
) -> (outcome: Result<Directive, BridgeError>) where
    H: Fn(DragDropEvent) -> bool,
    R: FnOnce(Operation) -> Option<DefaultImplementation>,

    requires
        registry.well_formed(),
        call_requires(resolver, (event.spec_operation(),)),
    ensures
        intercepted(
            registry@,
            old(defaults)@,
            surface,
            event,
            resolver,
            outcome,
            final(defaults)@,
        ),
        old(defaults)@.submap_of(final(defaults)@),
{
    let handler = match registry.lookup(surface) {
        Ok(handler) => handler,
        Err(error) => {
            return Err(error);
        },
    };
    let kind = event.operation();
    let consumed = handler(event);
    if consumed {
        Ok(Directive::Consume)
    } else {
        match defaults.resolve(kind, resolver) {
            Ok(routine) => Ok(Directive::Delegate(routine)),
            Err(error) => Err(error),
        }
    }
}

/// The reply to a hover update that the stock routine answered with `stock`:
/// the stock code, but for the code for no operation, in whose place the
/// toolkit is told of a copy.
pub open spec fn spec_hover_operation(stock: DragOperation) -> DragOperation {
    if stock == DRAG_OPERATION_NONE {
        DRAG_OPERATION_COPY
    } else {
        stock
    }
}

/// The reply to a hover update that the stock routine answered with `stock`.
pub fn hover_operation(stock: DragOperation) -> (reply: DragOperation)
    ensures
        reply == spec_hover_operation(stock),
        stock == DRAG_OPERATION_NONE ==> reply == DRAG_OPERATION_COPY,
        stock != DRAG_OPERATION_NONE ==> reply == stock,
{
    if stock == DRAG_OPERATION_NONE {
        DRAG_OPERATION_COPY
    } else {
        stock
    }
}

/// Whether a dispatch that ended with `directive` can be answered with
/// `reply`: an error is passed on, a consumed event is answered with
/// `consumed_reply`, and a declined one with whatever `stock` returns for the
/// routine it is handed.
pub open spec fn answered<T, S: FnOnce(DefaultImplementation) -> T>(
    directive: Result<Directive, BridgeError>,
    consumed_reply: T,
    stock: S,
    reply: Result<T, BridgeError>,
) -> bool {
    match directive {
        Err(error) => reply == Err::<T, BridgeError>(error),
        Ok(Directive::Consume) => reply == Ok::<T, BridgeError>(consumed_reply),
        Ok(Directive::Delegate(routine)) => exists|returned: T|
            #![trigger call_ensures(stock, (routine,), returned)]
            call_ensures(stock, (routine,), returned) && reply == Ok::<T, BridgeError>(returned),
    }
}

/// As [`answered`], for a hover update: a stock code for no operation is
/// replaced by the code for a copy.
pub open spec fn hover_answered<S: FnOnce(DefaultImplementation) -> DragOperation>(
    directive: Result<Directive, BridgeError>,
    stock: S,
    reply: Result<DragOperation, BridgeError>,
) -> bool {
    match directive {
        Err(error) => reply == Err::<DragOperation, BridgeError>(error),
        Ok(Directive::Consume) => reply == Ok::<DragOperation, BridgeError>(DRAG_OPERATION_COPY),
        Ok(Directive::Delegate(routine)) => exists|returned: DragOperation|
            #![trigger call_ensures(stock, (routine,), returned)]
            call_ensures(stock, (routine,), returned) && reply == Ok::<DragOperation, BridgeError>(
                spec_hover_operation(returned),
            ),
    }
}

/// The pointer entered `surface`. The handler is told of the paths the
/// session carries and of the pointer's position. A consumed event is
/// answered with the code for a copy, a declined one with the very code the
/// stock routine returns.
pub fn dragging_entered<H, R, S>(
    registry: &HandlerRegistry<H>,
    defaults: &mut DefaultBehaviorCache,
    surface: u64,
    session: &DragSession,
    resolver: R,
    stock: S,
) -> (reply: Result<DragOperation, BridgeError>) where
    H: Fn(DragDropEvent) -> bool,
    R: FnOnce(Operation) -> Option<DefaultImplementation>,
    S: FnOnce(DefaultImplementation) -> DragOperation,

    requires
        registry.well_formed(),
        call_requires(resolver, (Operation::Enter,)),
        forall|routine: DefaultImplementation| call_requires(stock, (routine,)),
    ensures
        exists|event: DragDropEvent, directive: Result<Directive, BridgeError>|
            #![trigger intercepted(registry@, old(defaults)@, surface, event, resolver, directive, final(defaults)@)]
            event@ == (DragDropEventView::Enter {
                paths: session@.payload.paths(),
                position: session.position,
            }) && intercepted(
                registry@,
                old(defaults)@,
                surface,
                event,
                resolver,
                directive,
                final(defaults)@,
            ) && answered(directive, DRAG_OPERATION_COPY, stock, reply),
        old(defaults)@.submap_of(final(defaults)@),
{
    let event = DragDropEvent::Enter {
        paths: collect_paths(&session.payload),
        position: (session.position.0, session.position.1),
    };
    let ghost told = event;
    let directive = intercept(registry, defaults, surface, event, resolver);
    let reply = match directive {
        Err(error) => Err(error),
        Ok(Directive::Consume) => Ok(DRAG_OPERATION_COPY),
        Ok(Directive::Delegate(routine)) => Ok(stock(routine)),
    };
    assert(intercepted(registry@, old(defaults)@, surface, told, resolver, directive, defaults@)
        && answered(directive, DRAG_OPERATION_COPY, stock, reply));
    reply
}

/// The pointer moved over `surface` and is now at `position`. The handler is
/// told of the position. A consumed event is answered with the code for a
/// copy. A declined one is answered with the stock routine's code, except
/// that the code for no operation becomes the code for a copy.
pub fn dragging_updated<H, R, S>(
    registry: &HandlerRegistry<H>,
    defaults: &mut DefaultBehaviorCache,
    surface: u64,
    position: (i32, i32),
    resolver: R,
    stock: S,
) -> (reply: Result<DragOperation, BridgeError>) where
    H: Fn(DragDropEvent) -> bool,
    R: FnOnce(Operation) -> Option<DefaultImplementation>,
    S: FnOnce(DefaultImplementation) -> DragOperation,

    requires
        registry.well_formed(),
        call_requires(resolver, (Operation::Update,)),
        forall|routine: DefaultImplementation| call_requires(stock, (routine,)),
    ensures
        exists|directive: Result<Directive, BridgeError>|
            #![trigger hover_answered(directive, stock, reply)]
            intercepted(
                registry@,
                old(defaults)@,
                surface,
                DragDropEvent::Over { position },
                resolver,
                directive,
                final(defaults)@,
            ) && hover_answered(directive, stock, reply),
        old(defaults)@.submap_of(final(defaults)@),
{
    let event = DragDropEvent::Over { position };
    let directive = intercept(registry, defaults, surface, event, resolver);
    let reply = match directive {
        Err(error) => Err(error),
        Ok(Directive::Consume) => Ok(DRAG_OPERATION_COPY),
        Ok(Directive::Delegate(routine)) => Ok(hover_operation(stock(routine))),
    };
    assert(hover_answered(directive, stock, reply));
    reply
}

/// The payload was dropped on `surface`. The handler is told of the paths
/// the session carries and of the pointer's position. A consumed event is
/// answered with success, a declined one with the very answer of the stock
/// routine.
pub fn perform_drag_operation<H, R, S>(
    registry: &HandlerRegistry<H>,
    defaults: &mut DefaultBehaviorCache,
    surface: u64,
    session: &DragSession,
    resolver: R,
    stock: S,
) -> (reply: Result<bool, BridgeError>) where
    H: Fn(DragDropEvent) -> bool,
    R: FnOnce(Operation) -> Option<DefaultImplementation>,
    S: FnOnce(DefaultImplementation) -> bool,

    requires
        registry.well_formed(),
        call_requires(resolver, (Operation::Drop,)),
        forall|routine: DefaultImplementation| call_requires(stock, (routine,)),
    ensures
        exists|event: DragDropEvent, directive: Result<Directive, BridgeError>|
            #![trigger intercepted(registry@, old(defaults)@, surface, event, resolver, directive, final(defaults)@)]
            event@ == (DragDropEventView::Drop {
                paths: session@.payload.paths(),
                position: session.position,
            }) && intercepted(
                registry@,
                old(defaults)@,
                surface,
                event,
                resolver,
                directive,
                final(defaults)@,
            ) && answered(directive, true, stock, reply),
        old(defaults)@.submap_of(final(defaults)@),
{
    let event = DragDropEvent::Drop {
        paths: collect_paths(&session.payload),
        position: (session.position.0, session.position.1),
    };
    let ghost told = event;
    let directive = intercept(registry, defaults, surface, event, resolver);
    let reply = match directive {
        Err(error) => Err(error),
        Ok(Directive::Consume) => Ok(true),
        Ok(Directive::Delegate(routine)) => Ok(stock(routine)),
    };
    assert(intercepted(registry@, old(defaults)@, surface, told, resolver, directive, defaults@)
        && answered(directive, true, stock, reply));
    reply
}

/// The pointer left `surface`. The handler is told that the drag left;
/// nothing is read from the drag session. A declined event has the stock
/// routine called once. The toolkit expects no answer.
pub fn dragging_exited<H, R, S>(
    registry: &HandlerRegistry<H>,
    defaults: &mut DefaultBehaviorCache,
    surface: u64,
    resolver: R,
    stock: S,
) -> (reply: Result<(), BridgeError>) where
    H: Fn(DragDropEvent) -> bool,
    R: FnOnce(Operation) -> Option<DefaultImplementation>,
    S: FnOnce(DefaultImplementation) -> (),

    requires
        registry.well_formed(),
        call_requires(resolver, (Operation::Exit,)),
        forall|routine: DefaultImplementation| call_requires(stock, (routine,)),
    ensures
        exists|directive: Result<Directive, BridgeError>|
            #![trigger answered(directive, (), stock, reply)]
            intercepted(
                registry@,
                old(defaults)@,
                surface,
                DragDropEvent::Leave,
                resolver,
                directive,
                final(defaults)@,
            ) && answered(directive, (), stock, reply),
        old(defaults)@.submap_of(final(defaults)@),
{
    let directive = intercept(registry, defaults, surface, DragDropEvent::Leave, resolver);
    let reply = match directive {
        Err(error) => Err(error),
        Ok(Directive::Consume) => Ok(()),
        Ok(Directive::Delegate(routine)) => Ok(stock(routine)),
    };
    assert(answered(directive, (), stock, reply));
    reply
}

/// An event that the handler does not decline is consumed, whatever its
/// operation: no stock routine is named for calling, and the cache of stock
/// routines is left as it was.
pub proof fn lemma_consumed_is_never_delegated<
    H: Fn(DragDropEvent) -> bool,
    R: FnOnce(Operation) -> Option<DefaultImplementation>,
>(
    handlers: Map<u64, H>,
    before: Map<Operation, DefaultImplementation>,
    surface: u64,
    event: DragDropEvent,
    resolver: R,
    outcome: Result<Directive, BridgeError>,
    after: Map<Operation, DefaultImplementation>,
)
    requires
        handlers.contains_key(surface),
        !call_ensures(handlers[surface], (event,), false),
        intercepted(handlers, before, surface, event, resolver, outcome, after),
    ensures
        outcome == Ok::<Directive, BridgeError>(Directive::Consume),
        after == before,
{
}

/// Attaching a handler to one surface changes nothing about what
/// dispatching an event on another surface can do: only the handler of the
/// surface the event arrived on is ever asked.
pub proof fn lemma_surfaces_are_isolated<
    H: Fn(DragDropEvent) -> bool,
    R: FnOnce(Operation) -> Option<DefaultImplementation>,
>(
    handlers: Map<u64, H>,
    other: u64,
    handler: H,
    before: Map<Operation, DefaultImplementation>,
    surface: u64,
    event: DragDropEvent,
    resolver: R,
    outcome: Result<Directive, BridgeError>,
    after: Map<Operation, DefaultImplementation>,
)
    requires
        other != surface,
    ensures
        intercepted(
            handlers.insert(other, handler),
            before,
            surface,
            event,
            resolver,
            outcome,
            after,
        ) == intercepted(handlers, before, surface, event, resolver, outcome, after),
{
}

} // verus!
