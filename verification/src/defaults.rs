//! The cache of the platform's stock drag routines.
//!
//! The stock routine of each operation is looked up the first time the bridge
//! has to fall back to it, and kept from then on: once an operation has been
//! resolved, its routine never changes.

use once_cell::sync::OnceCell;
use vstd::prelude::*;

use crate::error::BridgeError;
use crate::event::Operation;

verus! {

/// `once_cell::sync::OnceCell`: a cell that can be written once. Nothing of
/// its inside is known here but what [`cell_value`] names.
#[verifier::external_type_specification]
#[verifier::external_body]
#[verifier::reject_recursive_types(T)]
pub struct ExOnceCell<T>(OnceCell<T>);

/// What a cell of routine addresses holds: nothing, or the one address it was
/// set to.
pub uninterp spec fn cell_value(cell: OnceCell<usize>) -> Option<usize>;

/// Calls `OnceCell::new`, which makes a cell that holds nothing.
#[verifier::external_body]
fn cell_new() -> (cell: OnceCell<usize>)
    ensures
        cell_value(cell) is None,
{
    OnceCell::new()
}

/// Calls `OnceCell::get`, which returns the address the cell holds, or
/// nothing for an empty cell, and leaves the cell alone.
#[verifier::external_body]
fn cell_get(cell: &OnceCell<usize>) -> (held: Option<usize>)
    ensures
        held == cell_value(*cell),
{
    cell.get().copied()
}

/// Calls `OnceCell::set`. An empty cell takes `address` and the call
/// succeeds; a full cell keeps what it holds and hands `address` back as the
/// error. The cell is taken by `&mut`, so that no other reference to it can
/// see it change.
#[verifier::external_body]
fn cell_set(cell: &mut OnceCell<usize>, address: usize) -> (outcome: Result<(), usize>)
    ensures
        outcome == (if cell_value(*old(cell)) is None {
            Ok(())
        } else {
            Err(address)
        }),
        cell_value(*final(cell)) == (if cell_value(*old(cell)) is None {
            Some(address)
        } else {
            cell_value(*old(cell))
        }),
{
    cell.set(address)
}

/// The platform's stock routine for one operation, named by its address.
#[derive(Clone, Copy, Debug, PartialEq, Eq, Structural)]
pub struct DefaultImplementation {
    pub address: usize,
}

/// The stock routines resolved so far, one slot per operation.
pub struct DefaultBehaviorCache {
    entered: OnceCell<usize>,
    updated: OnceCell<usize>,
    performed: OnceCell<usize>,
    exited: OnceCell<usize>,
}

/// The cache after `found` was recorded for `kind` in a cache that stood at
/// `before`: what is cached stays, an empty slot takes what was found.
pub open spec fn recorded(
    before: Map<Operation, DefaultImplementation>,
    kind: Operation,
    found: Option<DefaultImplementation>,
) -> Map<Operation, DefaultImplementation> {
    match found {
        Some(routine) if !before.contains_key(kind) => before.insert(kind, routine),
        _ => before,
    }
}

/// What recording `found` for `kind` reports: the routine cached afterwards,
/// or that the operation cannot be resolved.
pub open spec fn resolution(
    before: Map<Operation, DefaultImplementation>,
    kind: Operation,
    found: Option<DefaultImplementation>,
) -> Result<DefaultImplementation, BridgeError> {
    let after = recorded(before, kind, found);
    if after.contains_key(kind) {
        Ok(after[kind])
    } else {
        Err(BridgeError::UnresolvableDefault { kind })
    }
}

/// Whether resolving `kind` through `resolver`, in a cache that stood at
/// `before`, can end with `outcome` and leave the cache at `after`. A cached
/// operation is answered from the cache; for any other, `resolver` is asked
/// and its answer recorded.
pub open spec fn resolves<R: FnOnce(Operation) -> Option<DefaultImplementation>>(
    before: Map<Operation, DefaultImplementation>,
    kind: Operation,
    resolver: R,
    outcome: Result<DefaultImplementation, BridgeError>,
    after: Map<Operation, DefaultImplementation>,
) -> bool {
    if before.contains_key(kind) {
        outcome == Ok::<DefaultImplementation, BridgeError>(before[kind]) && after == before
    } else {
        exists|found: Option<DefaultImplementation>|
            #![trigger call_ensures(resolver, (kind,), found)]
            call_ensures(resolver, (kind,), found) && outcome == resolution(before, kind, found)
                && after == recorded(before, kind, found)
    }
}

impl View for DefaultBehaviorCache {
    type V = Map<Operation, DefaultImplementation>;

    closed spec fn view(&self) -> Map<Operation, DefaultImplementation> {
        Map::new(
            |kind: Operation| self.slot(kind) is Some,
            |kind: Operation| self.slot(kind)->Some_0,
        )
    }
}

impl DefaultBehaviorCache {
    spec fn slot(&self, kind: Operation) -> Option<DefaultImplementation> {
        let held = match kind {
            Operation::Enter => cell_value(self.entered),
            Operation::Update => cell_value(self.updated),
            Operation::Drop => cell_value(self.performed),
            Operation::Exit => cell_value(self.exited),
        };
        match held {
            Some(address) => Some(DefaultImplementation { address }),
            None => None,
        }
    }

    /// The routine cached for `kind`, if it has been resolved.
    pub open spec fn cached(&self, kind: Operation) -> Option<DefaultImplementation> {
        if self@.contains_key(kind) {
            Some(self@[kind])
        } else {
            None
        }
    }

    /// A cache in which no operation has been resolved.
    pub fn new() -> (cache: Self)
        ensures
            cache@ == Map::<Operation, DefaultImplementation>::empty(),
    {
        let cache = DefaultBehaviorCache {
            entered: cell_new(),
            updated: cell_new(),
            performed: cell_new(),
            exited: cell_new(),
        };
        assert(cache@ =~= Map::<Operation, DefaultImplementation>::empty());
        cache
    }

    /// The routine cached for `kind`, if it has been resolved.
    pub fn lookup(&self, kind: Operation) -> (found: Option<DefaultImplementation>)
        ensures
            found == self.cached(kind),
    {
        let held = match kind {
            Operation::Enter => cell_get(&self.entered),
            Operation::Update => cell_get(&self.updated),
            Operation::Drop => cell_get(&self.performed),
            Operation::Exit => cell_get(&self.exited),
        };
        match held {
            Some(address) => Some(DefaultImplementation { address }),
            None => None,
        }
    }

    /// Records what a lookup of the stock routine of `kind` found. A routine
    /// cached earlier stays and is the answer; an empty slot takes the
    /// routine that was found; with nothing cached and nothing found the
    /// operation is reported as unresolvable.
    pub fn record(&mut self, kind: Operation, found: Option<DefaultImplementation>) -> (outcome:
        Result<DefaultImplementation, BridgeError>)
        ensures
            final(self)@ == recorded(old(self)@, kind, found),
            outcome == resolution(old(self)@, kind, found),
            old(self)@.submap_of(final(self)@),
    {
        if let Some(routine) = found {
            let taken = match kind {
                Operation::Enter => cell_set(&mut self.entered, routine.address),
                Operation::Update => cell_set(&mut self.updated, routine.address),
                Operation::Drop => cell_set(&mut self.performed, routine.address),
                Operation::Exit => cell_set(&mut self.exited, routine.address),
            };
            if taken.is_ok() {
                assert(self@ =~= old(self)@.insert(kind, routine));
                return Ok(routine);
            }
        }
        assert(self@ =~= old(self)@);
        match self.lookup(kind) {
            Some(first) => Ok(first),
            None => Err(BridgeError::UnresolvableDefault { kind }),
        }
    }

    /// The stock routine of `kind`. It is looked up through `resolver` the
    /// first time the operation is asked for and answered from the cache ever
    /// after; an operation the platform lacks is reported as unresolvable and
    /// nothing is cached for it.
    pub fn resolve<R>(&mut self, kind: Operation, resolver: R) -> (outcome: Result<
        DefaultImplementation,
        BridgeError,
    >) where R: FnOnce(Operation) -> Option<DefaultImplementation>
        requires
            call_requires(resolver, (kind,)),
        ensures
            resolves(old(self)@, kind, resolver, outcome, final(self)@),
            old(self)@.submap_of(final(self)@),
    {
        match self.lookup(kind) {
            Some(first) => Ok(first),
            None => {
                let found = resolver(kind);
                self.record(kind, found)
            },
        }
    }
}

/// Once an operation is resolved, recording anything more for any operation
/// leaves its routine as it is.
pub proof fn lemma_first_resolution_stays(
    before: Map<Operation, DefaultImplementation>,
    resolved: Operation,
    kind: Operation,
    found: Option<DefaultImplementation>,
)
    requires
        before.contains_key(resolved),
    ensures
        recorded(before, kind, found).contains_key(resolved),
        recorded(before, kind, found)[resolved] == before[resolved],
{
}

} // verus!
