//! The structured events handed to the decision callback, and the native
//! operations they are built from.

use vstd::prelude::*;

verus! {

/// A drag operation code as the toolkit understands it.
pub type DragOperation = usize;

/// The code by which a stock routine reports that it offers no operation.
pub const DRAG_OPERATION_NONE: DragOperation = 0;

/// The code that tells the toolkit the dragged data will be copied.
pub const DRAG_OPERATION_COPY: DragOperation = 1;

/// One of the four operations a surface intercepts during a drag session.
#[derive(Clone, Copy, Debug, PartialEq, Eq, Structural)]
pub enum Operation {
    /// The pointer entered the surface.
    Enter,
    /// The pointer moved over the surface.
    Update,
    /// The payload was dropped on the surface.
    Drop,
    /// The pointer left the surface without a drop.
    Exit,
}

impl Operation {
    /// The name under which the toolkit knows the operation.
    pub open spec fn spec_selector(self) -> Seq<char> {
        match self {
            Operation::Enter => "draggingEntered:"@,
            Operation::Update => "draggingUpdated:"@,
            Operation::Drop => "performDragOperation:"@,
            Operation::Exit => "draggingExited:"@,
        }
    }

    /// The name under which the toolkit knows the operation: the stock
    /// routine is looked up by it, and the override is registered under it.
    pub fn selector(self) -> (name: &'static str)
        ensures
            name@ == self.spec_selector(),
    {
        match self {
            Operation::Enter => "draggingEntered:",
            Operation::Update => "draggingUpdated:",
            Operation::Drop => "performDragOperation:",
            Operation::Exit => "draggingExited:",
        }
    }
}

/// What the application's decision callback is told about a drag session.
///
/// Positions are whole pixels measured from the top-left corner of the
/// surface.
#[derive(Debug, PartialEq, Eq)]
pub enum DragDropEvent {
    /// The drag entered the surface carrying `paths`.
    Enter { paths: Vec<String>, position: (i32, i32) },
    /// The drag moved over the surface.
    Over { position: (i32, i32) },
    /// The payload was dropped at `position`.
    Drop { paths: Vec<String>, position: (i32, i32) },
    /// The drag left the surface.
    Leave,
}

/// The mathematical value of a [`DragDropEvent`].
pub enum DragDropEventView {
    Enter { paths: Seq<Seq<char>>, position: (i32, i32) },
    Over { position: (i32, i32) },
    Drop { paths: Seq<Seq<char>>, position: (i32, i32) },
    Leave,
}

impl View for DragDropEvent {
    type V = DragDropEventView;

    open spec fn view(&self) -> DragDropEventView {
        match *self {
            DragDropEvent::Enter { paths, position } => DragDropEventView::Enter {
                paths: paths.deep_view(),
                position,
            },
            DragDropEvent::Over { position } => DragDropEventView::Over { position },
            DragDropEvent::Drop { paths, position } => DragDropEventView::Drop {
                paths: paths.deep_view(),
                position,
            },
            DragDropEvent::Leave => DragDropEventView::Leave,
        }
    }
}

impl Clone for DragDropEvent {
    fn clone(&self) -> (copy: Self)
        ensures
            copy@ == self@,
    {
        match self {
            DragDropEvent::Enter { paths, position } => DragDropEvent::Enter {
                paths: clone_paths(paths),
                position: (position.0, position.1),
            },
            DragDropEvent::Over { position } => DragDropEvent::Over {
                position: (position.0, position.1),
            },
            DragDropEvent::Drop { paths, position } => DragDropEvent::Drop {
                paths: clone_paths(paths),
                position: (position.0, position.1),
            },
            DragDropEvent::Leave => DragDropEvent::Leave,
        }
    }
}

/// A copy of `paths`, path by path and in the same order.
fn clone_paths(paths: &Vec<String>) -> (copy: Vec<String>)
    ensures
        copy.deep_view() == paths.deep_view(),
{
    let mut copy: Vec<String> = Vec::new();
    let mut i: usize = 0;
    while i < paths.len()
        invariant
            i <= paths.len(),
            copy.len() == i,
            forall|j: int| 0 <= j < i ==> copy[j]@ == paths[j]@,
        decreases paths.len() - i,
    {
        copy.push(paths[i].clone());
        i += 1;
    }
    assert(copy.deep_view() =~= paths.deep_view());
    copy
}

impl DragDropEvent {
    /// The operation that gives rise to this event.
    pub open spec fn spec_operation(self) -> Operation {
        match self {
            DragDropEvent::Enter { .. } => Operation::Enter,
            DragDropEvent::Over { .. } => Operation::Update,
            DragDropEvent::Drop { .. } => Operation::Drop,
            DragDropEvent::Leave => Operation::Exit,
        }
    }

    /// The operation that gives rise to this event.
    pub fn operation(&self) -> (kind: Operation)
        ensures
            kind == self.spec_operation(),
    {
        match self {
            DragDropEvent::Enter { .. } => Operation::Enter,
            DragDropEvent::Over { .. } => Operation::Update,
            DragDropEvent::Drop { .. } => Operation::Drop,
            DragDropEvent::Leave => Operation::Exit,
        }
    }
}

} // verus!
