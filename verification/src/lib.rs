//! A drag-and-drop event bridge.
//!
//! A windowing surface reports four drag operations: entry, hover update,
//! drop and exit. The bridge turns each into an [`event::DragDropEvent`],
//! asks the decision callback attached to the surface whether the
//! application consumes it, and otherwise falls back to the platform's stock
//! routine for that operation.
//!
//! - [`event`]: the operations and the events built from them;
//! - [`payload`]: what a drag session carries, and the paths read from it;
//! - [`registry`]: the decision callbacks, one per surface;
//! - [`defaults`]: the stock routines, each resolved once and kept;
//! - [`interceptor`]: the four interception points;
//! - [`error`]: the setup defects an interception can run into.

pub mod defaults;
pub mod error;
pub mod event;
pub mod interceptor;
pub mod payload;
pub mod registry;
