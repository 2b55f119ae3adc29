//! Reconciliation core of a terminal chat client: collections fed by diff
//! batches, a selection cursor over the room list, per-room projections and
//! registries, and the decisions behind the client's background work.

pub mod diff;
pub mod select;
pub mod registry;
pub mod text;
pub mod rooms;
pub mod timeline;
pub mod session;
pub mod controls;
pub mod reconcile;
