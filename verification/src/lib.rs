//! An incremental mirror engine for append-mostly directory trees.
//!
//! Instead of re-copying whole files on every change, the engine tracks how
//! many bytes of each source file have already been mirrored and asks only
//! for the newly written tail bytes to be appended. It is pure bookkeeping:
//! a caller scans the source tree once at startup ([`baseline`]), then feeds
//! each filesystem change notification to the router ([`router`]), which
//! updates the tracked state ([`state`]) and hands back the destination-tree
//! side effects to perform ([`actions`]). The guarantees the engine gives —
//! baseline idempotence, exact tail copies, no re-copy of already-mirrored
//! bytes, and rename and removal consistency — are stated and proved in
//! [`laws`].

pub mod actions;
pub mod baseline;
pub mod events;
pub mod laws;
pub mod router;
pub mod state;
