//! Resource-aware worker pool coordination.
//!
//! The library decides how many workers a host can sustain, how a global
//! task budget is split among them, which node id and identity each worker
//! slot receives, and how a per-worker event stream is relayed into one
//! combined stream until a shutdown signal arrives.

pub mod budget;
pub mod events;
pub mod identity;
pub mod pool;
pub mod numeral;
pub mod resources;

pub use budget::per_worker_budget;
pub use events::{Event, RelayAction, WorkerObservation};
pub use pool::{ParallelRunner, WorkerSlot};
pub use resources::SystemSnapshot;
