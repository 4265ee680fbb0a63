//! A reconciliation library for a daemon that keeps networked light fixtures
//! in their last known desired state.
//!
//! The library holds the verified core: the light state model, the snapshot
//! store, the restore command builder, the reconciliation cycle, the
//! persistence gate, and the poll scheduler's decision logic. Network
//! discovery, the bridge protocol, logging and process startup live outside
//! the library and talk to it through plain values.

pub mod data;
pub mod discovery;
pub mod encode;
pub mod engine;
pub mod error;
pub mod gate;
pub mod restore;
pub mod sched;
pub mod store;
pub mod table;

pub use data::ColorState;
pub use data::Ct;
pub use data::Hs;
pub use data::Light;
pub use data::LightState;
pub use data::Xy;
