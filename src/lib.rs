//! Verified core of a live audio router: the parameter model and store, the
//! debounced persistence worker, device resolution, the frame bridges, the
//! block assembler and the session supervisor.

pub mod assembler;
pub mod bridge;
pub mod device;
pub mod error;
pub mod params;
pub mod saver;
pub mod session;
pub mod store;
pub mod watcher;
