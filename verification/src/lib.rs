//! Compositor support layer: input-focus routing over heterogeneous surface
//! handles, window-state snapshots, and the cross-process publication channel
//! (a shared-memory segment guarded by a named semaphore, plus a socket
//! request/response server).
//!
//! Surface handles, window metadata and monitor modes are held as plain
//! values; the host compositor converts its own objects into them at the
//! boundary. All text that crosses a process boundary is handled as bytes.

pub mod focus;
pub mod json;
pub mod output_utils;
pub mod server;
pub mod shared_memory;
pub mod state;
pub mod window_utils;
