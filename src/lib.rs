//! Supervision of an external worker process: its status snapshot and the
//! store's update rules, the start/stop decisions and the graceful-then-
//! forceful shutdown protocol, and what is read back from the worker.
use vstd::prelude::*;

pub mod layout;
pub mod process_table;
pub mod status;
pub mod supervisor;
pub mod text;
pub mod timestamp;
pub mod worker;

pub use status::{update_status, EngineStatus};
pub use timestamp::chrono_lite_now;

verus! {

} // verus!
