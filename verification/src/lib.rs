//! Decisions of the task that stands between the kernel's channel proxy driver
//! and the user-mode channel server.

pub mod driver;
pub mod intake;
pub mod laws;
pub mod memory;
pub mod offer;
pub mod request;
pub mod steps;
pub mod system;
pub mod table;
pub mod vmgs_json;
pub mod worker;
