//! How a runtime for containers in virtual machines treats one container.

pub mod amend;
pub mod checkpoint;
pub mod config;
pub mod container;
pub mod create;
pub mod error;
pub mod laws;
pub mod limits;
mod lists;
pub mod oci;
pub mod path;
pub mod process;
pub mod shim_ctl;
pub mod start;
pub mod stop;
pub mod string_map;
pub mod text;
