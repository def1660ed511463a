//! What the operations promise, said of the operations themselves: each law takes the arguments and
//! the results of calls and states how they relate, field by field.

pub mod amend;
pub mod checkpoint;
pub mod container;
pub mod create;
pub mod limits;
pub mod shim_ctl;
pub mod start;
pub mod stop;
pub mod storage;
