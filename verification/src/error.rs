//! Why a request is refused.

use vstd::prelude::*;

verus! {

/// The reasons that lie in the request itself, whatever becomes of the outside work.
#[derive(Clone, Copy, Debug, PartialEq, Eq, Structural)]
pub enum Error {
    /// The specification has no root filesystem.
    MissingRoot,
    /// The specification has no Linux part.
    MissingLinux,
    /// The container knows no process of the given exec id.
    ProcessNotFound,
}

} // verus!
