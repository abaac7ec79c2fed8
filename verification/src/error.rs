//! The codes that the driver answers the host with.

use vstd::prelude::*;

verus! {

/// What an entry point reports to the host.
#[derive(Clone, Copy, Debug, PartialEq, Eq, Structural)]
pub enum DspyError {
    /// The call did its work.
    NoError,
    /// The host broke the calling contract: a missing handle, file name or
    /// data pointer, or a tile that is not a rectangle or does not hold the
    /// samples of one.
    BadParams,
    /// The query is not one the driver answers.
    Unsupported,
    /// The call could not be carried out: the tile does not fit into what is
    /// left of the buffer, or the file could not be written.
    Undefined,
}

} // verus!
