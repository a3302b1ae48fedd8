//! Media handed to a connection by the media providers.

pub mod controls;
pub mod video;

use vstd::prelude::*;

verus! {

/// What a media provider hands to a connection: a routine to run once the
/// connection is up, a data channel it opened, or the parameters for a data
/// channel that the peer will open under `label`.
pub enum MediaType<R, C, P> {
    Routine(R),
    Channel(C),
    RecvChannel { label: String, params: P },
}

} // verus!
