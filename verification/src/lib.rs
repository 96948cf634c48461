//! Verified core of the VFIO Discord IPC bridge: the IPC socket paths, the
//! Discord IPC frame layout, the bridge packet model and the session
//! bookkeeping of both ends of the bridge.
use vstd::prelude::*;

pub mod discord;
pub mod net;
pub mod packet;
pub mod path;
pub mod session;
pub mod text;

verus! {

/// Port on which the host listens when none is given.
pub const DEFAULT_PORT: u16 = 8765;

/// Size of the buffers that every read from a socket fills.
pub const BUFFER_SIZE: usize = 2048;

} // verus!
