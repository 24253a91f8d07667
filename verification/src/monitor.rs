use vstd::prelude::*;

verus! {

/// How the client finds out that a local UDP address is done with.
#[derive(Clone, Copy, Debug, PartialEq, Eq, Structural)]
pub enum MonitorMode {
    /// Read the kernel's socket table: an address whose socket is gone, or
    /// was bound anew, is done with.
    SockDiag,
    /// An address whose tunnel carried nothing for this many milliseconds is
    /// done with.
    Timeout(u64),
}

impl MonitorMode {
    /// The mode for a client started with an optional timeout: the timeout
    /// where one is given, else the socket table.
    pub fn from_timeout(timeout: Option<u64>) -> (mode: MonitorMode)
        ensures
            mode == (match timeout {
                Some(t) => MonitorMode::Timeout(t),
                None => MonitorMode::SockDiag,
            }),
    {
        match timeout {
            Some(t) => MonitorMode::Timeout(t),
            None => MonitorMode::SockDiag,
        }
    }
}

} // verus!
