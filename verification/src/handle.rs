//! The one piece of state that outlives a call: the port of the sidecar that
//! was last found ready.

use vstd::prelude::*;

verus! {

/// The port of the sidecar last confirmed ready, if any. One handle is made
/// when the host starts and shared by every caller; the host guards it with a
/// lock that is held for a single `port` or `store` and never longer. The
/// port may have gone stale since it was stored: that is found out by the
/// next probe, not here.
#[derive(Debug)]
pub struct SidecarHandle {
    port: Option<u16>,
}

impl View for SidecarHandle {
    type V = Option<u16>;

    closed spec fn view(&self) -> Option<u16> {
        self.port
    }
}

impl SidecarHandle {
    /// A handle that knows of no sidecar.
    pub fn new() -> (handle: SidecarHandle)
        ensures
            handle@ is None,
    {
        SidecarHandle { port: None }
    }

    /// The port last stored, if any.
    pub fn port(&self) -> (port: Option<u16>)
        ensures
            port == self@,
    {
        self.port
    }

    /// Records `port` as the port of a sidecar that has just been found
    /// ready, replacing whatever was stored.
    pub fn store(&mut self, port: u16)
        ensures
            final(self)@ == Some(port),
    {
        self.port = Some(port);
    }
}

} // verus!
