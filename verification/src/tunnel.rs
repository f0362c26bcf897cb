use vstd::prelude::*;

verus! {

/// The state of one constructed tunnel: the assigned loopback port and what
/// teardown has already done.  The running binary pairs a value of this type
/// with the authenticated session and the sending half of the cancellation
/// signal; the flags here say which teardown duties have been discharged.
#[derive(PartialEq, Eq, Structural, Clone, Copy, Debug)]
pub struct Tunnel {
    /// The OS-assigned local port; immutable after construction.  Local
    /// clients connect to it on the loopback interface.
    pub proxy_port: u16,
    /// Whether the cancellation signal has been sent.
    pub cancel_sent: bool,
    /// Whether the session has been told to disconnect.
    pub disconnected: bool,
}

/// What a tunnel looks like after teardown: the signal sent and the session
/// disconnected, with the port left as it was.
pub open spec fn spec_closed(t: Tunnel) -> Tunnel {
    Tunnel { proxy_port: t.proxy_port, cancel_sent: true, disconnected: true }
}

impl Tunnel {
    /// A freshly constructed tunnel on `proxy_port`: nothing torn down yet.
    pub fn new(proxy_port: u16) -> (t: Tunnel)
        ensures
            t == (Tunnel { proxy_port, cancel_sent: false, disconnected: false }),
    {
        Tunnel { proxy_port, cancel_sent: false, disconnected: false }
    }

    /// The local port clients connect to.
    pub fn get_proxy_port(&self) -> (port: u16)
        ensures
            port == self.proxy_port,
    {
        self.proxy_port
    }

    /// Tear the tunnel down: send the cancellation signal and disconnect the
    /// session.  Never fails, never panics, and leaves the same state no
    /// matter how often it is called; the port is untouched.
    pub fn close(&mut self)
        ensures
            *final(self) == spec_closed(*old(self)),
    {
        self.cancel_sent = true;
        self.disconnected = true;
    }
}

/// Teardown is idempotent: closing an already closed tunnel changes nothing,
/// so an explicit close followed by the implicit close at end of scope sends
/// no second effective teardown.
pub proof fn lemma_close_idempotent(t: Tunnel)
    ensures
        spec_closed(spec_closed(t)) == spec_closed(t),
{
}

} // verus!
