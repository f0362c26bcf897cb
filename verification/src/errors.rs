use vstd::prelude::*;

verus! {

/// Every way the proxy can fail, by the stage at which it failed.
///
/// Construction-time failures (`ConnectFailure`, `HandshakeFailure`,
/// `AuthFailure`, `ListenerBindFailure`, `ConnectionLost`) abort tunnel
/// creation entirely; per-connection failures (`ChannelOpenFailure`,
/// `LocalStreamFailure`) terminate only the one connection they occurred on.
#[derive(PartialEq, Eq, Structural, Clone, Copy, Debug)]
pub enum LogicError {
    /// The initial TCP dial to the SSH server failed.
    ConnectFailure,
    /// The SSH protocol handshake on the established socket failed.
    HandshakeFailure,
    /// Authentication failed: wrong password, key rejected, or the key file
    /// could not be provisioned.
    AuthFailure,
    /// The local loopback listener could not be bound.
    ListenerBindFailure,
    /// A forwarding channel could not be opened over the live session.
    ChannelOpenFailure,
    /// A read, write or flush on the client-facing local stream failed.
    LocalStreamFailure,
    /// An awaited readiness signal was dropped without ever firing.
    ConnectionLost,
}

impl LogicError {
    /// The descriptive text surfaced to the caller for this error.
    pub fn describe(&self) -> (s: &'static str)
        ensures
            *self is ConnectFailure ==> s@ == "connect failure"@,
            *self is HandshakeFailure ==> s@ == "handshake failure"@,
            *self is AuthFailure ==> s@ == "authentication failure"@,
            *self is ListenerBindFailure ==> s@ == "listener bind failure"@,
            *self is ChannelOpenFailure ==> s@ == "channel open failure"@,
            *self is LocalStreamFailure ==> s@ == "local stream failure"@,
            *self is ConnectionLost ==> s@ == "connection lost"@,
    {
        match self {
            LogicError::ConnectFailure => "connect failure",
            LogicError::HandshakeFailure => "handshake failure",
            LogicError::AuthFailure => "authentication failure",
            LogicError::ListenerBindFailure => "listener bind failure",
            LogicError::ChannelOpenFailure => "channel open failure",
            LogicError::LocalStreamFailure => "local stream failure",
            LogicError::ConnectionLost => "connection lost",
        }
    }

    /// Whether this error aborts tunnel construction, as opposed to ending a
    /// single connection.
    pub fn aborts_construction(&self) -> (b: bool)
        ensures
            b == (*self is ConnectFailure || *self is HandshakeFailure
                || *self is AuthFailure || *self is ListenerBindFailure
                || *self is ConnectionLost),
    {
        match self {
            LogicError::ConnectFailure => true,
            LogicError::HandshakeFailure => true,
            LogicError::AuthFailure => true,
            LogicError::ListenerBindFailure => true,
            LogicError::ConnectionLost => true,
            LogicError::ChannelOpenFailure => false,
            LogicError::LocalStreamFailure => false,
        }
    }
}

} // verus!
