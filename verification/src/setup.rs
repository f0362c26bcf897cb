use vstd::prelude::*;
use crate::endpoint::AuthMethod;
use crate::errors::LogicError;

verus! {

/// Where tunnel construction stands.  Construction is a straight line with
/// failure exits: dial, handshake, configure, authenticate (with a transient
/// key file when a key identity is used), bind the loopback listener, spawn
/// the accept loop and wait for its readiness signal.
#[derive(PartialEq, Eq, Structural, Clone, Copy, Debug)]
pub enum SetupState {
    /// The TCP dial to the SSH server is in flight.
    Dialing,
    /// The SSH protocol handshake is in flight.
    Handshaking,
    /// Keepalive and session timeout are being configured.
    Configuring,
    /// A password authentication attempt is in flight.
    AuthingPassword,
    /// The private key is being materialized into a transient file.
    WritingKey,
    /// A public-key authentication attempt with the transient file is in
    /// flight; the file is live on disk.
    AuthingKey,
    /// The transient key file is being deleted, whatever the attempt's
    /// outcome was; the outcome is remembered until cleanup completes.
    DeletingKey { auth_ok: bool },
    /// The loopback listener is being bound to an OS-assigned port.
    Binding,
    /// The accept loop was spawned; construction waits for its one
    /// readiness signal before returning.
    AwaitingReady { port: u16 },
    /// Construction succeeded: the listener on `port` is live and accepting.
    Ready { port: u16 },
    /// Construction failed; no partial tunnel exists.
    Failed { error: LogicError },
}

/// The outcome of the outside step construction last asked for.
#[derive(PartialEq, Eq, Structural, Clone, Copy, Debug)]
pub enum SetupEvent {
    DialOk,
    DialFailed,
    HandshakeOk,
    HandshakeFailed,
    /// Keepalive and timeout were set; configuration has no failure path.
    Configured,
    /// The pending authentication attempt (password or key) succeeded.
    AuthOk,
    /// The pending authentication attempt was rejected.
    AuthFailed,
    KeyFileWritten,
    KeyFileWriteFailed,
    /// The transient key file was removed (best effort).
    KeyFileDeleted,
    BindOk { port: u16 },
    BindFailed,
    /// The accept loop reported that it is accepting connections.
    ListenerReady,
    /// The readiness signal was dropped without firing.
    ReadinessLost,
}

/// What the constructor's runner must do next.
#[derive(PartialEq, Eq, Structural, Clone, Copy, Debug)]
pub enum SetupAction {
    /// Open a TCP connection to the endpoint's host and port.
    Dial,
    /// Run the SSH handshake on the established socket.
    Handshake,
    /// Set session keepalive and the overall operation timeout; these are
    /// the only timeout controls in the system.
    Configure { keepalive_secs: u32, timeout_ms: u32 },
    /// Attempt password authentication with the endpoint's user and password.
    AuthPassword,
    /// Write the private key bytes to a transient file.
    WriteKeyFile,
    /// Attempt public-key authentication with the endpoint's user, the
    /// transient file and the optional passphrase.
    AuthKey,
    /// Delete the transient key file, unconditionally.
    DeleteKeyFile,
    /// Bind a loopback TCP listener with an OS-assigned port.
    BindListener,
    /// Spawn the accept loop, then await its readiness signal.
    SpawnAcceptLoop,
    /// Construction is over, successfully or not; nothing more to run.
    Finish,
}

/// Session keepalive interval, in seconds.
pub const KEEPALIVE_SECS: u32 = 5;

/// Overall session operation timeout, in milliseconds.
pub const TIMEOUT_MS: u32 = 10000;

/// Whether the transient key file is live on disk in state `s`.
pub open spec fn key_file_live(s: SetupState) -> bool {
    s is AuthingKey || s is DeletingKey
}

/// Whether construction is over in state `s`.
pub open spec fn setup_done(s: SetupState) -> bool {
    s is Ready || s is Failed
}

/// Which events can answer a construction that stands in `s`.
pub open spec fn setup_event_expected(s: SetupState, e: SetupEvent) -> bool {
    match s {
        SetupState::Dialing => e is DialOk || e is DialFailed,
        SetupState::Handshaking => e is HandshakeOk || e is HandshakeFailed,
        SetupState::Configuring => e is Configured,
        SetupState::AuthingPassword => e is AuthOk || e is AuthFailed,
        SetupState::WritingKey => e is KeyFileWritten || e is KeyFileWriteFailed,
        SetupState::AuthingKey => e is AuthOk || e is AuthFailed,
        SetupState::DeletingKey { .. } => e is KeyFileDeleted,
        SetupState::Binding => e matches SetupEvent::BindOk { .. } || e is BindFailed,
        SetupState::AwaitingReady { .. } => e is ListenerReady || e is ReadinessLost,
        SetupState::Ready { .. } => false,
        SetupState::Failed { .. } => false,
    }
}

/// Tunnel construction as a transition function over the chosen
/// authentication method `m`: each failure exit carries the error of the
/// stage it happened at, a key authentication failure is propagated only
/// after the transient file's deletion, and success is reached only once the
/// accept loop has signalled readiness.
pub open spec fn setup_next(s: SetupState, m: AuthMethod, e: SetupEvent) -> (SetupState, SetupAction) {
    match s {
        SetupState::Dialing => {
            if e is DialOk {
                (SetupState::Handshaking, SetupAction::Handshake)
            } else {
                (SetupState::Failed { error: LogicError::ConnectFailure }, SetupAction::Finish)
            }
        },
        SetupState::Handshaking => {
            if e is HandshakeOk {
                (SetupState::Configuring, SetupAction::Configure {
                    keepalive_secs: KEEPALIVE_SECS,
                    timeout_ms: TIMEOUT_MS,
                })
            } else {
                (SetupState::Failed { error: LogicError::HandshakeFailure }, SetupAction::Finish)
            }
        },
        SetupState::Configuring => {
            match m {
                AuthMethod::NoAuth => (SetupState::Binding, SetupAction::BindListener),
                AuthMethod::PasswordAuth => (SetupState::AuthingPassword, SetupAction::AuthPassword),
                AuthMethod::KeyAuth => (SetupState::WritingKey, SetupAction::WriteKeyFile),
            }
        },
        SetupState::AuthingPassword => {
            if e is AuthOk {
                (SetupState::Binding, SetupAction::BindListener)
            } else {
                (SetupState::Failed { error: LogicError::AuthFailure }, SetupAction::Finish)
            }
        },
        SetupState::WritingKey => {
            if e is KeyFileWritten {
                (SetupState::AuthingKey, SetupAction::AuthKey)
            } else {
                (SetupState::Failed { error: LogicError::AuthFailure }, SetupAction::Finish)
            }
        },
        SetupState::AuthingKey => {
            (SetupState::DeletingKey { auth_ok: e is AuthOk }, SetupAction::DeleteKeyFile)
        },
        SetupState::DeletingKey { auth_ok } => {
            if auth_ok {
                (SetupState::Binding, SetupAction::BindListener)
            } else {
                (SetupState::Failed { error: LogicError::AuthFailure }, SetupAction::Finish)
            }
        },
        SetupState::Binding => {
            match e {
                SetupEvent::BindOk { port } => (SetupState::AwaitingReady { port }, SetupAction::SpawnAcceptLoop),
                _ => (SetupState::Failed { error: LogicError::ListenerBindFailure }, SetupAction::Finish),
            }
        },
        SetupState::AwaitingReady { port } => {
            if e is ListenerReady {
                (SetupState::Ready { port }, SetupAction::Finish)
            } else {
                (SetupState::Failed { error: LogicError::ConnectionLost }, SetupAction::Finish)
            }
        },
        SetupState::Ready { port } => (SetupState::Ready { port }, SetupAction::Finish),
        SetupState::Failed { error } => (SetupState::Failed { error }, SetupAction::Finish),
    }
}

/// Begin construction: the first outside step is the TCP dial.
pub fn setup_start() -> (r: (SetupState, SetupAction))
    ensures
        r == (SetupState::Dialing, SetupAction::Dial),
{
    (SetupState::Dialing, SetupAction::Dial)
}

/// Take one construction step.
pub fn setup_step(state: SetupState, method: AuthMethod, event: SetupEvent) -> (r: (SetupState, SetupAction))
    requires
        setup_event_expected(state, event),
    ensures
        r == setup_next(state, method, event),
{
    match state {
        SetupState::Dialing => {
            if matches!(event, SetupEvent::DialOk) {
                (SetupState::Handshaking, SetupAction::Handshake)
            } else {
                (SetupState::Failed { error: LogicError::ConnectFailure }, SetupAction::Finish)
            }
        },
        SetupState::Handshaking => {
            if matches!(event, SetupEvent::HandshakeOk) {
                (SetupState::Configuring, SetupAction::Configure {
                    keepalive_secs: KEEPALIVE_SECS,
                    timeout_ms: TIMEOUT_MS,
                })
            } else {
                (SetupState::Failed { error: LogicError::HandshakeFailure }, SetupAction::Finish)
            }
        },
        SetupState::Configuring => {
            match method {
                AuthMethod::NoAuth => (SetupState::Binding, SetupAction::BindListener),
                AuthMethod::PasswordAuth => (SetupState::AuthingPassword, SetupAction::AuthPassword),
                AuthMethod::KeyAuth => (SetupState::WritingKey, SetupAction::WriteKeyFile),
            }
        },
        SetupState::AuthingPassword => {
            if matches!(event, SetupEvent::AuthOk) {
                (SetupState::Binding, SetupAction::BindListener)
            } else {
                (SetupState::Failed { error: LogicError::AuthFailure }, SetupAction::Finish)
            }
        },
        SetupState::WritingKey => {
            if matches!(event, SetupEvent::KeyFileWritten) {
                (SetupState::AuthingKey, SetupAction::AuthKey)
            } else {
                (SetupState::Failed { error: LogicError::AuthFailure }, SetupAction::Finish)
            }
        },
        SetupState::AuthingKey => {
            (SetupState::DeletingKey { auth_ok: matches!(event, SetupEvent::AuthOk) }, SetupAction::DeleteKeyFile)
        },
        SetupState::DeletingKey { auth_ok } => {
            if auth_ok {
                (SetupState::Binding, SetupAction::BindListener)
            } else {
                (SetupState::Failed { error: LogicError::AuthFailure }, SetupAction::Finish)
            }
        },
        SetupState::Binding => {
            match event {
                SetupEvent::BindOk { port } => (SetupState::AwaitingReady { port }, SetupAction::SpawnAcceptLoop),
                _ => (SetupState::Failed { error: LogicError::ListenerBindFailure }, SetupAction::Finish),
            }
        },
        SetupState::AwaitingReady { port } => {
            if matches!(event, SetupEvent::ListenerReady) {
                (SetupState::Ready { port }, SetupAction::Finish)
            } else {
                (SetupState::Failed { error: LogicError::ConnectionLost }, SetupAction::Finish)
            }
        },
        SetupState::Ready { port } => (SetupState::Ready { port }, SetupAction::Finish),
        SetupState::Failed { error } => (SetupState::Failed { error }, SetupAction::Finish),
    }
}

/// The state a construction run ends in after consuming `events` in order.
pub open spec fn setup_run(s: SetupState, m: AuthMethod, events: Seq<SetupEvent>) -> SetupState
    decreases events.len(),
{
    if events.len() == 0 {
        s
    } else {
        setup_run(setup_next(s, m, events[0]).0, m, events.skip(1))
    }
}

/// A failed construction stays failed: no later event revives it, and the
/// error it ends with is the error of the stage that failed.
pub proof fn lemma_failed_is_absorbing(error: LogicError, m: AuthMethod, events: Seq<SetupEvent>)
    ensures
        setup_run(SetupState::Failed { error }, m, events) == (SetupState::Failed { error }),
    decreases events.len(),
{
    if events.len() > 0 {
        lemma_failed_is_absorbing(error, m, events.skip(1));
    }
}

/// Run-level guarantee: a run whose dial failed ends in `ConnectFailure`,
/// whatever events follow.  Reaching the server is decided before any
/// credential is looked at, so an unreachable host can never surface as
/// `AuthFailure`.
pub proof fn lemma_run_unreachable_is_connect_failure(m: AuthMethod, rest: Seq<SetupEvent>)
    ensures
        setup_run(SetupState::Dialing, m, seq![SetupEvent::DialFailed] + rest)
            == (SetupState::Failed { error: LogicError::ConnectFailure }),
{
    let events = seq![SetupEvent::DialFailed] + rest;
    assert(events[0] == SetupEvent::DialFailed);
    assert(events.skip(1) =~= rest);
    lemma_failed_is_absorbing(LogicError::ConnectFailure, m, rest);
}

/// An unreachable host fails construction as `ConnectFailure` in the very
/// first step, whatever the authentication method: authentication is never
/// reached, so the failure can never be `AuthFailure`.
pub proof fn lemma_unreachable_is_connect_failure(m: AuthMethod)
    ensures
        setup_next(SetupState::Dialing, m, SetupEvent::DialFailed)
            == (SetupState::Failed { error: LogicError::ConnectFailure }, SetupAction::Finish),
{
}

/// `AuthFailure` arises only out of an authentication stage: a password
/// attempt, key-file provisioning, or the cleanup after a key attempt.  In
/// particular a failed dial or handshake never surfaces as `AuthFailure`.
pub proof fn lemma_auth_failure_only_from_auth(s: SetupState, m: AuthMethod, e: SetupEvent)
    requires
        setup_event_expected(s, e),
        setup_next(s, m, e).0 == (SetupState::Failed { error: LogicError::AuthFailure }),
    ensures
        s is AuthingPassword || s is WritingKey || s is DeletingKey,
{
}

/// Rejected credentials surface as `AuthFailure`: directly for a password
/// attempt, and for a key attempt only after the transient file's deletion
/// has been carried out.
pub proof fn lemma_invalid_credentials_are_auth_failure(m: AuthMethod)
    ensures
        setup_next(SetupState::AuthingPassword, m, SetupEvent::AuthFailed)
            == (SetupState::Failed { error: LogicError::AuthFailure }, SetupAction::Finish),
        setup_next(SetupState::AuthingKey, m, SetupEvent::AuthFailed)
            == (SetupState::DeletingKey { auth_ok: false }, SetupAction::DeleteKeyFile),
        setup_next(SetupState::DeletingKey { auth_ok: false }, m, SetupEvent::KeyFileDeleted)
            == (SetupState::Failed { error: LogicError::AuthFailure }, SetupAction::Finish),
{
}

/// The transient key file never leaks: it can only stop being live through
/// the deleting stage, which is entered under the `DeleteKeyFile` action
/// alone, and it is never live once construction is over.
pub proof fn lemma_key_file_never_leaks(s: SetupState, m: AuthMethod, e: SetupEvent)
    requires
        setup_event_expected(s, e),
    ensures
        key_file_live(s) && !key_file_live(setup_next(s, m, e).0) ==> s is DeletingKey,
        !key_file_live(s) && key_file_live(setup_next(s, m, e).0)
            ==> s is WritingKey && setup_next(s, m, e).1 == SetupAction::AuthKey,
        setup_done(setup_next(s, m, e).0) ==> !key_file_live(setup_next(s, m, e).0),
{
}

/// Construction succeeds only through the readiness handshake: the only way
/// into `Ready` is the accept loop's `ListenerReady` signal, so a caller who
/// holds a constructed tunnel holds a listener that was already accepting.
pub proof fn lemma_ready_needs_listener(s: SetupState, m: AuthMethod, e: SetupEvent)
    requires
        setup_event_expected(s, e),
        setup_next(s, m, e).0 is Ready,
    ensures
        s is AwaitingReady,
        e == SetupEvent::ListenerReady,
        setup_next(s, m, e).0 == (SetupState::Ready { port: s->AwaitingReady_port }),
{
}

/// A reachable server and valid password credentials construct a tunnel: the
/// all-success event sequence ends in `Ready` on the bound port.
pub proof fn lemma_success_run_password(port: u16)
    ensures
        setup_run(
            SetupState::Dialing,
            AuthMethod::PasswordAuth,
            seq![
                SetupEvent::DialOk,
                SetupEvent::HandshakeOk,
                SetupEvent::Configured,
                SetupEvent::AuthOk,
                SetupEvent::BindOk { port },
                SetupEvent::ListenerReady,
            ],
        ) == (SetupState::Ready { port }),
{
    reveal_with_fuel(setup_run, 7);
}

/// With no identity supplied, construction proceeds on purpose to an
/// unauthenticated session: no authentication primitive is ever invoked, and
/// a reachable server alone takes the run to `Ready`.
pub proof fn lemma_success_run_no_identity(port: u16)
    ensures
        setup_run(
            SetupState::Dialing,
            AuthMethod::NoAuth,
            seq![
                SetupEvent::DialOk,
                SetupEvent::HandshakeOk,
                SetupEvent::Configured,
                SetupEvent::BindOk { port },
                SetupEvent::ListenerReady,
            ],
        ) == (SetupState::Ready { port }),
{
    reveal_with_fuel(setup_run, 6);
}

/// A reachable server and a valid key identity construct a tunnel, writing
/// and deleting the transient key file on the way.
pub proof fn lemma_success_run_key(port: u16)
    ensures
        setup_run(
            SetupState::Dialing,
            AuthMethod::KeyAuth,
            seq![
                SetupEvent::DialOk,
                SetupEvent::HandshakeOk,
                SetupEvent::Configured,
                SetupEvent::KeyFileWritten,
                SetupEvent::AuthOk,
                SetupEvent::KeyFileDeleted,
                SetupEvent::BindOk { port },
                SetupEvent::ListenerReady,
            ],
        ) == (SetupState::Ready { port }),
{
    reveal_with_fuel(setup_run, 9);
}

} // verus!
