use ssh_tunnel::endpoint::{auth_method, AuthMethod, Endpoint, Identity};
use ssh_tunnel::errors::LogicError;
use ssh_tunnel::listener::{accept_step, AcceptAction, AcceptEvent, AcceptState};
use ssh_tunnel::setup::{
    setup_start, setup_step, SetupAction, SetupEvent, SetupState, KEEPALIVE_SECS, TIMEOUT_MS,
};
use ssh_tunnel::tunnel::Tunnel;

fn password_endpoint() -> Endpoint {
    Endpoint {
        host: "bastion.example".to_string(),
        port: 22,
        user: "deploy".to_string(),
        identity: Some(Identity::Password("not-the-right-password".to_string())),
    }
}

#[test]
fn fixed_intervals_match_the_design() {
    assert_eq!(KEEPALIVE_SECS, 5);
    assert_eq!(TIMEOUT_MS, 10_000);
    assert_eq!(ssh_tunnel::bridge::POLL_INTERVAL_MS, 10);
}

#[test]
fn auth_method_follows_the_identity() {
    let mut e = password_endpoint();
    assert_eq!(auth_method(&e), AuthMethod::PasswordAuth);
    e.identity = Some(Identity::Key {
        key: vec![1, 2, 3],
        passphrase: None,
    });
    assert_eq!(auth_method(&e), AuthMethod::KeyAuth);
    e.identity = None;
    assert_eq!(auth_method(&e), AuthMethod::NoAuth);
}

#[test]
fn construction_starts_with_the_dial() {
    let (s, a) = setup_start();
    assert_eq!(s, SetupState::Dialing);
    assert_eq!(a, SetupAction::Dial);
}

#[test]
fn reachable_server_and_valid_password_reach_ready() {
    let m = AuthMethod::PasswordAuth;
    let (s, _) = setup_start();
    let (s, a) = setup_step(s, m, SetupEvent::DialOk);
    assert_eq!(a, SetupAction::Handshake);
    let (s, a) = setup_step(s, m, SetupEvent::HandshakeOk);
    assert_eq!(
        a,
        SetupAction::Configure {
            keepalive_secs: KEEPALIVE_SECS,
            timeout_ms: TIMEOUT_MS
        }
    );
    let (s, a) = setup_step(s, m, SetupEvent::Configured);
    assert_eq!(a, SetupAction::AuthPassword);
    let (s, a) = setup_step(s, m, SetupEvent::AuthOk);
    assert_eq!(a, SetupAction::BindListener);
    let (s, a) = setup_step(s, m, SetupEvent::BindOk { port: 50123 });
    assert_eq!(a, SetupAction::SpawnAcceptLoop);
    // The constructor returns only once the accept loop has signalled that
    // it is live, so the port accepts connections immediately afterwards.
    let (s, a) = setup_step(s, m, SetupEvent::ListenerReady);
    assert_eq!(s, SetupState::Ready { port: 50123 });
    assert_eq!(a, SetupAction::Finish);
}

#[test]
fn key_identity_writes_and_always_deletes_the_temp_file() {
    let m = AuthMethod::KeyAuth;
    let (s, _) = setup_start();
    let (s, _) = setup_step(s, m, SetupEvent::DialOk);
    let (s, _) = setup_step(s, m, SetupEvent::HandshakeOk);
    let (s, a) = setup_step(s, m, SetupEvent::Configured);
    assert_eq!(a, SetupAction::WriteKeyFile);
    let (s, a) = setup_step(s, m, SetupEvent::KeyFileWritten);
    assert_eq!(a, SetupAction::AuthKey);
    // Success still deletes the file before binding the listener.
    let (s, a) = setup_step(s, m, SetupEvent::AuthOk);
    assert_eq!(s, SetupState::DeletingKey { auth_ok: true });
    assert_eq!(a, SetupAction::DeleteKeyFile);
    let (s, a) = setup_step(s, m, SetupEvent::KeyFileDeleted);
    assert_eq!(s, SetupState::Binding);
    assert_eq!(a, SetupAction::BindListener);
}

#[test]
fn unreachable_host_is_connect_failure_never_auth_failure() {
    for m in [AuthMethod::NoAuth, AuthMethod::PasswordAuth, AuthMethod::KeyAuth] {
        let (s, _) = setup_start();
        let (s, a) = setup_step(s, m, SetupEvent::DialFailed);
        assert_eq!(
            s,
            SetupState::Failed {
                error: LogicError::ConnectFailure
            }
        );
        assert_eq!(a, SetupAction::Finish);
    }
}

#[test]
fn failed_handshake_is_handshake_failure() {
    let m = AuthMethod::PasswordAuth;
    let (s, _) = setup_start();
    let (s, _) = setup_step(s, m, SetupEvent::DialOk);
    let (s, _) = setup_step(s, m, SetupEvent::HandshakeFailed);
    assert_eq!(
        s,
        SetupState::Failed {
            error: LogicError::HandshakeFailure
        }
    );
}

#[test]
fn wrong_password_is_auth_failure() {
    let m = AuthMethod::PasswordAuth;
    let (s, _) = setup_start();
    let (s, _) = setup_step(s, m, SetupEvent::DialOk);
    let (s, _) = setup_step(s, m, SetupEvent::HandshakeOk);
    let (s, _) = setup_step(s, m, SetupEvent::Configured);
    let (s, a) = setup_step(s, m, SetupEvent::AuthFailed);
    assert_eq!(
        s,
        SetupState::Failed {
            error: LogicError::AuthFailure
        }
    );
    assert_eq!(a, SetupAction::Finish);
}

#[test]
fn rejected_key_deletes_the_temp_file_before_failing() {
    let m = AuthMethod::KeyAuth;
    let (s, _) = setup_start();
    let (s, _) = setup_step(s, m, SetupEvent::DialOk);
    let (s, _) = setup_step(s, m, SetupEvent::HandshakeOk);
    let (s, _) = setup_step(s, m, SetupEvent::Configured);
    let (s, _) = setup_step(s, m, SetupEvent::KeyFileWritten);
    // The rejection is not surfaced yet: the file is deleted first.
    let (s, a) = setup_step(s, m, SetupEvent::AuthFailed);
    assert_eq!(s, SetupState::DeletingKey { auth_ok: false });
    assert_eq!(a, SetupAction::DeleteKeyFile);
    let (s, a) = setup_step(s, m, SetupEvent::KeyFileDeleted);
    assert_eq!(
        s,
        SetupState::Failed {
            error: LogicError::AuthFailure
        }
    );
    assert_eq!(a, SetupAction::Finish);
}

#[test]
fn failed_key_provisioning_is_auth_failure() {
    let m = AuthMethod::KeyAuth;
    let (s, _) = setup_start();
    let (s, _) = setup_step(s, m, SetupEvent::DialOk);
    let (s, _) = setup_step(s, m, SetupEvent::HandshakeOk);
    let (s, _) = setup_step(s, m, SetupEvent::Configured);
    let (s, _) = setup_step(s, m, SetupEvent::KeyFileWriteFailed);
    assert_eq!(
        s,
        SetupState::Failed {
            error: LogicError::AuthFailure
        }
    );
}

#[test]
fn failed_bind_is_listener_bind_failure() {
    let m = AuthMethod::NoAuth;
    let (s, _) = setup_start();
    let (s, _) = setup_step(s, m, SetupEvent::DialOk);
    let (s, _) = setup_step(s, m, SetupEvent::HandshakeOk);
    let (s, _) = setup_step(s, m, SetupEvent::Configured);
    let (s, _) = setup_step(s, m, SetupEvent::BindFailed);
    assert_eq!(
        s,
        SetupState::Failed {
            error: LogicError::ListenerBindFailure
        }
    );
}

#[test]
fn dropped_readiness_signal_is_connection_lost() {
    let m = AuthMethod::NoAuth;
    let (s, _) = setup_start();
    let (s, _) = setup_step(s, m, SetupEvent::DialOk);
    let (s, _) = setup_step(s, m, SetupEvent::HandshakeOk);
    let (s, _) = setup_step(s, m, SetupEvent::Configured);
    let (s, _) = setup_step(s, m, SetupEvent::BindOk { port: 40000 });
    let (s, _) = setup_step(s, m, SetupEvent::ReadinessLost);
    assert_eq!(
        s,
        SetupState::Failed {
            error: LogicError::ConnectionLost
        }
    );
}

#[test]
fn accept_loop_spawns_one_bridge_per_connection() {
    let (s, a) = accept_step(AcceptState::Accepting, AcceptEvent::Accepted);
    assert_eq!(s, AcceptState::Accepting);
    assert_eq!(a, AcceptAction::SpawnBridge);
}

#[test]
fn cancelled_or_erroring_listener_stops_accepting() {
    let (s, a) = accept_step(AcceptState::Accepting, AcceptEvent::Cancelled);
    assert_eq!(s, AcceptState::Stopped);
    assert_eq!(a, AcceptAction::StopAccepting);

    let (s, a) = accept_step(AcceptState::Accepting, AcceptEvent::AcceptError);
    assert_eq!(s, AcceptState::Stopped);
    assert_eq!(a, AcceptAction::StopAccepting);

    // Once stopped, even a pending accept never spawns a bridge.
    let (s, a) = accept_step(AcceptState::Stopped, AcceptEvent::Accepted);
    assert_eq!(s, AcceptState::Stopped);
    assert_eq!(a, AcceptAction::StopAccepting);
}

#[test]
fn tunnel_exposes_its_port_and_closes_idempotently() {
    let mut t = Tunnel::new(50123);
    assert_eq!(t.get_proxy_port(), 50123);
    assert!(!t.cancel_sent);
    assert!(!t.disconnected);

    t.close();
    assert!(t.cancel_sent);
    assert!(t.disconnected);
    assert_eq!(t.get_proxy_port(), 50123);
    let after_first = t;

    t.close();
    assert_eq!(t, after_first);
}

#[test]
fn errors_describe_their_stage() {
    assert_eq!(LogicError::ConnectFailure.describe(), "connect failure");
    assert_eq!(LogicError::HandshakeFailure.describe(), "handshake failure");
    assert_eq!(LogicError::AuthFailure.describe(), "authentication failure");
    assert_eq!(LogicError::ListenerBindFailure.describe(), "listener bind failure");
    assert_eq!(LogicError::ChannelOpenFailure.describe(), "channel open failure");
    assert_eq!(LogicError::LocalStreamFailure.describe(), "local stream failure");
    assert_eq!(LogicError::ConnectionLost.describe(), "connection lost");
}

#[test]
fn only_construction_stage_errors_abort_construction() {
    assert!(LogicError::ConnectFailure.aborts_construction());
    assert!(LogicError::HandshakeFailure.aborts_construction());
    assert!(LogicError::AuthFailure.aborts_construction());
    assert!(LogicError::ListenerBindFailure.aborts_construction());
    assert!(LogicError::ConnectionLost.aborts_construction());
    assert!(!LogicError::ChannelOpenFailure.aborts_construction());
    assert!(!LogicError::LocalStreamFailure.aborts_construction());
}
