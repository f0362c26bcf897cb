use vstd::prelude::*;

verus! {

/// How a session authenticates: with a password, or with a private key that
/// is materialized into a transient file for the duration of one attempt.
pub enum Identity {
    Password(String),
    Key { key: Vec<u8>, passphrase: Option<String> },
}

/// The SSH server and the login principal for one tunnel.
pub struct Endpoint {
    pub host: String,
    pub port: u16,
    pub user: String,
    /// With no identity the session is left unauthenticated on purpose; the
    /// first channel open will then fail rather than the constructor.
    pub identity: Option<Identity>,
}

/// The destination the tunnel forwards to, as seen from the SSH server.
/// Fixed for the tunnel's entire lifetime.
pub struct ForwardTarget {
    pub host: String,
    pub port: u16,
}

/// The authentication method an endpoint's identity selects.
#[derive(PartialEq, Eq, Structural, Clone, Copy, Debug)]
pub enum AuthMethod {
    NoAuth,
    PasswordAuth,
    KeyAuth,
}

/// The method `endpoint` selects: key material wins over nothing, a password
/// over nothing, and no identity means no authentication attempt at all.
pub open spec fn auth_method_of(endpoint: Endpoint) -> AuthMethod {
    match endpoint.identity {
        Option::None => AuthMethod::NoAuth,
        Option::Some(Identity::Password(_)) => AuthMethod::PasswordAuth,
        Option::Some(Identity::Key { .. }) => AuthMethod::KeyAuth,
    }
}

/// Decide which authentication method `endpoint` calls for.
pub fn auth_method(endpoint: &Endpoint) -> (m: AuthMethod)
    ensures
        m == auth_method_of(*endpoint),
{
    match &endpoint.identity {
        Option::None => AuthMethod::NoAuth,
        Option::Some(Identity::Password(_)) => AuthMethod::PasswordAuth,
        Option::Some(Identity::Key { .. }) => AuthMethod::KeyAuth,
    }
}

} // verus!
