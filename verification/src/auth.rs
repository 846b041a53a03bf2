//! Oracle authentication mechanisms

use crate::connection::{ConnectionConfig, ConnectionConfigView};
use crate::error::{Error, ErrorView};
use crate::protocol::{is_unit_outcome, Credential, Protocol, Request, SessionState};
use crate::text::strip_prefix;
use sha2::{Digest, Sha256};
use vstd::prelude::*;
use vstd::string::*;
use vstd::utf8::*;

verus! {

/// Authentication methods
#[derive(Debug, Clone, Copy, PartialEq, Eq, Structural)]
pub enum AuthMethod {
    /// Username/password authentication
    Password,
    /// OS authentication
    External,
    /// Token-based authentication
    Token,
}

/// Authentication protocols
#[derive(Debug, Clone, Copy, PartialEq, Eq, Structural)]
pub enum AuthProtocol {
    /// O5LOGON (Oracle 11g+)
    O5Logon,
    /// O3LOGON (older)
    O3Logon,
    /// External authentication
    External,
    /// Token authentication
    Token,
}

/// The SHA-256 digest of `message`.
pub uninterp spec fn sha256_digest(message: Seq<u8>) -> Seq<u8>;

/// `Sha256` of the crate `sha2`: a new hasher is fed `first`, then `second`,
/// and finalized. The result is the SHA-256 digest of the message that is
/// `first` followed by `second`: a hasher digests what it was fed in all,
/// however the message was cut into pieces.
#[verifier::external_body]
fn sha256_of(first: &[u8], second: &[u8]) -> (digest: Vec<u8>)
    ensures
        digest@ == sha256_digest(first@ + second@),
{
    let mut hasher = Sha256::new();
    hasher.update(first);
    hasher.update(second);
    hasher.finalize().to_vec()
}

/// The method by which `user` logs on with `password`: without both, the
/// operating system vouches for the user; a password that begins with
/// `TOKEN:` carries a token; any other is a password.
pub open spec fn select_method(user: Seq<char>, password: Seq<char>) -> AuthMethod {
    if user.len() == 0 && password.len() == 0 {
        AuthMethod::External
    } else if "TOKEN:"@.is_prefix_of(password) {
        AuthMethod::Token
    } else {
        AuthMethod::Password
    }
}

/// The salt that the stand-in transport hands out for the password digest.
pub open spec fn server_salt() -> Seq<u8> {
    encode_utf8("server_salt"@)
}

/// The digest that proves knowledge of `password` to a server that sent
/// `salt`: the SHA-256 digest of the UTF-8 bytes of the password followed by
/// the salt.
pub open spec fn password_digest(password: Seq<char>, salt: Seq<u8>) -> Seq<u8> {
    sha256_digest(encode_utf8(password) + salt)
}

/// The logon that `user` sends with `password`, or the error where the
/// credentials call for none: a token that is empty.
pub open spec fn logon_request(user: Seq<char>, password: Seq<char>) -> Result<Request, ErrorView> {
    match select_method(user, password) {
        AuthMethod::External => Ok(Request::Logon { user, credential: Credential::External }),
        AuthMethod::Token => {
            let token = password.skip("TOKEN:"@.len() as int);
            if token.len() == 0 {
                Err(ErrorView::AuthenticationFailed("Empty token"@))
            } else {
                Ok(Request::Logon { user, credential: Credential::Token(token) })
            }
        },
        AuthMethod::Password => Ok(
            Request::Logon {
                user,
                credential: Credential::Digest(password_digest(password, server_salt())),
            },
        ),
    }
}

/// Authentication handler
pub struct Authenticator {
    config: ConnectionConfig,
}

impl View for Authenticator {
    type V = ConnectionConfigView;

    closed spec fn view(&self) -> ConnectionConfigView {
        self.config@
    }
}

impl Authenticator {
    /// Create new authenticator
    pub fn new(config: &ConnectionConfig) -> (auth: Self)
        ensures
            auth@ == config@,
    {
        Authenticator { config: config.clone() }
    }

    /// Perform authentication: the step `SessionView::authenticate` with the
    /// user and the password of the configuration.
    pub fn authenticate(&self, protocol: &mut Protocol) -> (r: Result<(), Error>)
        ensures
            final(protocol)@ == old(protocol)@.authenticate(self@.user, self@.password).0,
            is_unit_outcome(r, old(protocol)@.authenticate(self@.user, self@.password).1),
    {
        match protocol.state() {
            SessionState::Closed => {
                return Err(Error::ConnectionClosed);
            },
            _ => {},
        }
        // Determine authentication method based on configuration
        match self.detect_auth_method() {
            AuthMethod::Password => self.password_auth(protocol),
            AuthMethod::External => self.external_auth(protocol),
            AuthMethod::Token => self.token_auth(protocol),
        }
    }

    /// Detect which authentication method to use
    pub fn detect_auth_method(&self) -> (method: AuthMethod)
        ensures
            method == select_method(self@.user, self@.password),
    {
        if self.config.user.as_str().is_empty() && self.config.password.as_str().is_empty() {
            AuthMethod::External
        } else if strip_prefix(self.config.password.as_str(), "TOKEN:").is_some() {
            AuthMethod::Token
        } else {
            AuthMethod::Password
        }
    }

    /// Password-based authentication (using O5LOGON or similar): the digest
    /// of the password and the server's salt is sent as the credential.
    fn password_auth(&self, protocol: &mut Protocol) -> (r: Result<(), Error>)
        requires
            old(protocol)@.state != SessionState::Closed,
            select_method(self@.user, self@.password) == AuthMethod::Password,
        ensures
            final(protocol)@ == old(protocol)@.authenticate(self@.user, self@.password).0,
            is_unit_outcome(r, old(protocol)@.authenticate(self@.user, self@.password).1),
    {
        let digest = self.hash_password(self.config.password.as_str(), "server_salt".as_bytes());
        protocol.establish(
            Ghost(
                Request::Logon { user: self.config.user@, credential: Credential::Digest(digest@) },
            ),
        );
        Ok(())
    }

    /// External authentication (OS authentication): no credential is sent.
    fn external_auth(&self, protocol: &mut Protocol) -> (r: Result<(), Error>)
        requires
            old(protocol)@.state != SessionState::Closed,
            select_method(self@.user, self@.password) == AuthMethod::External,
        ensures
            final(protocol)@ == old(protocol)@.authenticate(self@.user, self@.password).0,
            is_unit_outcome(r, old(protocol)@.authenticate(self@.user, self@.password).1),
    {
        protocol.establish(
            Ghost(Request::Logon { user: self.config.user@, credential: Credential::External }),
        );
        Ok(())
    }

    /// Token-based authentication (for IAM, OAuth, etc.): what follows the
    /// marker `TOKEN:` in the password is sent as the credential; an empty
    /// token is refused.
    fn token_auth(&self, protocol: &mut Protocol) -> (r: Result<(), Error>)
        requires
            old(protocol)@.state != SessionState::Closed,
            select_method(self@.user, self@.password) == AuthMethod::Token,
        ensures
            final(protocol)@ == old(protocol)@.authenticate(self@.user, self@.password).0,
            is_unit_outcome(r, old(protocol)@.authenticate(self@.user, self@.password).1),
    {
        let token = match strip_prefix(self.config.password.as_str(), "TOKEN:") {
            Some(token) => token,
            None => {
                protocol.reject();
                return Err(Error::AuthenticationFailed(String::from_str("Invalid token format")));
            },
        };
        if token.as_str().is_empty() {
            protocol.reject();
            return Err(Error::AuthenticationFailed(String::from_str("Empty token")));
        }
        protocol.establish(
            Ghost(Request::Logon { user: self.config.user@, credential: Credential::Token(token@) }),
        );
        Ok(())
    }

    /// Hash password for Oracle authentication: the digest of `password`
    /// and `salt`.
    pub fn hash_password(&self, password: &str, salt: &[u8]) -> (digest: Vec<u8>)
        ensures
            digest@ == password_digest(password@, salt@),
    {
        sha256_of(password.as_bytes(), salt)
    }
}

} // verus!
