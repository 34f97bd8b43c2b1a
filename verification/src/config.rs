//! What a server is configured with.

use vstd::prelude::*;
use std::sync::Arc;
use crate::auth::Authentication;

verus! {

/// The settings shared by all connections of a server.
#[derive(Clone)]
pub struct Config {
    /// Seconds to wait for the outbound connection.
    request_timeout: u64,
    /// Skip method negotiation and wait for the request at once.
    skip_auth: bool,
    /// Resolve domain names before connecting.
    dns_resolve: bool,
    /// Connect to the target and relay; otherwise stop after the request.
    execute_command: bool,
    auth: Option<Arc<dyn Authentication>>,
}

/// Mathematical model of a [`Config`].
pub struct ConfigView {
    pub request_timeout: u64,
    pub skip_auth: bool,
    pub dns_resolve: bool,
    pub execute_command: bool,
    pub auth: Option<Arc<dyn Authentication>>,
}

impl View for Config {
    type V = ConfigView;

    closed spec fn view(&self) -> ConfigView {
        ConfigView {
            request_timeout: self.request_timeout,
            skip_auth: self.skip_auth,
            dns_resolve: self.dns_resolve,
            execute_command: self.execute_command,
            auth: self.auth,
        }
    }
}

impl ConfigView {
    /// The settings of a server that was configured with nothing.
    pub open spec fn initial() -> ConfigView {
        ConfigView {
            request_timeout: 10,
            skip_auth: false,
            dns_resolve: true,
            execute_command: true,
            auth: None,
        }
    }
}

impl Default for Config {
    fn default() -> (config: Config)
        ensures
            config@ == ConfigView::initial(),
    {
        Config {
            request_timeout: 10,
            skip_auth: false,
            dns_resolve: true,
            execute_command: true,
            auth: None,
        }
    }
}

impl Config {
    /// Sets the seconds to wait for the outbound connection.
    pub fn set_request_timeout(&mut self, n: u64) -> (config: &mut Self)
        ensures
            config@ == (ConfigView { request_timeout: n, ..old(self)@ }),
            *final(self) == *final(config),
    {
        self.request_timeout = n;
        self
    }

    /// Sets whether method negotiation is skipped, so that the server waits
    /// for the request at once.
    pub fn set_skip_auth(&mut self, value: bool) -> (config: &mut Self)
        ensures
            config@ == (ConfigView { skip_auth: value, ..old(self)@ }),
            *final(self) == *final(config),
    {
        self.skip_auth = value;
        self
    }

    /// Enables authentication by username and password, decided by
    /// `authentication`.
    pub fn set_authentication(&mut self, authentication: Arc<dyn Authentication>) -> (config:
        &mut Self)
        ensures
            config@.same_settings(old(self)@),
            config@.auth == Some(authentication),
            *final(self) == *final(config),
    {
        let auth = Some(authentication);
        self.auth = auth;
        self
    }

    /// Sets whether the server connects to the target and relays.
    pub fn set_execute_command(&mut self, value: bool) -> (config: &mut Self)
        ensures
            config@ == (ConfigView { execute_command: value, ..old(self)@ }),
            *final(self) == *final(config),
    {
        self.execute_command = value;
        self
    }

    /// Sets whether the server resolves domain names.
    pub fn set_dns_resolve(&mut self, value: bool) -> (config: &mut Self)
        ensures
            config@ == (ConfigView { dns_resolve: value, ..old(self)@ }),
            *final(self) == *final(config),
    {
        self.dns_resolve = value;
        self
    }

    /// Seconds to wait for the outbound connection.
    pub fn request_timeout(&self) -> (n: u64)
        ensures
            n == self@.request_timeout,
    {
        self.request_timeout
    }

    /// Whether method negotiation is skipped.
    pub fn skip_auth(&self) -> (value: bool)
        ensures
            value == self@.skip_auth,
    {
        self.skip_auth
    }

    /// Whether the server resolves domain names.
    pub fn dns_resolve(&self) -> (value: bool)
        ensures
            value == self@.dns_resolve,
    {
        self.dns_resolve
    }

    /// Whether the server connects to the target and relays.
    pub fn execute_command(&self) -> (value: bool)
        ensures
            value == self@.execute_command,
    {
        self.execute_command
    }

    /// Whether an authenticator is configured.
    pub fn has_authentication(&self) -> (value: bool)
        ensures
            value == self@.auth is Some,
    {
        self.auth.is_some()
    }

    /// Asks the configured authenticator for its verdict on a username and
    /// a password; `None` where none is configured.
    pub fn authenticate(&self, username: &str, password: &str) -> (verdict: Option<bool>)
        ensures
            verdict == self@.verdict(username@, password@),
    {
        match &self.auth {
            Some(auth) => Some(auth.authenticate(username, password)),
            None => None,
        }
    }
}

impl ConfigView {
    /// Whether the two agree in everything but the authenticator.
    pub open spec fn same_settings(self, other: ConfigView) -> bool {
        &&& self.request_timeout == other.request_timeout
        &&& self.skip_auth == other.skip_auth
        &&& self.dns_resolve == other.dns_resolve
        &&& self.execute_command == other.execute_command
    }

    /// The configured authenticator's verdict on a username and a password.
    pub open spec fn verdict(self, username: Seq<char>, password: Seq<char>) -> Option<bool> {
        match self.auth {
            Some(auth) => Some(auth.accepts(username, password)),
            None => None,
        }
    }
}

} // verus!
