//! The connection engine: a state machine that is told what happened on
//! the wire and answers with what to do next.
//!
//! A connection moves through its phases in one direction only:
//! accepted, methods read, method chosen, credentials checked, request
//! read, name resolved, connected, relaying, closed. The engine never
//! touches a socket. It asks for exactly one operation at a time, and the
//! embedder reports how that operation ended.

use vstd::prelude::*;
use std::sync::Arc;
use crate::address::SocketAddress;
use crate::address::TargetAddr;
use crate::address::TargetAddrView;
use crate::config::Config;
use crate::config::ConfigView;
use crate::error::IoErrorKind;
use crate::error::ReplyError;
use crate::error::SocksError;
use crate::error::SocksErrorView;
use crate::handshake::chosen_method;
use crate::handshake::credentials_status;
use crate::handshake::method_reply;
use crate::handshake::methods_status;
use crate::handshake::auth_reply;
use crate::handshake::auth_reply_bytes;
use crate::handshake::can_accept_method;
use crate::handshake::get_methods;
use crate::handshake::read_credentials;
use crate::handshake::select_method;
use crate::request::classify_connect;
use crate::request::read_command;
use crate::request::reply;
use crate::wire::Progress;
use crate::request::connect_failure;
use crate::request::reply_wire;
use crate::request::request_status;
use crate::request::ConnectOutcome;
use crate::wire::Status;

verus! {

/// The authentication that was negotiated with the client.
#[derive(Clone, Debug, PartialEq, Eq)]
pub enum AuthenticationMethod {
    /// No authentication.
    NoAuth,
    /// Username and password, as the client sent them.
    Password { username: String, password: String },
    /// The client offered no method that the server requires.
    Unacceptable,
}

/// Mathematical model of an [`AuthenticationMethod`].
pub enum AuthenticationView {
    NoAuth,
    Password { username: Seq<char>, password: Seq<char> },
    Unacceptable,
}

impl View for AuthenticationMethod {
    type V = AuthenticationView;

    open spec fn view(&self) -> AuthenticationView {
        match self {
            AuthenticationMethod::NoAuth => AuthenticationView::NoAuth,
            AuthenticationMethod::Password { username, password } => AuthenticationView::Password {
                username: username@,
                password: password@,
            },
            AuthenticationMethod::Unacceptable => AuthenticationView::Unacceptable,
        }
    }
}

/// Where a connection stands, by the operation it is waiting for.
#[derive(Clone, Copy, Debug, PartialEq, Eq, Structural)]
pub enum Phase {
    /// Nothing has happened yet.
    Accepted,
    /// Reading the method request.
    Methods,
    /// Writing the method selection.
    MethodReply,
    /// Writing the refusal of all offered methods.
    MethodRefusal,
    /// Reading the username and password.
    Credentials,
    /// Writing the acceptance of the credentials.
    AuthReply,
    /// Writing the rejection of the credentials.
    AuthRefusal,
    /// Reading the request.
    Request,
    /// Waiting for the target's name to be resolved.
    Resolving,
    /// Waiting for the outbound connection.
    Connecting,
    /// Writing the reply to a request that succeeded.
    SuccessReply,
    /// Writing the reply to a request that failed.
    FailureReply,
    /// Waiting for the relay to end.
    Relaying,
    /// The connection has ended.
    Closed,
}

impl Phase {
    /// How far a phase lies along a connection's way.
    pub open spec fn rank(self) -> nat {
        match self {
            Phase::Accepted => 0,
            Phase::Methods => 1,
            Phase::MethodReply => 2,
            Phase::MethodRefusal => 2,
            Phase::Credentials => 3,
            Phase::AuthReply => 4,
            Phase::AuthRefusal => 4,
            Phase::Request => 5,
            Phase::Resolving => 6,
            Phase::Connecting => 7,
            Phase::SuccessReply => 8,
            Phase::FailureReply => 8,
            Phase::Relaying => 9,
            Phase::Closed => 10,
        }
    }
}

/// How the operation that the engine asked for ended.
#[derive(Clone, Debug, PartialEq, Eq)]
pub enum Event {
    /// The connection was accepted.
    Accepted,
    /// The bytes asked for were read, all of them.
    Bytes(Vec<u8>),
    /// The bytes handed over were written and flushed.
    Written,
    /// The name was resolved to the IP address of this answer, or could not
    /// be resolved. The port of the answer is not used.
    Resolved(Option<SocketAddress>),
    /// The attempt to connect to the target ended.
    Connected(ConnectOutcome),
    /// The relay ended, in whichever way.
    RelayFinished,
    /// The operation failed.
    Failed(IoErrorKind),
}

/// Mathematical model of an [`Event`].
pub enum EventView {
    Accepted,
    Bytes(Seq<u8>),
    Written,
    Resolved(Option<SocketAddress>),
    Connected(ConnectOutcome),
    RelayFinished,
    Failed(IoErrorKind),
}

impl View for Event {
    type V = EventView;

    open spec fn view(&self) -> EventView {
        match self {
            Event::Accepted => EventView::Accepted,
            Event::Bytes(bytes) => EventView::Bytes(bytes@),
            Event::Written => EventView::Written,
            Event::Resolved(addr) => EventView::Resolved(*addr),
            Event::Connected(outcome) => EventView::Connected(*outcome),
            Event::RelayFinished => EventView::RelayFinished,
            Event::Failed(kind) => EventView::Failed(*kind),
        }
    }
}

/// What the embedder is to do next.
#[derive(Clone, Debug, PartialEq, Eq)]
pub enum Action {
    /// Read exactly this many bytes from the client.
    Read(usize),
    /// Write these bytes to the client and flush.
    Write(Vec<u8>),
    /// Resolve this domain name, for this port.
    Resolve(String, u16),
    /// Connect to this target within this many seconds.
    Connect(TargetAddr, u64),
    /// Copy bytes between the client and the target until either side ends.
    Relay,
    /// The connection is done; it is handed back to its owner.
    Finish,
    /// The connection has failed with this error.
    Abort(SocksError),
}

/// Mathematical model of an [`Action`].
pub enum ActionView {
    Read(nat),
    Write(Seq<u8>),
    Resolve(Seq<char>, u16),
    Connect(TargetAddrView, u64),
    Relay,
    Finish,
    Abort(SocksErrorView),
}

impl View for Action {
    type V = ActionView;

    open spec fn view(&self) -> ActionView {
        match self {
            Action::Read(n) => ActionView::Read(*n as nat),
            Action::Write(bytes) => ActionView::Write(bytes@),
            Action::Resolve(name, port) => ActionView::Resolve(name@, *port),
            Action::Connect(target, timeout) => ActionView::Connect(target@, *timeout),
            Action::Relay => ActionView::Relay,
            Action::Finish => ActionView::Finish,
            Action::Abort(error) => ActionView::Abort(error@),
        }
    }
}

/// Mathematical model of a [`Socks5Socket`].
pub struct SocketView {
    /// The server's settings.
    pub config: ConfigView,
    /// The authentication negotiated so far.
    pub auth: AuthenticationView,
    /// The target of the request, once it has been read.
    pub target_addr: Option<TargetAddrView>,
    /// The operation that the connection is waiting for.
    pub phase: Phase,
    /// The bytes read so far of the message that is being read.
    pub buffer: Seq<u8>,
    /// The number of bytes that the pending read was asked for.
    pub awaited: nat,
    /// The error that the connection ends with, once it is known.
    pub failure: Option<SocksErrorView>,
}

impl SocketView {
    /// A connection that has just been accepted.
    pub open spec fn accepted(config: ConfigView) -> SocketView {
        SocketView {
            config,
            auth: AuthenticationView::NoAuth,
            target_addr: None,
            phase: Phase::Accepted,
            buffer: Seq::empty(),
            awaited: 0,
            failure: None,
        }
    }

    /// The connection starts to read a message of which the first field
    /// has `n` bytes.
    pub open spec fn expect(self, phase: Phase, n: nat) -> (SocketView, ActionView) {
        (SocketView { phase, buffer: Seq::empty(), awaited: n, ..self }, ActionView::Read(n))
    }

    /// The connection goes on reading the message: the next field has `n`
    /// bytes.
    pub open spec fn read_on(self, n: nat) -> (SocketView, ActionView) {
        (SocketView { awaited: n, ..self }, ActionView::Read(n))
    }

    /// The connection ends with `error`, and nothing more is written.
    pub open spec fn fail(self, error: SocksErrorView) -> (SocketView, ActionView) {
        (
            SocketView { phase: Phase::Closed, failure: Some(error), ..self },
            ActionView::Abort(error),
        )
    }

    /// The connection writes `bytes` and will then end with `error`.
    pub open spec fn refuse(self, phase: Phase, error: SocksErrorView, bytes: Seq<u8>) -> (
        SocketView,
        ActionView,
    ) {
        (SocketView { phase, failure: Some(error), ..self }, ActionView::Write(bytes))
    }

    /// The connection answers the request with the failure `kind`.
    pub open spec fn reply_failure(self, kind: ReplyError) -> (SocketView, ActionView) {
        self.refuse(Phase::FailureReply, SocksErrorView::ReplyError(kind), reply_wire(kind.code()))
    }

    /// The connection ends after its refusal was written: with the error
    /// that was kept for that moment.
    pub open spec fn end(self) -> (SocketView, ActionView) {
        (
            SocketView { phase: Phase::Closed, ..self },
            match self.failure {
                Some(error) => ActionView::Abort(error),
                None => ActionView::Finish,
            },
        )
    }

    /// The connection is done without an error.
    pub open spec fn finish(self) -> (SocketView, ActionView) {
        (SocketView { phase: Phase::Closed, failure: None, ..self }, ActionView::Finish)
    }

    /// The embedder reported an outcome that the connection was not waiting
    /// for.
    pub open spec fn misuse(self) -> (SocketView, ActionView) {
        self.fail(SocksErrorView::Io(IoErrorKind::InvalidInput))
    }

    /// The request has been read and, where that was due, resolved: the
    /// connection connects to the target, or is handed back where the
    /// server does not execute commands.
    pub open spec fn execute(self) -> (SocketView, ActionView) {
        if self.config.execute_command && self.target_addr is Some {
            (
                SocketView { phase: Phase::Connecting, ..self },
                ActionView::Connect(self.target_addr->0, self.config.request_timeout),
            )
        } else {
            self.finish()
        }
    }

    /// The method request is complete with the methods `offered`.
    pub open spec fn choose_method(self, offered: Seq<u8>) -> (SocketView, ActionView) {
        let has_auth = self.config.auth is Some;
        if chosen_method(has_auth, offered) == 0xff {
            SocketView { auth: AuthenticationView::Unacceptable, buffer: Seq::empty(), ..self }.refuse(
                Phase::MethodRefusal,
                SocksErrorView::AuthMethodUnacceptable(offered),
                method_reply(has_auth, offered),
            )
        } else {
            (
                SocketView { phase: Phase::MethodReply, buffer: Seq::empty(), ..self },
                ActionView::Write(method_reply(has_auth, offered)),
            )
        }
    }

    /// The username/password message is complete with these credentials.
    /// Where no authenticator is configured, nobody is accepted.
    pub open spec fn check_credentials(self, username: Seq<char>, password: Seq<char>) -> (
        SocketView,
        ActionView,
    ) {
        if self.config.verdict(username, password) == Some(true) {
            (
                SocketView {
                    phase: Phase::AuthReply,
                    auth: AuthenticationView::Password { username, password },
                    buffer: Seq::empty(),
                    ..self
                },
                ActionView::Write(auth_reply(true)),
            )
        } else {
            SocketView { buffer: Seq::empty(), ..self }.refuse(
                Phase::AuthRefusal,
                SocksErrorView::AuthenticationRejected(username),
                auth_reply(false),
            )
        }
    }

    /// The request is complete with the target `target`.
    pub open spec fn accept_request(self, target: TargetAddrView) -> (SocketView, ActionView) {
        let next = SocketView { target_addr: Some(target), buffer: Seq::empty(), ..self };
        match target {
            TargetAddrView::Domain(name, port) if self.config.dns_resolve => (
                SocketView { phase: Phase::Resolving, ..next },
                ActionView::Resolve(name, port),
            ),
            _ => next.execute(),
        }
    }

    /// A failure that was found while a message was being read: one with a
    /// reply code is answered, any other ends the connection.
    pub open spec fn reject(self, error: SocksErrorView) -> (SocketView, ActionView) {
        match error {
            SocksErrorView::ReplyError(kind) => self.reply_failure(kind),
            _ => self.fail(error),
        }
    }

    /// The bytes `bytes` were read. They are taken only if they are as
    /// many as were asked for, and join the message that is being read.
    pub open spec fn take_bytes(self, bytes: Seq<u8>) -> (SocketView, ActionView) {
        let filled = SocketView { buffer: self.buffer + bytes, ..self };
        if bytes.len() != self.awaited {
            self.misuse()
        } else {
            match self.phase {
                Phase::Methods => match methods_status(filled.buffer) {
                    Status::Need(n) => filled.read_on(n),
                    Status::Complete(offered) => filled.choose_method(offered),
                    Status::Fail(error) => filled.reject(error),
                },
                Phase::Credentials => match credentials_status(filled.buffer) {
                    Status::Need(n) => filled.read_on(n),
                    Status::Complete(pair) => filled.check_credentials(pair.0, pair.1),
                    Status::Fail(error) => filled.reject(error),
                },
                Phase::Request => match request_status(filled.buffer) {
                    Status::Need(n) => filled.read_on(n),
                    Status::Complete(target) => filled.accept_request(target),
                    Status::Fail(error) => filled.reject(error),
                },
                _ => self.misuse(),
            }
        }
    }

    /// The pending write was done.
    pub open spec fn written(self) -> (SocketView, ActionView) {
        match self.phase {
            Phase::MethodReply => if self.config.auth is Some {
                self.expect(Phase::Credentials, 2)
            } else {
                self.expect(Phase::Request, 4)
            },
            Phase::AuthReply => self.expect(Phase::Request, 4),
            Phase::SuccessReply => (SocketView { phase: Phase::Relaying, ..self }, ActionView::Relay),
            Phase::MethodRefusal | Phase::AuthRefusal | Phase::FailureReply => self.end(),
            _ => self.misuse(),
        }
    }

    /// The pending operation failed.
    ///
    /// A read or a write that fails ends the connection with the I/O
    /// error, and nothing is written: a message that was cut short is
    /// never answered. A resolution that fails is answered with
    /// `HostUnreachable`, a connection attempt that fails by the kind of
    /// its failure, and a relay that fails has simply ended.
    pub open spec fn failed(self, kind: IoErrorKind) -> (SocketView, ActionView) {
        match self.phase {
            Phase::Accepted => self.misuse(),
            Phase::Resolving => self.reply_failure(ReplyError::HostUnreachable),
            Phase::Connecting => self.connected(ConnectOutcome::Failed(kind)),
            Phase::Relaying => self.finish(),
            _ => self.fail(SocksErrorView::Io(kind)),
        }
    }

    /// The attempt to connect ended with `outcome`.
    pub open spec fn connected(self, outcome: ConnectOutcome) -> (SocketView, ActionView) {
        match connect_failure(outcome) {
            None => (
                SocketView { phase: Phase::SuccessReply, ..self },
                ActionView::Write(reply_wire(0x00)),
            ),
            Some(kind) => self.reply_failure(kind),
        }
    }

    /// The name was resolved to the address in `found`, or not at all.
    pub open spec fn resolved(self, found: Option<SocketAddress>) -> (SocketView, ActionView) {
        match found {
            Some(addr) => self.with_resolved(addr).execute(),
            None => self.reply_failure(ReplyError::HostUnreachable),
        }
    }

    /// The connection with its target resolved, where the target is a
    /// domain name: the new target is the IP address of `found` with the
    /// port that the request named. The port of `found` plays no part. A
    /// target that is no domain name stays as it is.
    pub open spec fn with_resolved(self, found: SocketAddress) -> SocketView {
        match self.target_addr {
            Some(TargetAddrView::Domain(_, port)) => SocketView {
                target_addr: Some(TargetAddr::Ip(SocketAddress { ip: found.ip, port })@),
                ..self
            },
            _ => self,
        }
    }

    /// The error of a lookup made on the embedder's own account: a domain
    /// name that could not be resolved is a host that cannot be reached.
    pub open spec fn lookup_failure(self, found: Option<SocketAddress>) -> Option<SocksErrorView> {
        if self.target_addr matches Some(TargetAddrView::Domain(_, _)) && found is None {
            Some(SocksErrorView::ReplyError(ReplyError::HostUnreachable))
        } else {
            None
        }
    }

    /// The connection after a lookup made on the embedder's own account.
    pub open spec fn after_lookup(self, found: Option<SocketAddress>) -> SocketView {
        match found {
            Some(addr) => self.with_resolved(addr),
            None => self,
        }
    }

    /// The state that follows `self` on `event`, and the action that the
    /// engine answers with.
    pub open spec fn next(self, event: EventView) -> (SocketView, ActionView) {
        if self.phase == Phase::Closed {
            (self, self.end().1)
        } else {
            match event {
                EventView::Accepted => if self.phase != Phase::Accepted {
                    self.misuse()
                } else if self.config.skip_auth {
                    self.expect(Phase::Request, 4)
                } else {
                    self.expect(Phase::Methods, 2)
                },
                EventView::Bytes(bytes) => self.take_bytes(bytes),
                EventView::Written => self.written(),
                EventView::Resolved(addr) => if self.phase == Phase::Resolving {
                    self.resolved(addr)
                } else {
                    self.misuse()
                },
                EventView::Connected(outcome) => if self.phase == Phase::Connecting {
                    self.connected(outcome)
                } else {
                    self.misuse()
                },
                EventView::RelayFinished => if self.phase == Phase::Relaying {
                    self.finish()
                } else {
                    self.misuse()
                },
                EventView::Failed(kind) => self.failed(kind),
            }
        }
    }
}

/// One connection of a SOCKS5 server, without its socket.
pub struct Socks5Socket {
    config: Arc<Config>,
    auth: AuthenticationMethod,
    target_addr: Option<TargetAddr>,
    phase: Phase,
    buffer: Vec<u8>,
    awaited: usize,
    failure: Option<SocksError>,
}

impl View for Socks5Socket {
    type V = SocketView;

    closed spec fn view(&self) -> SocketView {
        SocketView {
            config: self.config@,
            auth: self.auth@,
            target_addr: match self.target_addr {
                Some(target) => Some(target@),
                None => None,
            },
            phase: self.phase,
            buffer: self.buffer@,
            awaited: self.awaited as nat,
            failure: match self.failure {
                Some(error) => Some(error@),
                None => None,
            },
        }
    }
}

impl Socks5Socket {
    /// A connection that has just been accepted by a server with the
    /// settings `config`.
    pub fn new(config: Arc<Config>) -> (socket: Socks5Socket)
        ensures
            socket@ == SocketView::accepted(config@),
    {
        Socks5Socket {
            config,
            auth: AuthenticationMethod::NoAuth,
            target_addr: None,
            phase: Phase::Accepted,
            buffer: Vec::new(),
            awaited: 0,
            failure: None,
        }
    }

    /// The target of the request, once it has been read.
    pub fn target_addr(&self) -> (target: Option<&TargetAddr>)
        ensures
            match target {
                Some(addr) => self@.target_addr == Some(addr@),
                None => self@.target_addr is None,
            },
    {
        self.target_addr.as_ref()
    }

    /// The authentication that was negotiated.
    pub fn auth(&self) -> (method: &AuthenticationMethod)
        ensures
            method@ == self@.auth,
    {
        &self.auth
    }

    /// The operation that the connection is waiting for.
    pub fn phase(&self) -> (phase: Phase)
        ensures
            phase == self@.phase,
    {
        self.phase
    }

    /// The domain name and port of the target, where the target is a
    /// domain name that has not been resolved.
    pub fn unresolved(&self) -> (domain: Option<(String, u16)>)
        ensures
            match domain {
                Some(pair) => self@.target_addr == Some(TargetAddrView::Domain(pair.0@, pair.1)),
                None => !(self@.target_addr matches Some(TargetAddrView::Domain(_, _))),
            },
    {
        match &self.target_addr {
            Some(TargetAddr::Domain(name, port)) => Some((name.clone(), *port)),
            _ => None,
        }
    }

    /// Takes the outcome of a lookup of the target's name: `found` is the
    /// address that the resolver gave, or `None` where it gave none.
    ///
    /// A target that is a domain name becomes the IP address that was
    /// found, with the port of the request. Where nothing was found the
    /// target stays and the error is `HostUnreachable`. A target that is
    /// an address already, or no target at all, stays as it is.
    pub fn resolve_dns(&mut self, found: Option<SocketAddress>) -> (result: Result<(), SocksError>)
        ensures
            final(self)@ == old(self)@.after_lookup(found),
            match result {
                Ok(_) => old(self)@.lookup_failure(found) is None,
                Err(error) => old(self)@.lookup_failure(found) == Some(error@),
            },
    {
        match found {
            Some(addr) => {
                self.set_resolved(addr);
                Ok(())
            },
            None => match &self.target_addr {
                Some(TargetAddr::Domain(_, _)) => Err(
                    SocksError::ReplyError(ReplyError::HostUnreachable),
                ),
                _ => Ok(()),
            },
        }
    }

    fn set_resolved(&mut self, found: SocketAddress)
        ensures
            final(self)@ == old(self)@.with_resolved(found),
    {
        let port = match &self.target_addr {
            Some(TargetAddr::Domain(_, port)) => Some(*port),
            _ => None,
        };
        match port {
            Some(port) => {
                self.target_addr = Some(TargetAddr::Ip(SocketAddress { ip: found.ip, port }));
            },
            None => {},
        }
    }

    fn expect(&mut self, phase: Phase, n: usize) -> (action: Action)
        ensures
            (final(self)@, action@) == old(self)@.expect(phase, n as nat),
    {
        self.phase = phase;
        self.buffer = Vec::new();
        self.awaited = n;
        Action::Read(n)
    }

    fn read_on(&mut self, n: usize) -> (action: Action)
        ensures
            (final(self)@, action@) == old(self)@.read_on(n as nat),
    {
        self.awaited = n;
        Action::Read(n)
    }

    fn fail(&mut self, error: SocksError) -> (action: Action)
        ensures
            (final(self)@, action@) == old(self)@.fail(error@),
    {
        let copy = error.duplicate();
        self.phase = Phase::Closed;
        self.failure = Some(error);
        Action::Abort(copy)
    }

    fn refuse(&mut self, phase: Phase, error: SocksError, bytes: Vec<u8>) -> (action: Action)
        ensures
            (final(self)@, action@) == old(self)@.refuse(phase, error@, bytes@),
    {
        self.phase = phase;
        self.failure = Some(error);
        Action::Write(bytes)
    }

    fn reply_failure(&mut self, kind: ReplyError) -> (action: Action)
        ensures
            (final(self)@, action@) == old(self)@.reply_failure(kind),
    {
        let bytes = reply(kind.as_u8());
        self.refuse(Phase::FailureReply, SocksError::ReplyError(kind), bytes)
    }

    fn last_action(&self) -> (action: Action)
        ensures
            action@ == self@.end().1,
    {
        match &self.failure {
            Some(error) => Action::Abort(error.duplicate()),
            None => Action::Finish,
        }
    }

    fn end(&mut self) -> (action: Action)
        ensures
            (final(self)@, action@) == old(self)@.end(),
    {
        self.phase = Phase::Closed;
        self.last_action()
    }

    fn finish(&mut self) -> (action: Action)
        ensures
            (final(self)@, action@) == old(self)@.finish(),
    {
        self.phase = Phase::Closed;
        self.failure = None;
        Action::Finish
    }

    fn misuse(&mut self) -> (action: Action)
        ensures
            (final(self)@, action@) == old(self)@.misuse(),
    {
        self.fail(SocksError::Io(IoErrorKind::InvalidInput))
    }

    fn execute(&mut self) -> (action: Action)
        ensures
            (final(self)@, action@) == old(self)@.execute(),
    {
        if !self.config.execute_command() {
            return self.finish();
        }
        let timeout = self.config.request_timeout();
        let target = match &self.target_addr {
            Some(target) => target.duplicate(),
            None => {
                return self.finish();
            },
        };
        self.phase = Phase::Connecting;
        Action::Connect(target, timeout)
    }

    fn choose_method(&mut self, offered: Vec<u8>) -> (action: Action)
        ensures
            (final(self)@, action@) == old(self)@.choose_method(offered@),
    {
        let has_auth = self.config.has_authentication();
        let bytes = select_method(has_auth, offered.as_slice());
        self.buffer = Vec::new();
        if can_accept_method(has_auth, offered.as_slice()) {
            self.phase = Phase::MethodReply;
            Action::Write(bytes)
        } else {
            self.auth = AuthenticationMethod::Unacceptable;
            self.refuse(Phase::MethodRefusal, SocksError::AuthMethodUnacceptable(offered), bytes)
        }
    }

    fn check_credentials(&mut self, username: String, password: String) -> (action: Action)
        ensures
            (final(self)@, action@) == old(self)@.check_credentials(username@, password@),
    {
        let verdict = self.config.authenticate(username.as_str(), password.as_str());
        self.buffer = Vec::new();
        match verdict {
            Some(true) => {
                self.phase = Phase::AuthReply;
                self.auth = AuthenticationMethod::Password { username, password };
                Action::Write(auth_reply_bytes(true))
            },
            _ => self.refuse(
                Phase::AuthRefusal,
                SocksError::AuthenticationRejected(username),
                auth_reply_bytes(false),
            ),
        }
    }

    fn accept_request(&mut self, target: TargetAddr) -> (action: Action)
        ensures
            (final(self)@, action@) == old(self)@.accept_request(target@),
    {
        self.buffer = Vec::new();
        let resolve = self.config.dns_resolve();
        match target {
            TargetAddr::Domain(name, port) if resolve => {
                let asked = name.clone();
                self.target_addr = Some(TargetAddr::Domain(name, port));
                self.phase = Phase::Resolving;
                Action::Resolve(asked, port)
            },
            other => {
                self.target_addr = Some(other);
                self.execute()
            },
        }
    }

    fn reject(&mut self, error: SocksError) -> (action: Action)
        ensures
            (final(self)@, action@) == old(self)@.reject(error@),
    {
        match error {
            SocksError::ReplyError(kind) => self.reply_failure(kind),
            other => self.fail(other),
        }
    }

    fn fill(&mut self, bytes: Vec<u8>)
        ensures
            final(self)@ == (SocketView { buffer: old(self)@.buffer + bytes@, ..old(self)@ }),
    {
        self.buffer.extend_from_slice(bytes.as_slice());
        assert(self.buffer@ =~= old(self).buffer@ + bytes@);
    }

    fn take_methods(&mut self, bytes: Vec<u8>) -> (action: Action)
        requires
            old(self)@.phase == Phase::Methods,
            bytes@.len() == old(self)@.awaited,
        ensures
            (final(self)@, action@) == old(self)@.take_bytes(bytes@),
    {
        self.fill(bytes);
        match get_methods(self.buffer.as_slice()) {
            Progress::Need(n) => self.read_on(n),
            Progress::Complete(offered) => self.choose_method(offered),
            Progress::Fail(error) => self.reject(error),
        }
    }

    fn take_credentials(&mut self, bytes: Vec<u8>) -> (action: Action)
        requires
            old(self)@.phase == Phase::Credentials,
            bytes@.len() == old(self)@.awaited,
        ensures
            (final(self)@, action@) == old(self)@.take_bytes(bytes@),
    {
        self.fill(bytes);
        match read_credentials(self.buffer.as_slice()) {
            Progress::Need(n) => self.read_on(n),
            Progress::Complete(pair) => self.check_credentials(pair.0, pair.1),
            Progress::Fail(error) => self.reject(error),
        }
    }

    fn take_request(&mut self, bytes: Vec<u8>) -> (action: Action)
        requires
            old(self)@.phase == Phase::Request,
            bytes@.len() == old(self)@.awaited,
        ensures
            (final(self)@, action@) == old(self)@.take_bytes(bytes@),
    {
        self.fill(bytes);
        match read_command(self.buffer.as_slice()) {
            Progress::Need(n) => self.read_on(n),
            Progress::Complete(target) => self.accept_request(target),
            Progress::Fail(error) => self.reject(error),
        }
    }

    fn take_bytes(&mut self, bytes: Vec<u8>) -> (action: Action)
        ensures
            (final(self)@, action@) == old(self)@.take_bytes(bytes@),
    {
        if bytes.len() != self.awaited {
            return self.misuse();
        }
        match self.phase {
            Phase::Methods => self.take_methods(bytes),
            Phase::Credentials => self.take_credentials(bytes),
            Phase::Request => self.take_request(bytes),
            _ => self.misuse(),
        }
    }

    fn written(&mut self) -> (action: Action)
        ensures
            (final(self)@, action@) == old(self)@.written(),
    {
        match self.phase {
            Phase::MethodReply => if self.config.has_authentication() {
                self.expect(Phase::Credentials, 2)
            } else {
                self.expect(Phase::Request, 4)
            },
            Phase::AuthReply => self.expect(Phase::Request, 4),
            Phase::SuccessReply => {
                self.phase = Phase::Relaying;
                Action::Relay
            },
            Phase::MethodRefusal | Phase::AuthRefusal | Phase::FailureReply => self.end(),
            _ => self.misuse(),
        }
    }

    fn connected(&mut self, outcome: ConnectOutcome) -> (action: Action)
        ensures
            (final(self)@, action@) == old(self)@.connected(outcome),
    {
        match classify_connect(outcome) {
            Ok(_) => {
                self.phase = Phase::SuccessReply;
                Action::Write(reply(0x00))
            },
            Err(kind) => self.reply_failure(kind),
        }
    }

    fn resolved(&mut self, found: Option<SocketAddress>) -> (action: Action)
        ensures
            (final(self)@, action@) == old(self)@.resolved(found),
    {
        match found {
            Some(addr) => {
                self.set_resolved(addr);
                self.execute()
            },
            None => self.reply_failure(ReplyError::HostUnreachable),
        }
    }

    fn failed(&mut self, kind: IoErrorKind) -> (action: Action)
        ensures
            (final(self)@, action@) == old(self)@.failed(kind),
    {
        match self.phase {
            Phase::Accepted => self.misuse(),
            Phase::Resolving => self.reply_failure(ReplyError::HostUnreachable),
            Phase::Connecting => self.connected(ConnectOutcome::Failed(kind)),
            Phase::Relaying => self.finish(),
            _ => self.fail(SocksError::Io(kind)),
        }
    }

    /// Tells the connection how the operation it asked for ended, and
    /// returns the operation it asks for next.
    ///
    /// The first event of a connection is [`Event::Accepted`]. An event
    /// that the connection was not waiting for ends it with an I/O error
    /// of the kind `InvalidInput`. A connection that has ended stays as it
    /// is and repeats how it ended.
    pub fn advance(&mut self, event: Event) -> (action: Action)
        ensures
            (final(self)@, action@) == old(self)@.next(event@),
    {
        if self.phase == Phase::Closed {
            return self.last_action();
        }
        match event {
            Event::Accepted => if self.phase != Phase::Accepted {
                self.misuse()
            } else if self.config.skip_auth() {
                self.expect(Phase::Request, 4)
            } else {
                self.expect(Phase::Methods, 2)
            },
            Event::Bytes(bytes) => self.take_bytes(bytes),
            Event::Written => self.written(),
            Event::Resolved(addr) => if self.phase == Phase::Resolving {
                self.resolved(addr)
            } else {
                self.misuse()
            },
            Event::Connected(outcome) => if self.phase == Phase::Connecting {
                self.connected(outcome)
            } else {
                self.misuse()
            },
            Event::RelayFinished => if self.phase == Phase::Relaying {
                self.finish()
            } else {
                self.misuse()
            },
            Event::Failed(kind) => self.failed(kind),
        }
    }
}

} // verus!
