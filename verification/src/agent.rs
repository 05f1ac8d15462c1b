//! The agent's side: its configuration and the decisions of its dial loop,
//! which maintains one persistent outbound connection to the broker and
//! runs one negotiation session per successful connection.

use vstd::prelude::*;

verus! {

/// How long the agent sleeps after a failed dial before retrying, in
/// milliseconds. Fixed: no backoff growth, no jitter, no retry ceiling.
pub const RETRY_INTERVAL_MILLIS: u64 = 1000;

/// A username/password credential pair. Held for the username/password
/// method, which is negotiated but never exercised here.
#[derive(Clone, Debug, PartialEq)]
pub struct User {
    pub username: String,
    password: String,
}

impl User {
    /// A credential pair.
    pub fn new(username: String, password: String) -> (r: User)
        ensures
            r.spec_username() == username@,
            r.spec_password() == password@,
    {
        User { username, password }
    }

    /// The username.
    pub closed spec fn spec_username(&self) -> Seq<char> {
        self.username@
    }

    /// The password.
    pub closed spec fn spec_password(&self) -> Seq<char> {
        self.password@
    }
}

/// The mathematical model of the agent's configuration.
pub struct ClientModel {
    pub ip: Seq<char>,
    pub port: u16,
    pub auth_methods: Seq<u8>,
}

/// The agent's configuration: where the broker's backend endpoint is, and
/// which authentication methods this agent accepts from its users.
pub struct Client {
    ip: String,
    port: u16,
    auth_methods: Vec<u8>,
}

impl View for Client {
    type V = ClientModel;

    closed spec fn view(&self) -> ClientModel {
        ClientModel { ip: self.ip@, port: self.port, auth_methods: self.auth_methods@ }
    }
}

impl Client {
    /// A configuration aimed at the broker endpoint `ip:port` with the
    /// given accepted method set.
    pub fn new(port: u16, ip: &str, auth_methods: Vec<u8>) -> (r: Result<Client, ()>)
        ensures
            r matches Ok(c) && c@ == (ClientModel {
                ip: ip@,
                port: port,
                auth_methods: auth_methods@,
            }),
    {
        Ok(Client { ip: ip.to_string(), port, auth_methods })
    }

    /// The broker endpoint's host.
    pub fn ip(&self) -> (r: &String)
        ensures
            r@ == self@.ip,
    {
        &self.ip
    }

    /// The broker endpoint's port.
    pub fn port(&self) -> (r: u16)
        ensures
            r == self@.port,
    {
        self.port
    }

    /// The accepted authentication method set.
    pub fn auth_methods(&self) -> (r: &Vec<u8>)
        ensures
            r@ == self@.auth_methods,
    {
        &self.auth_methods
    }
}

/// What one turn of the dial loop observed.
#[derive(Clone, Copy, Debug, PartialEq, Eq, Structural)]
pub enum DialEvent {
    /// The outbound connection to the broker was established.
    Connected,
    /// The dial failed.
    ConnectFailed,
}

/// What the dial loop does next.
#[derive(Clone, Copy, Debug, PartialEq, Eq, Structural)]
pub enum DialAction {
    /// Write the preflight magic, then run one negotiation session on the
    /// connection to completion, blocking.
    RunSession,
    /// Sleep this many milliseconds, then dial again.
    RetryAfterMillis(u64),
}

/// The dial loop's decision for one turn: a live connection carries a
/// session, a failed dial is retried after the fixed interval. The loop
/// itself is unbounded; no outcome ends it.
pub fn dial_step(event: &DialEvent) -> (r: DialAction)
    ensures
        event == DialEvent::Connected ==> r == DialAction::RunSession,
        event == DialEvent::ConnectFailed ==> r == DialAction::RetryAfterMillis(
            RETRY_INTERVAL_MILLIS,
        ),
{
    match event {
        DialEvent::Connected => DialAction::RunSession,
        DialEvent::ConnectFailed => DialAction::RetryAfterMillis(RETRY_INTERVAL_MILLIS),
    }
}

} // verus!
