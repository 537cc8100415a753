use vstd::prelude::*;

use crate::text::{decimal, decimal_string};
use crate::types::SSHConfig;

verus! {

/// What a validity check of the persistent session asks of its caller.
pub enum SessionCheck {
    /// The session answered its probe and may be used.
    Ready,
    /// The session is lost: open a new one with this configuration and hand it to
    /// `finish_reconnect`.
    Reconnect(SSHConfig),
    /// There is no usable session.
    Failed(String),
}

/// The one persistent session of a process, with the configuration that opened it.
pub struct SSHConnectionManager<S> {
    session: Option<S>,
    config: Option<SSHConfig>,
    last_activity: u64,
}

/// The message that reports a new connection.
pub open spec fn connected_message(config: SSHConfig) -> Seq<char> {
    "Connected to "@ + config.username@ + "@"@ + config.host@ + ":"@ + decimal(config.port as nat)
}

impl<S> SSHConnectionManager<S> {
    pub closed spec fn session_view(&self) -> Option<S> {
        self.session
    }

    pub closed spec fn stored_config(&self) -> Option<SSHConfig> {
        self.config
    }

    pub closed spec fn activity(&self) -> u64 {
        self.last_activity
    }

    /// A session is held.
    pub open spec fn connected(&self) -> bool {
        self.session_view() is Some
    }

    /// The state of a manager that holds nothing.
    pub closed spec fn initial() -> Self {
        SSHConnectionManager { session: None, config: None, last_activity: 0 }
    }

    /// The state after a connection with `session`, opened from `config` at time `now`.
    pub closed spec fn connect_spec(self, session: S, config: SSHConfig, now: u64) -> Self {
        SSHConnectionManager { session: Some(session), config: Some(config), last_activity: now }
    }

    /// The state after a disconnection.
    pub closed spec fn disconnect_spec(self) -> Self {
        if self.session is Some {
            SSHConnectionManager { session: None, config: None, last_activity: self.last_activity }
        } else {
            self
        }
    }

    /// A manager with no connection.
    pub fn new() -> (r: Self)
        ensures
            r == Self::initial(),
            !r.connected(),
    {
        SSHConnectionManager { session: None, config: None, last_activity: 0 }
    }

    /// Whether a session is held.
    pub fn is_connected(&self) -> (r: bool)
        ensures
            r == self.connected(),
    {
        self.session.is_some()
    }

    /// Records activity on the session at time `now`.
    pub fn update_activity(&mut self, now: u64)
        ensures
            final(self).session_view() == old(self).session_view(),
            final(self).stored_config() == old(self).stored_config(),
            final(self).activity() == now,
    {
        self.last_activity = now;
    }

    /// The configuration of the held session.
    pub fn get_config(&self) -> (r: Option<SSHConfig>)
        ensures
            r == self.stored_config(),
    {
        match &self.config {
            Some(c) => Some(c.duplicate()),
            None => None,
        }
    }

    /// The time of the last recorded activity.
    pub fn last_activity(&self) -> (r: u64)
        ensures
            r == self.activity(),
    {
        self.last_activity
    }

    /// The held session.
    pub fn session(&self) -> (r: Option<&S>)
        ensures
            r is Some <==> self.connected(),
            r is Some ==> self.session_view() == Some(*r->Some_0),
    {
        self.session.as_ref()
    }

    /// Installs `session`, opened from `config` at time `now`, in place of whatever was
    /// held.
    pub fn connect_persistent(&mut self, session: S, config: &SSHConfig, now: u64) -> (r: String)
        ensures
            *final(self) == old(self).connect_spec(session, *config, now),
            r@ == connected_message(*config),
    {
        self.session = Some(session);
        self.config = Some(config.duplicate());
        self.update_activity(now);
        let mut m = String::from_str("Connected to ");
        m.append(config.username.as_str());
        m.append("@");
        m.append(config.host.as_str());
        m.append(":");
        let p = decimal_string(config.port as u64);
        m.append(p.as_str());
        m
    }

    /// Drops the held session and its configuration; fails when nothing is held.
    pub fn disconnect_persistent(&mut self) -> (r: Result<String, String>)
        ensures
            *final(self) == old(self).disconnect_spec(),
            r is Ok <==> old(self).connected(),
            r is Ok ==> r->Ok_0@ == "Disconnected from SSH server"@,
            r is Err ==> r->Err_0@ == "No active SSH connection"@,
    {
        if self.session.is_none() {
            return Err(String::from_str("No active SSH connection"));
        }
        self.session = None;
        self.config = None;
        Ok(String::from_str("Disconnected from SSH server"))
    }

    /// Decides what a caller does with the held session, given whether it answered a
    /// keepalive probe at time `now`.
    pub fn get_persistent_session(&mut self, probe_ok: bool, now: u64) -> (r: SessionCheck)
        ensures
            !old(self).connected() ==> {
                &&& *final(self) == *old(self)
                &&& r is Failed
                &&& r->Failed_0@ == "No active SSH connection. Please connect first."@
            },
            old(self).connected() && probe_ok ==> {
                &&& r is Ready
                &&& final(self).session_view() == old(self).session_view()
                &&& final(self).stored_config() == old(self).stored_config()
                &&& final(self).activity() == now
            },
            old(self).connected() && !probe_ok && old(self).stored_config() is Some ==> {
                &&& *final(self) == *old(self)
                &&& r == SessionCheck::Reconnect(old(self).stored_config()->Some_0)
            },
            old(self).connected() && !probe_ok && old(self).stored_config() is None ==> {
                &&& *final(self) == *old(self)
                &&& r is Failed
                &&& r->Failed_0@ == "Connection lost and no config available for reconnection"@
            },
    {
        if self.session.is_none() {
            return SessionCheck::Failed(
                String::from_str("No active SSH connection. Please connect first."),
            );
        }
        if probe_ok {
            self.update_activity(now);
            return SessionCheck::Ready;
        }
        match &self.config {
            Some(c) => SessionCheck::Reconnect(c.duplicate()),
            None => SessionCheck::Failed(
                String::from_str("Connection lost and no config available for reconnection"),
            ),
        }
    }

    /// Installs the session of a reconnection at time `now`, or reports why there is none.
    pub fn finish_reconnect(&mut self, outcome: Result<S, String>, now: u64) -> (r: Result<(), String>)
        ensures
            outcome is Ok ==> {
                &&& r is Ok
                &&& final(self).session_view() == Some(outcome->Ok_0)
                &&& final(self).stored_config() == old(self).stored_config()
                &&& final(self).activity() == now
            },
            outcome is Err ==> {
                &&& *final(self) == *old(self)
                &&& r is Err
                &&& r->Err_0@ == "Failed to reconnect: "@ + outcome->Err_0@
            },
    {
        match outcome {
            Ok(s) => {
                self.session = Some(s);
                self.update_activity(now);
                Ok(())
            },
            Err(e) => {
                let mut m = String::from_str("Failed to reconnect: ");
                m.append(e.as_str());
                Err(m)
            },
        }
    }
}

/// A new manager holds no connection.
pub proof fn law_not_connected_initially<S>()
    ensures
        !SSHConnectionManager::<S>::initial().connected(),
{
}

/// A connection is held right after a connect.
pub proof fn law_connected_after_connect<S>(
    m: SSHConnectionManager<S>,
    session: S,
    config: SSHConfig,
    now: u64,
)
    ensures
        m.connect_spec(session, config, now).connected(),
{
}

/// No connection is held after a disconnect.
pub proof fn law_not_connected_after_disconnect<S>(m: SSHConnectionManager<S>)
    ensures
        !m.disconnect_spec().connected(),
{
}

/// Of two disconnects in a row, the second finds no connection: it fails and changes
/// nothing.
pub proof fn law_second_disconnect_fails<S>(m: SSHConnectionManager<S>)
    ensures
        !m.disconnect_spec().connected(),
        m.disconnect_spec().disconnect_spec() == m.disconnect_spec(),
{
}

} // verus!
