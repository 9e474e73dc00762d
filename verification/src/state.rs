//! The state that the command handlers, the idle monitor and the queue processor share.
//!
//! The value is plain data. Whoever shares it between activities wraps it in a lock; every
//! operation here works on the value alone and is done in one step.

use crate::settings::Settings;
use vstd::prelude::*;

verus! {

/// The session, the settings and the last known clock state.
///
/// `is_clocked_in` may run ahead of the remote service between the queueing of an action and
/// its replay; the next status that the service reports overwrites it.
pub struct AppState {
    pub session_token: Option<String>,
    pub settings: Settings,
    pub is_clocked_in: bool,
}

impl AppState {
    /// Whether a session token is held.
    pub open spec fn is_authenticated(&self) -> bool {
        self.session_token is Some
    }

    /// Whether a remote service is configured.
    pub open spec fn is_configured(&self) -> bool {
        self.settings.is_configured()
    }

    /// The state at start: the stored settings and session, clocked out until the remote
    /// service says otherwise.
    pub fn new(settings: Settings, session_token: Option<String>) -> (state: AppState)
        ensures
            state.settings == settings,
            state.session_token == session_token,
            !state.is_clocked_in,
    {
        AppState { session_token, settings, is_clocked_in: false }
    }

    /// Replaces the session token; `None` ends the session.
    pub fn set_session_token(&mut self, token: Option<String>)
        ensures
            *final(self) == (AppState { session_token: token, ..*old(self) }),
    {
        self.session_token = token;
    }

    /// A copy of the session token.
    pub fn get_session_token(&self) -> (token: Option<String>)
        ensures
            token == self.session_token,
    {
        match &self.session_token {
            Some(t) => Some(t.clone()),
            None => None,
        }
    }

    /// A copy of the address of the remote service; empty where none is configured.
    pub fn get_webapp_url(&self) -> (url: String)
        ensures
            url == self.settings.webapp_url,
    {
        self.settings.webapp_url.clone()
    }

    /// Records whether the user is clocked in.
    pub fn set_clocked_in(&mut self, clocked_in: bool)
        ensures
            *final(self) == (AppState { is_clocked_in: clocked_in, ..*old(self) }),
    {
        self.is_clocked_in = clocked_in;
    }

    /// Whether the user is clocked in, as far as is known.
    pub fn is_clocked_in(&self) -> (clocked_in: bool)
        ensures
            clocked_in == self.is_clocked_in,
    {
        self.is_clocked_in
    }
}

} // verus!
