//! The session gate of the dashboard: one flag for each client session,
//! which only a login with the right password sets.

use vstd::prelude::*;
use crate::config::Config;

verus! {

/// The route of the login form.
pub const LOGIN_PATH: &'static str = "/login";

/// The route of the aggregated view.
pub const HOME_PATH: &'static str = "/";

/// The name under which the session keeps the flag.
pub const SESSION_KEY: &'static str = "logged_in";

/// The login flag of one client session.
#[derive(Clone, Copy, Debug, PartialEq, Eq)]
pub struct SessionGate {
    logged_in: bool,
}

impl View for SessionGate {
    type V = bool;

    /// Whether the session is logged in.
    closed spec fn view(&self) -> bool {
        self.logged_in
    }
}

/// Whether `submitted` opens a session under `password`: a password was
/// submitted, and it is `password` character for character.
pub open spec fn opens(password: Seq<char>, submitted: Option<&str>) -> bool {
    submitted matches Some(text) && text@ == password
}

impl SessionGate {
    /// The login flag as a session stores it: the session counts as logged
    /// in only if the flag is present and set.
    pub fn restore(stored: Option<bool>) -> (gate: SessionGate)
        ensures
            gate@ == (stored == Some(true)),
    {
        match stored {
            Some(flag) => SessionGate { logged_in: flag },
            None => SessionGate { logged_in: false },
        }
    }

    /// Whether the session is logged in.
    pub fn is_logged_in(&self) -> (flag: bool)
        ensures
            flag == self@,
    {
        self.logged_in
    }

    /// A login attempt. With the right password the session is logged in
    /// from now on, and the result is true. With another, or with none, the
    /// flag stays as it was, and the result is false.
    pub fn login(&mut self, config: &Config, submitted: Option<&str>) -> (accepted: bool)
        ensures
            accepted == opens(config.password@, submitted),
            final(self)@ == (old(self)@ || accepted),
    {
        match submitted {
            Some(text) => {
                if config.password_matches(text) {
                    self.logged_in = true;
                    true
                } else {
                    false
                }
            },
            None => false,
        }
    }
}

} // verus!
