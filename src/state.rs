//! The login session: whether someone is logged in, and who.

use vstd::prelude::*;
use crate::error::{ProjectError, ProjectErrorView};
use crate::store::Store;
use crate::user::User;

verus! {

/// The session that persists between invocations.
#[derive(Debug)]
pub struct State {
    /// Whether a user is logged in.
    pub logged_in: bool,
    /// The logged-in user's name: present exactly when `logged_in` holds, and
    /// a key of the user store when it was set.
    pub current_user: Option<String>,
}

pub struct StateView {
    pub logged_in: bool,
    pub current_user: Option<Seq<char>>,
}

impl View for State {
    type V = StateView;

    open spec fn view(&self) -> StateView {
        StateView {
            logged_in: self.logged_in,
            current_user: match self.current_user {
                Some(u) => Some(u@),
                None => None,
            },
        }
    }
}

/// No one is logged in.
pub open spec fn logged_out() -> StateView {
    StateView { logged_in: false, current_user: None }
}

/// `u` is logged in.
pub open spec fn logged_in_as(u: Seq<char>) -> StateView {
    StateView { logged_in: true, current_user: Some(u) }
}

impl StateView {
    /// A user is named exactly when someone is logged in.
    pub open spec fn wf(self) -> bool {
        self.logged_in <==> self.current_user is Some
    }
}

impl Default for State {
    fn default() -> (r: State)
        ensures
            r@ == logged_out(),
    {
        State { logged_in: false, current_user: None }
    }
}

impl State {
    /// Logs `username` in, without checking that the user exists.
    pub fn set_user(&mut self, username: &str)
        ensures
            final(self)@ == logged_in_as(username@),
    {
        self.logged_in = true;
        self.current_user = Some(username.to_string());
    }

    /// Logs `username` in if the user store holds them; otherwise a
    /// `StateInvalidUserError` that leaves the session as it was.
    pub fn try_set_user(&mut self, username: &str, users: &Store<User>) -> (r: Result<(), ProjectError>)
        ensures
            users@.contains_key(username@) ==> (r is Ok && final(self)@ == logged_in_as(username@)),
            !users@.contains_key(username@) ==> (r matches Err(e)
                && e@ == ProjectErrorView::StateInvalidUserError(username@) && final(self)@ == old(self)@),
    {
        if !self.valid_user(username, users) {
            Err(ProjectError::StateInvalidUserError(username.to_string()))
        } else {
            self.set_user(username);
            Ok(())
        }
    }

    /// Logs out.
    pub fn clear_user(&mut self)
        ensures
            final(self)@ == logged_out(),
    {
        self.logged_in = false;
        self.current_user = None;
    }

    /// Whether the session names a user that the store holds.
    pub fn valid_state(&self, users: &Store<User>) -> (r: bool)
        ensures
            r == (self@.current_user matches Some(u) && users@.contains_key(u)),
    {
        match &self.current_user {
            Some(u) => users.contains_key(u.as_str()),
            None => false,
        }
    }

    /// Whether `username` may be logged in: the store holds them.
    pub fn valid_user(&self, username: &str, users: &Store<User>) -> (r: bool)
        ensures
            r == users@.contains_key(username@),
    {
        users.contains_key(username)
    }
}

} // verus!
