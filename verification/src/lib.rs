//! Core logic of a small desktop chat client: the homeserver-discovery and
//! login state machine, the filtering of server-advertised authentication
//! methods, and the rendering of incoming room messages.  All network and
//! widget work lives outside this crate; background tasks report back through
//! generation-tagged events that the state machine consumes.

pub mod chat;
pub mod login;

use vstd::prelude::*;

use crate::chat::ChatApp;
use crate::login::LoginApp;

verus! {

/// The top-level application: first a login dialog, then the chat view.
/// There is no reverse transition; logging out is not supported.
pub enum State<C> {
    Login(LoginApp<C>),
    Chat(ChatApp<C>),
}

/// One step of the top-level state machine, run once per redraw after the
/// login dialog has been driven.  The first time the login controller reports
/// success, the session handle is taken from it and the chat view is
/// constructed around it; afterwards the state never changes again.
pub fn advance<C>(state: State<C>) -> (next: State<C>)
    ensures
        match state {
            State::Chat(_) => next == state,
            State::Login(l) => if !(l@.login_status is Success) {
                next == state
            } else {
                match l@.client {
                    None => next matches State::Login(l2) && l2@ == l@,
                    Some(c) => next matches State::Chat(ch) && ch.client == c && ch.messages@
                        == Seq::<String>::empty() && !ch.connection_lost,
                }
            },
        },
{
    match state {
        State::Login(mut l) => {
            if l.ready() {
                match l.take_client() {
                    Some(c) => State::Chat(ChatApp::new(c)),
                    None => State::Login(l),
                }
            } else {
                State::Login(l)
            }
        },
        State::Chat(c) => State::Chat(c),
    }
}

} // verus!
