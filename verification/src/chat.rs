//! The chat view: deciding what an incoming room message contributes to the
//! rendered log, and the log itself.  Event subscription and the continuous
//! synchronization loop run outside this crate; each formatted line reaches
//! the view through the once-per-frame drain.

use vstd::prelude::*;
use vstd::string::StringExecFns;

verus! {

/// Membership of the originating room, as read from the session.
#[derive(Clone, Copy, PartialEq, Eq, Structural, Debug)]
pub enum RoomMembership {
    Joined,
    Left,
    Invited,
}

/// This crate's model of an incoming room event's content: a plain text
/// body, or any other kind of content (ignored here).
#[derive(Debug)]
pub enum MessageContent {
    Text(String),
    Other,
}

/// The room's display alias, or nothing where none is set.
pub open spec fn spec_alias_text(alias: Option<String>) -> Seq<char> {
    match alias {
        Some(a) => a@,
        None => Seq::empty(),
    }
}

/// The exact rendering of one log line.
pub open spec fn rendered_line(alias: Seq<char>, name: Seq<char>, body: Seq<char>) -> Seq<char> {
    alias + " -> "@ + name + ": "@ + body
}

/// What, if anything, an incoming message contributes to the rendered log:
/// a line exactly when the room is fully joined, the content is plain text
/// and the sender has a member record.
pub open spec fn rendered_message(
    membership: RoomMembership,
    content: MessageContent,
    sender_name: Option<String>,
    alias: Option<String>,
) -> Option<Seq<char>> {
    if membership is Joined {
        match content {
            MessageContent::Text(body) => match sender_name {
                Some(name) => Some(rendered_line(spec_alias_text(alias), name@, body@)),
                None => None,
            },
            MessageContent::Other => None,
        }
    } else {
        None
    }
}

/// Decide what one incoming room message contributes to the log.  A message
/// from a room that is not fully joined, a non-text message, and a message
/// whose sender lacks a member record are all skipped; membership data can
/// legitimately race with delivery, so the missing record is a skip, not a
/// failure.
pub fn handle_room_message(
    membership: RoomMembership,
    content: &MessageContent,
    sender_name: &Option<String>,
    alias: &Option<String>,
) -> (line: Option<String>)
    ensures
        line is Some <==> rendered_message(membership, *content, *sender_name, *alias) is Some,
        line matches Some(s) ==> Some(s@) == rendered_message(
            membership,
            *content,
            *sender_name,
            *alias,
        ),
{
    match membership {
        RoomMembership::Joined => {},
        _ => {
            return None;
        },
    }
    let body = match content {
        MessageContent::Text(b) => b,
        MessageContent::Other => {
            return None;
        },
    };
    let name = match sender_name {
        Some(n) => n,
        None => {
            return None;
        },
    };
    let mut line = match alias {
        Some(a) => a.clone(),
        None => String::new(),
    };
    line.append(" -> ");
    line.append(name.as_str());
    line.append(": ");
    line.append(body.as_str());
    Some(line)
}

/// Law: a message from a room that is not fully joined contributes nothing
/// to the log.
pub proof fn lemma_unjoined_room_ignored(
    membership: RoomMembership,
    content: MessageContent,
    sender_name: Option<String>,
    alias: Option<String>,
)
    requires
        !(membership is Joined),
    ensures
        rendered_message(membership, content, sender_name, alias) is None,
{
}

/// A notification from the background work around the view: a formatted
/// message line, or the end of the synchronization loop.  The latter is
/// surfaced rather than swallowed, so the user learns that the session has
/// stopped following the server.
#[derive(Debug)]
pub enum ChatEvent {
    Message(String),
    ConnectionLost,
}

/// The chat view's state: the owned session handle, the rendered log —
/// insertion-ordered and append-only — and whether the synchronization loop
/// has ended.
pub struct ChatApp<C> {
    pub client: C,
    pub messages: Vec<String>,
    pub connection_lost: bool,
}

impl<C> ChatApp<C> {
    /// A fresh view around a ready session handle, with an empty log.
    pub fn new(client: C) -> (app: ChatApp<C>)
        ensures
            app.client == client,
            app.messages@ == Seq::<String>::empty(),
            !app.connection_lost,
    {
        ChatApp { client, messages: Vec::new(), connection_lost: false }
    }

    /// Drain at most one notification per frame.  A message line is appended
    /// to the log — nothing already rendered is altered or dropped — and a
    /// lost connection is recorded; with nothing delivered this is a no-op.
    pub fn poll_event(&mut self, event: Option<ChatEvent>)
        ensures
            final(self).client == old(self).client,
            event matches Some(ChatEvent::Message(m)) ==> final(self).messages@ == old(
                self).messages@.push(m) && final(self).connection_lost == old(
                self).connection_lost,
            event matches Some(ChatEvent::ConnectionLost) ==> final(self).messages@ == old(
                self).messages@ && final(self).connection_lost,
            event is None ==> final(self).messages@ == old(self).messages@ && final(
                self).connection_lost == old(self).connection_lost,
    {
        match event {
            Some(ChatEvent::Message(m)) => self.messages.push(m),
            Some(ChatEvent::ConnectionLost) => {
                self.connection_lost = true;
            },
            None => {},
        }
    }
}

} // verus!
