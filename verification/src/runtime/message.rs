//! What travels through a mailbox, and what an Actor Type is registered with.

use std::time::Duration;

use vstd::prelude::*;

use crate::error::{same_error, SendError};
use crate::runtime::session::SessionId;

verus! {

/// A message in the mailbox of an Active Actor: an Action of a caller, or a
/// notice on the lifecycle of a Session. `R` is the host's handle on the caller
/// that waits for a Session to open.
pub enum MailboxMessage<R> {
    Action { session_id: SessionId, payload: Vec<u8> },
    SessionOpened { session_id: SessionId, complete: R },
    SessionClosed { session_id: SessionId },
}

impl<R> MailboxMessage<R> {
    /// The Session that the message belongs to.
    pub open spec fn session(self) -> SessionId {
        match self {
            MailboxMessage::Action { session_id, .. } => session_id,
            MailboxMessage::SessionOpened { session_id, .. } => session_id,
            MailboxMessage::SessionClosed { session_id } => session_id,
        }
    }

    /// The Session that the message belongs to.
    pub fn session_id(&self) -> (session_id: SessionId)
        ensures
            session_id == self.session(),
    {
        match self {
            MailboxMessage::Action { session_id, .. } => *session_id,
            MailboxMessage::SessionOpened { session_id, .. } => *session_id,
            MailboxMessage::SessionClosed { session_id } => *session_id,
        }
    }
}

/// The caller that waits on a message, if there is one.
pub open spec fn waiting<R>(message: MailboxMessage<R>) -> Option<R> {
    match message {
        MailboxMessage::SessionOpened { complete, .. } => Some(complete),
        _ => None,
    }
}

/// The answer that a failed message calls for: the caller that waits for a
/// Session to open is told, and nobody waits on anything else.
pub open spec fn failure_reply<R>(message: MailboxMessage<R>, error: SendError) -> Option<
    (R, SendError),
> {
    match waiting(message) {
        Some(complete) => Some((complete, error)),
        None => None,
    }
}

/// Fails a message.
pub fn fail_message<R>(message: MailboxMessage<R>, error: SendError) -> (reply: Option<
    (R, SendError),
>)
    ensures
        reply == failure_reply(message, error),
{
    match message {
        MailboxMessage::SessionOpened { complete, .. } => Some((complete, error)),
        _ => None,
    }
}

/// The callers that wait on messages, in the order of the messages.
pub open spec fn waiting_callers<R>(messages: Seq<MailboxMessage<R>>) -> Seq<R>
    decreases messages.len(),
{
    if messages.len() == 0 {
        Seq::empty()
    } else {
        let before = waiting_callers(messages.drop_last());
        match waiting(messages.last()) {
            Some(complete) => before.push(complete),
            None => before,
        }
    }
}

/// Every one of the callers, and nobody else, is told of the error.
pub open spec fn all_told<R>(
    replies: Seq<(R, Result<(), SendError>)>,
    callers: Seq<R>,
    error: SendError,
) -> bool {
    &&& replies.len() == callers.len()
    &&& forall|i: int|
        0 <= i < replies.len() ==> (#[trigger] replies[i]).0 == callers[i] && (
        replies[i].1 matches Err(told) && same_error(error, told))
}

/// Fails all messages.
pub fn fail_messages<R>(messages: Vec<MailboxMessage<R>>, error: &SendError) -> (replies: Vec<
    (R, Result<(), SendError>),
>)
    ensures
        all_told(replies@, waiting_callers(messages@), *error),
{
    let mut replies: Vec<(R, Result<(), SendError>)> = Vec::new();
    let ghost all = messages@;
    for message in iter: messages
        invariant
            iter.seq() == all,
            all_told(replies@, waiting_callers(all.take(iter.index())), *error),
    {
        proof {
            assert(all.take(iter.index() + 1).drop_last() =~= all.take(iter.index()));
            assert(all.take(iter.index() + 1).last() == message);
        }
        if let Some((complete, told)) = fail_message(message, error.duplicate()) {
            replies.push((complete, Err(told)));
        }
    }
    assert(all.take(all.len() as int) =~= all);
    replies
}

/// The runtime policy under which an Actor Type is registered. What is left open
/// is filled in when the Server is built.
#[derive(Clone, Copy, Debug)]
pub struct Registration {
    pub name: &'static str,
    pub mailbox_capacity: Option<usize>,
    pub idle_timeout: Option<Duration>,
}

impl Registration {
    /// A registration that leaves all policy open.
    pub fn of(name: &'static str) -> (registration: Self)
        ensures
            registration == (Registration { name, mailbox_capacity: None, idle_timeout: None }),
    {
        Registration { name, mailbox_capacity: None, idle_timeout: None }
    }
}

/// Only the caller that waits for a Session to open is told of a message that failed, and
/// it is told of the very error.
pub proof fn law_waiting_callers_are_told<R>(
    message: MailboxMessage<R>,
    error: SendError,
    earlier: Seq<MailboxMessage<R>>,
)
    ensures
        message matches MailboxMessage::SessionOpened { complete, .. } ==> failure_reply(
            message,
            error,
        ) == Some((complete, error)) && waiting_callers(earlier.push(message))
            == waiting_callers(earlier).push(complete),
        !(message is SessionOpened) ==> failure_reply(message, error) is None && waiting_callers(
            earlier.push(message),
        ) == waiting_callers(earlier),
        waiting_callers(Seq::<MailboxMessage<R>>::empty()).len() == 0,
{
    assert(earlier.push(message).drop_last() =~= earlier);
}

/// Everybody who waits is told of the same error, in order, once each.
pub proof fn law_everybody_who_waits_is_told<R>(
    replies: Seq<(R, Result<(), SendError>)>,
    callers: Seq<R>,
    error: SendError,
    i: int,
)
    requires
        all_told(replies, callers, error),
        0 <= i < callers.len(),
    ensures
        replies.len() == callers.len(),
        replies[i].0 == callers[i],
        replies[i].1 is Err,
        !(error is ActorTypeNotRegistered) ==> replies[i].1 == Err::<(), SendError>(error),
{
}

/// A message belongs to the Session that it names.
pub proof fn law_messages_name_their_session<R>(session_id: SessionId, payload: Vec<u8>, complete: R)
    ensures
        (MailboxMessage::<R>::Action { session_id, payload }).session() == session_id,
        (MailboxMessage::SessionOpened { session_id, complete }).session() == session_id,
        (MailboxMessage::<R>::SessionClosed { session_id }).session() == session_id,
{
}

} // verus!
