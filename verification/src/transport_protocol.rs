//! The messages of a Transport Connection and the failures they carry.

use vstd::prelude::*;

verus! {

/// The version that both ends of a Transport Connection speak.
pub const TRANSPORT_PROTOCOL_VERSION: u32 = 2;

/// The version that command peers speak.
pub const PEER_PROTOCOL_VERSION: u32 = 2;

/// A failure as it travels between runtimes.
#[derive(Clone, Copy, Debug, PartialEq, Eq, Structural)]
pub enum RuntimeFailure {
    Unspecified,
    MailboxFull,
    ActivationFailed,
    ActorDeactivating,
    RuntimeAtCapacity,
    RuntimeShuttingDown,
    ActorStopped,
    RuntimeStopped,
    ProtocolMismatch,
    ActorTypeNotRegistered,
    CommandNotRegistered,
    MalformedPayload,
    NodeFenced,
    RemoteUnavailable,
    OwnershipUnavailable,
    NotOwner,
}

/// The failure that a number stands for; an unknown number is unspecified.
pub open spec fn failure_from_code(value: i32) -> RuntimeFailure {
    if value == 1 {
        RuntimeFailure::MailboxFull
    } else if value == 2 {
        RuntimeFailure::ActivationFailed
    } else if value == 3 {
        RuntimeFailure::ActorDeactivating
    } else if value == 4 {
        RuntimeFailure::RuntimeAtCapacity
    } else if value == 5 {
        RuntimeFailure::RuntimeShuttingDown
    } else if value == 6 {
        RuntimeFailure::ActorStopped
    } else if value == 7 {
        RuntimeFailure::RuntimeStopped
    } else if value == 8 {
        RuntimeFailure::ProtocolMismatch
    } else if value == 9 {
        RuntimeFailure::ActorTypeNotRegistered
    } else if value == 10 {
        RuntimeFailure::CommandNotRegistered
    } else if value == 11 {
        RuntimeFailure::MalformedPayload
    } else if value == 12 {
        RuntimeFailure::NodeFenced
    } else if value == 13 {
        RuntimeFailure::RemoteUnavailable
    } else if value == 14 {
        RuntimeFailure::OwnershipUnavailable
    } else if value == 15 {
        RuntimeFailure::NotOwner
    } else {
        RuntimeFailure::Unspecified
    }
}

impl RuntimeFailure {
    /// The number of the failure.
    pub open spec fn code(self) -> i32 {
        match self {
            RuntimeFailure::Unspecified => 0,
            RuntimeFailure::MailboxFull => 1,
            RuntimeFailure::ActivationFailed => 2,
            RuntimeFailure::ActorDeactivating => 3,
            RuntimeFailure::RuntimeAtCapacity => 4,
            RuntimeFailure::RuntimeShuttingDown => 5,
            RuntimeFailure::ActorStopped => 6,
            RuntimeFailure::RuntimeStopped => 7,
            RuntimeFailure::ProtocolMismatch => 8,
            RuntimeFailure::ActorTypeNotRegistered => 9,
            RuntimeFailure::CommandNotRegistered => 10,
            RuntimeFailure::MalformedPayload => 11,
            RuntimeFailure::NodeFenced => 12,
            RuntimeFailure::RemoteUnavailable => 13,
            RuntimeFailure::OwnershipUnavailable => 14,
            RuntimeFailure::NotOwner => 15,
        }
    }

    /// The number of the failure on the wire.
    pub fn to_code(self) -> (value: i32)
        ensures
            value == self.code(),
    {
        match self {
            RuntimeFailure::Unspecified => 0,
            RuntimeFailure::MailboxFull => 1,
            RuntimeFailure::ActivationFailed => 2,
            RuntimeFailure::ActorDeactivating => 3,
            RuntimeFailure::RuntimeAtCapacity => 4,
            RuntimeFailure::RuntimeShuttingDown => 5,
            RuntimeFailure::ActorStopped => 6,
            RuntimeFailure::RuntimeStopped => 7,
            RuntimeFailure::ProtocolMismatch => 8,
            RuntimeFailure::ActorTypeNotRegistered => 9,
            RuntimeFailure::CommandNotRegistered => 10,
            RuntimeFailure::MalformedPayload => 11,
            RuntimeFailure::NodeFenced => 12,
            RuntimeFailure::RemoteUnavailable => 13,
            RuntimeFailure::OwnershipUnavailable => 14,
            RuntimeFailure::NotOwner => 15,
        }
    }

    /// The failure that a number on the wire stands for.
    pub fn from_code(value: i32) -> (failure: Self)
        ensures
            failure == failure_from_code(value),
    {
        if value == 1 {
            RuntimeFailure::MailboxFull
        } else if value == 2 {
            RuntimeFailure::ActivationFailed
        } else if value == 3 {
            RuntimeFailure::ActorDeactivating
        } else if value == 4 {
            RuntimeFailure::RuntimeAtCapacity
        } else if value == 5 {
            RuntimeFailure::RuntimeShuttingDown
        } else if value == 6 {
            RuntimeFailure::ActorStopped
        } else if value == 7 {
            RuntimeFailure::RuntimeStopped
        } else if value == 8 {
            RuntimeFailure::ProtocolMismatch
        } else if value == 9 {
            RuntimeFailure::ActorTypeNotRegistered
        } else if value == 10 {
            RuntimeFailure::CommandNotRegistered
        } else if value == 11 {
            RuntimeFailure::MalformedPayload
        } else if value == 12 {
            RuntimeFailure::NodeFenced
        } else if value == 13 {
            RuntimeFailure::RemoteUnavailable
        } else if value == 14 {
            RuntimeFailure::OwnershipUnavailable
        } else if value == 15 {
            RuntimeFailure::NotOwner
        } else {
            RuntimeFailure::Unspecified
        }
    }
}

/// Every failure is read back from its own number.
pub proof fn law_failure_code_round_trip(failure: RuntimeFailure)
    ensures
        failure_from_code(failure.code()) == failure,
{
}

/// Why a caller closed a Session.
#[derive(Clone, Copy, Debug, PartialEq, Eq, Structural)]
pub enum CloseReason {
    Unspecified,
    CallerDropped,
}

impl CloseReason {
    /// The number of the reason.
    pub open spec fn code(self) -> i32 {
        match self {
            CloseReason::Unspecified => 0,
            CloseReason::CallerDropped => 1,
        }
    }

    /// The number of the reason on the wire.
    pub fn to_code(self) -> (value: i32)
        ensures
            value == self.code(),
    {
        match self {
            CloseReason::Unspecified => 0,
            CloseReason::CallerDropped => 1,
        }
    }
}

/// How the Owner answered a request to open a Session.
#[derive(Clone, Debug, PartialEq, Eq)]
pub enum AckOutcome {
    Opened(Vec<u8>),
    Failure(i32),
}

/// What a message of a Transport Connection is about.
#[derive(Clone, Debug, PartialEq, Eq)]
pub enum Kind {
    SessionOpen,
    SessionOpenedAck { outcome: Option<AckOutcome> },
    SessionClose { reason: i32 },
    SessionError { failure: i32 },
    Action { payload: Vec<u8> },
    Event { payload: Vec<u8> },
}

/// One message of a Transport Connection.
#[derive(Clone, Debug, PartialEq, Eq)]
pub struct Envelope {
    pub protocol_version: u32,
    pub actor_type: String,
    pub actor_id: Vec<u8>,
    pub session_id: Vec<u8>,
    pub kind: Option<Kind>,
}

impl Envelope {
    /// A message from the Owner to the caller of a Session: it carries the
    /// Session and nothing on the Actor.
    pub open spec fn is_reply(&self, session_id: Seq<u8>, kind: Kind) -> bool {
        &&& self.protocol_version == 0
        &&& self.actor_type@ == Seq::<char>::empty()
        &&& self.actor_id@ == Seq::<u8>::empty()
        &&& self.session_id@ == session_id
        &&& self.kind == Some(kind)
    }

    /// Builds a message from the Owner to the caller of a Session.
    pub fn reply(session_id: Vec<u8>, kind: Kind) -> (envelope: Self)
        ensures
            envelope.is_reply(session_id@, kind),
    {
        Envelope {
            protocol_version: 0,
            actor_type: String::new(),
            actor_id: Vec::new(),
            session_id,
            kind: Some(kind),
        }
    }
}

/// A number that no failure has reads as unspecified, and no number reads as a
/// failure with another number.
pub proof fn law_unknown_codes_are_unspecified(value: i32)
    ensures
        1 <= value <= 15 ==> failure_from_code(value).code() == value,
        !(1 <= value <= 15) ==> failure_from_code(value) == RuntimeFailure::Unspecified,
        CloseReason::CallerDropped.code() != CloseReason::Unspecified.code(),
{
}

/// Servers announce the version that callers ask for.
pub proof fn law_both_ends_speak_one_version()
    ensures
        TRANSPORT_PROTOCOL_VERSION == PEER_PROTOCOL_VERSION,
        TRANSPORT_PROTOCOL_VERSION == 2,
{
}

/// A message from the Owner names the Session and says its kind; it carries no version and
/// nothing on the Actor.
pub proof fn law_replies_name_the_session(envelope: Envelope, session_id: Seq<u8>, kind: Kind)
    requires
        envelope.is_reply(session_id, kind),
    ensures
        envelope.session_id@ == session_id,
        envelope.kind == Some(kind),
        envelope.protocol_version == 0,
        envelope.actor_type@.len() == 0,
        envelope.actor_id@.len() == 0,
{
}

} // verus!
