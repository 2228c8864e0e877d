//! The errors that callers, hosts and Sessions see.

use vstd::prelude::*;
use vstd::string::*;

use crate::cluster::authority::CoordinationError;
use crate::transport_protocol::{failure_from_code, RuntimeFailure};

verus! {

/// Why an Actor Address was refused.
#[derive(Clone, Copy, Debug, PartialEq, Eq, Structural)]
pub enum ActorAddressError {
    InvalidActorType,
    InvalidActorId,
}

impl ActorAddressError {
    /// What the error says.
    pub open spec fn text(self) -> Seq<char> {
        match self {
            ActorAddressError::InvalidActorType => "Actor Type must be a Kubernetes DNS label"@,
            ActorAddressError::InvalidActorId => "Actor ID must be a Kubernetes DNS label"@,
        }
    }

    /// The error as text.
    pub fn message(&self) -> (message: String)
        ensures
            message@ == self.text(),
    {
        match self {
            ActorAddressError::InvalidActorType => "Actor Type must be a Kubernetes DNS label".to_owned(),
            ActorAddressError::InvalidActorId => "Actor ID must be a Kubernetes DNS label".to_owned(),
        }
    }
}

/// `std::io::Error`: what kept the host from an operation.
#[verifier::external_type_specification]
#[verifier::external_body]
pub struct ExIoError(std::io::Error);

/// Why a Server did not start.
#[derive(Debug)]
pub enum ServerStartError {
    MissingBindAddress,
    MissingAdvertisedEndpoint,
    InvalidActorType(String),
    DuplicateActorType(String),
    InvalidMailboxCapacity,
    InvalidMaxActiveActors,
    InvalidNodeId,
    InvalidAdvertisedEndpoint,
    InvalidNodeLeaseTtl,
    InvalidCoordinationTimeout,
    InvalidPeerConnectTimeout,
    InvalidDeactivationTimeout,
    InvalidShutdownTimeout,
    BindFailed(std::io::Error),
    LeaseConflict,
    LeaseUnconfirmed,
    Coordination(CoordinationError),
}

impl ServerStartError {
    /// What the error says.
    pub open spec fn text(self) -> Seq<char> {
        match self {
            ServerStartError::MissingBindAddress => "bind address is required"@,
            ServerStartError::MissingAdvertisedEndpoint => "advertised endpoint is required"@,
            ServerStartError::InvalidActorType(name) => "Actor Type `"@ + name@ + "` is invalid"@,
            ServerStartError::DuplicateActorType(name) => "Actor Type `"@ + name@ + "` was registered more than once"@,
            ServerStartError::InvalidMailboxCapacity => "mailbox capacity must be greater than zero"@,
            ServerStartError::InvalidMaxActiveActors => "max_active_actors must be greater than zero"@,
            ServerStartError::InvalidNodeId => "Node ID must be a Kubernetes DNS label"@,
            ServerStartError::InvalidAdvertisedEndpoint => "advertised endpoint must be a canonical host:port without a scheme or path"@,
            ServerStartError::InvalidNodeLeaseTtl => "Node Lease TTL must be greater than zero"@,
            ServerStartError::InvalidCoordinationTimeout => "Coordination operation timeout must be greater than zero"@,
            ServerStartError::InvalidPeerConnectTimeout => "peer connection timeout must be greater than zero"@,
            ServerStartError::InvalidDeactivationTimeout => "deactivation timeout must be greater than zero"@,
            ServerStartError::InvalidShutdownTimeout => "shutdown timeout must be greater than zero"@,
            ServerStartError::BindFailed(_) => "the peer listener could not bind"@,
            ServerStartError::LeaseConflict => "Node Lease is already owned"@,
            ServerStartError::LeaseUnconfirmed => "Node Lease acquisition could not be confirmed"@,
            ServerStartError::Coordination(_) => "Coordination Store is unavailable during startup"@,
        }
    }

    /// The error as text.
    pub fn message(&self) -> (message: String)
        ensures
            message@ == self.text(),
    {
        match self {
            ServerStartError::MissingBindAddress => "bind address is required".to_owned(),
            ServerStartError::MissingAdvertisedEndpoint => "advertised endpoint is required".to_owned(),
            ServerStartError::InvalidActorType(name) => "Actor Type `".to_owned().concat(name.as_str()).concat("` is invalid"),
            ServerStartError::DuplicateActorType(name) => "Actor Type `".to_owned().concat(name.as_str()).concat("` was registered more than once"),
            ServerStartError::InvalidMailboxCapacity => "mailbox capacity must be greater than zero".to_owned(),
            ServerStartError::InvalidMaxActiveActors => "max_active_actors must be greater than zero".to_owned(),
            ServerStartError::InvalidNodeId => "Node ID must be a Kubernetes DNS label".to_owned(),
            ServerStartError::InvalidAdvertisedEndpoint => "advertised endpoint must be a canonical host:port without a scheme or path".to_owned(),
            ServerStartError::InvalidNodeLeaseTtl => "Node Lease TTL must be greater than zero".to_owned(),
            ServerStartError::InvalidCoordinationTimeout => "Coordination operation timeout must be greater than zero".to_owned(),
            ServerStartError::InvalidPeerConnectTimeout => "peer connection timeout must be greater than zero".to_owned(),
            ServerStartError::InvalidDeactivationTimeout => "deactivation timeout must be greater than zero".to_owned(),
            ServerStartError::InvalidShutdownTimeout => "shutdown timeout must be greater than zero".to_owned(),
            ServerStartError::BindFailed(_) => "the peer listener could not bind".to_owned(),
            ServerStartError::LeaseConflict => "Node Lease is already owned".to_owned(),
            ServerStartError::LeaseUnconfirmed => "Node Lease acquisition could not be confirmed".to_owned(),
            ServerStartError::Coordination(_) => "Coordination Store is unavailable during startup".to_owned(),
        }
    }
}

/// Why a started Server stopped serving.
#[derive(Clone, Copy, Debug, PartialEq, Eq, Structural)]
pub enum ServerFailure {
    Fenced,
}

impl ServerFailure {
    /// What the error says.
    pub open spec fn text(self) -> Seq<char> {
        match self {
            ServerFailure::Fenced => "the Server self-fenced after losing Node authority"@,
        }
    }

    /// The error as text.
    pub fn message(&self) -> (message: String)
        ensures
            message@ == self.text(),
    {
        match self {
            ServerFailure::Fenced => "the Server self-fenced after losing Node authority".to_owned(),
        }
    }
}

/// Why serving ended with an error.
#[derive(Debug)]
pub enum ServerError {
    MissingAdvertisedEndpoint,
    InvalidActorType(String),
    DuplicateActorType(String),
    InvalidMailboxCapacity,
    InvalidMaxActiveActors,
    InvalidNodeId,
    InvalidAdvertisedEndpoint,
    InvalidNodeLeaseTtl,
    InvalidCoordinationTimeout,
    InvalidDeactivationTimeout,
    InvalidShutdownTimeout,
    BindFailed(std::io::Error),
    LeaseConflict,
    LeaseUnconfirmed,
    Coordination(CoordinationError),
    InvalidListenAddress,
    Fenced,
    ServiceStopped,
}

impl ServerError {
    /// What the error says.
    pub open spec fn text(self) -> Seq<char> {
        match self {
            ServerError::MissingAdvertisedEndpoint => "advertised endpoint is required"@,
            ServerError::InvalidActorType(name) => "Actor Type `"@ + name@ + "` is invalid"@,
            ServerError::DuplicateActorType(name) => "Actor Type `"@ + name@ + "` was registered more than once"@,
            ServerError::InvalidMailboxCapacity => "mailbox capacity must be greater than zero"@,
            ServerError::InvalidMaxActiveActors => "max_active_actors must be greater than zero"@,
            ServerError::InvalidNodeId => "Node ID must be a Kubernetes DNS label"@,
            ServerError::InvalidAdvertisedEndpoint => "advertised endpoint must be a canonical host:port without a scheme or path"@,
            ServerError::InvalidNodeLeaseTtl => "Node Lease TTL must be greater than zero"@,
            ServerError::InvalidCoordinationTimeout => "Coordination operation timeout must be greater than zero"@,
            ServerError::InvalidDeactivationTimeout => "deactivation timeout must be greater than zero"@,
            ServerError::InvalidShutdownTimeout => "shutdown timeout must be greater than zero"@,
            ServerError::BindFailed(_) => "the peer listener could not bind"@,
            ServerError::LeaseConflict => "Node Lease is already owned"@,
            ServerError::LeaseUnconfirmed => "Node Lease acquisition could not be confirmed"@,
            ServerError::Coordination(_) => "Coordination Store is unavailable during startup"@,
            ServerError::InvalidListenAddress => "listen address must be host:port or :port"@,
            ServerError::Fenced => "the Server self-fenced after losing Node authority"@,
            ServerError::ServiceStopped => "the Server's transport or lease renewal stopped"@,
        }
    }

    /// The error as text.
    pub fn message(&self) -> (message: String)
        ensures
            message@ == self.text(),
    {
        match self {
            ServerError::MissingAdvertisedEndpoint => "advertised endpoint is required".to_owned(),
            ServerError::InvalidActorType(name) => "Actor Type `".to_owned().concat(name.as_str()).concat("` is invalid"),
            ServerError::DuplicateActorType(name) => "Actor Type `".to_owned().concat(name.as_str()).concat("` was registered more than once"),
            ServerError::InvalidMailboxCapacity => "mailbox capacity must be greater than zero".to_owned(),
            ServerError::InvalidMaxActiveActors => "max_active_actors must be greater than zero".to_owned(),
            ServerError::InvalidNodeId => "Node ID must be a Kubernetes DNS label".to_owned(),
            ServerError::InvalidAdvertisedEndpoint => "advertised endpoint must be a canonical host:port without a scheme or path".to_owned(),
            ServerError::InvalidNodeLeaseTtl => "Node Lease TTL must be greater than zero".to_owned(),
            ServerError::InvalidCoordinationTimeout => "Coordination operation timeout must be greater than zero".to_owned(),
            ServerError::InvalidDeactivationTimeout => "deactivation timeout must be greater than zero".to_owned(),
            ServerError::InvalidShutdownTimeout => "shutdown timeout must be greater than zero".to_owned(),
            ServerError::BindFailed(_) => "the peer listener could not bind".to_owned(),
            ServerError::LeaseConflict => "Node Lease is already owned".to_owned(),
            ServerError::LeaseUnconfirmed => "Node Lease acquisition could not be confirmed".to_owned(),
            ServerError::Coordination(_) => "Coordination Store is unavailable during startup".to_owned(),
            ServerError::InvalidListenAddress => "listen address must be host:port or :port".to_owned(),
            ServerError::Fenced => "the Server self-fenced after losing Node authority".to_owned(),
            ServerError::ServiceStopped => "the Server's transport or lease renewal stopped".to_owned(),
        }
    }
}

/// Why a Client was not built.
#[derive(Clone, Copy, Debug, PartialEq, Eq, Structural)]
pub enum ClientBuildError {
    InvalidOpenTimeout,
    InvalidPeerConnectTimeout,
    InvalidTransportConnectTimeout,
    InvalidMaxOpenAttempts,
    InvalidMaxConnectionsPerEndpoint,
}

impl ClientBuildError {
    /// What the error says.
    pub open spec fn text(self) -> Seq<char> {
        match self {
            ClientBuildError::InvalidOpenTimeout => "open timeout must be greater than zero"@,
            ClientBuildError::InvalidPeerConnectTimeout => "peer connection timeout must be greater than zero"@,
            ClientBuildError::InvalidTransportConnectTimeout => "transport connection timeout must be greater than zero"@,
            ClientBuildError::InvalidMaxOpenAttempts => "max_open_attempts must be greater than zero"@,
            ClientBuildError::InvalidMaxConnectionsPerEndpoint => "max_connections_per_endpoint must be greater than zero"@,
        }
    }

    /// The error as text.
    pub fn message(&self) -> (message: String)
        ensures
            message@ == self.text(),
    {
        match self {
            ClientBuildError::InvalidOpenTimeout => "open timeout must be greater than zero".to_owned(),
            ClientBuildError::InvalidPeerConnectTimeout => "peer connection timeout must be greater than zero".to_owned(),
            ClientBuildError::InvalidTransportConnectTimeout => "transport connection timeout must be greater than zero".to_owned(),
            ClientBuildError::InvalidMaxOpenAttempts => "max_open_attempts must be greater than zero".to_owned(),
            ClientBuildError::InvalidMaxConnectionsPerEndpoint => "max_connections_per_endpoint must be greater than zero".to_owned(),
        }
    }
}

/// Why a Session was not opened.
#[derive(Clone, Copy, Debug, PartialEq, Eq, Structural)]
pub enum OpenError {
    RuntimeStopped,
    DirectoryUnavailable,
    NoAvailableGateway,
    RemoteUnavailable,
    ActorTypeNotRegistered,
    RuntimeAtCapacity,
    OwnershipUnavailable,
    RemoteProtocol,
    AttemptsExhausted,
}

impl OpenError {
    /// What the error says.
    pub open spec fn text(self) -> Seq<char> {
        match self {
            OpenError::RuntimeStopped => "the Client runtime stopped"@,
            OpenError::DirectoryUnavailable => "the Node Directory is unavailable"@,
            OpenError::NoAvailableGateway => "the Node Directory has no available Gateway"@,
            OpenError::RemoteUnavailable => "the remote runtime is unavailable"@,
            OpenError::ActorTypeNotRegistered => "the Actor Type is not registered"@,
            OpenError::RuntimeAtCapacity => "the runtime has reached its Active Actor limit"@,
            OpenError::OwnershipUnavailable => "distributed ownership is unavailable"@,
            OpenError::RemoteProtocol => "the remote runtime rejected the protocol"@,
            OpenError::AttemptsExhausted => "the Session open attempts are exhausted"@,
        }
    }

    /// The error as text.
    pub fn message(&self) -> (message: String)
        ensures
            message@ == self.text(),
    {
        match self {
            OpenError::RuntimeStopped => "the Client runtime stopped".to_owned(),
            OpenError::DirectoryUnavailable => "the Node Directory is unavailable".to_owned(),
            OpenError::NoAvailableGateway => "the Node Directory has no available Gateway".to_owned(),
            OpenError::RemoteUnavailable => "the remote runtime is unavailable".to_owned(),
            OpenError::ActorTypeNotRegistered => "the Actor Type is not registered".to_owned(),
            OpenError::RuntimeAtCapacity => "the runtime has reached its Active Actor limit".to_owned(),
            OpenError::OwnershipUnavailable => "distributed ownership is unavailable".to_owned(),
            OpenError::RemoteProtocol => "the remote runtime rejected the protocol".to_owned(),
            OpenError::AttemptsExhausted => "the Session open attempts are exhausted".to_owned(),
        }
    }
}

/// How a remote runtime broke the protocol.
#[derive(Clone, Copy, Debug, PartialEq, Eq, Structural)]
pub enum RemoteProtocolError {
    VersionMismatch,
    ActorTypeNotRegistered,
    MalformedMessage,
}

impl RemoteProtocolError {
    /// What the error says.
    pub open spec fn text(self) -> Seq<char> {
        match self {
            RemoteProtocolError::VersionMismatch => "runtime protocol mismatch"@,
            RemoteProtocolError::ActorTypeNotRegistered => "Actor Type is not registered"@,
            RemoteProtocolError::MalformedMessage => "malformed session message"@,
        }
    }

    /// The error as text.
    pub fn message(&self) -> (message: String)
        ensures
            message@ == self.text(),
    {
        match self {
            RemoteProtocolError::VersionMismatch => "runtime protocol mismatch".to_owned(),
            RemoteProtocolError::ActorTypeNotRegistered => "Actor Type is not registered".to_owned(),
            RemoteProtocolError::MalformedMessage => "malformed session message".to_owned(),
        }
    }
}

/// Why a message or a Session failed.
#[derive(Clone, Debug, PartialEq, Eq)]
pub enum SendError {
    ActorTypeNotRegistered(String),
    NotOwner,
    MailboxFull,
    ActivationFailed,
    ActorDeactivating,
    RuntimeAtCapacity,
    RuntimeShuttingDown,
    ActorStopped,
    RuntimeStopped,
    NodeFenced,
    RemoteUnavailable,
    DirectoryUnavailable,
    NoAvailableGateway,
    OwnershipUnavailable,
    RemoteProtocol(RemoteProtocolError),
}

impl SendError {
    /// What the error says.
    pub open spec fn text(self) -> Seq<char> {
        match self {
            SendError::ActorTypeNotRegistered(name) => "Actor Type `"@ + name@ + "` is not registered"@,
            SendError::NotOwner => "the node does not own this Actor Address"@,
            SendError::MailboxFull => "the Active Actor mailbox is full"@,
            SendError::ActivationFailed => "the Active Actor failed to activate"@,
            SendError::ActorDeactivating => "the Active Actor is deactivating"@,
            SendError::RuntimeAtCapacity => "the runtime has reached its Active Actor limit"@,
            SendError::RuntimeShuttingDown => "the runtime is shutting down"@,
            SendError::ActorStopped => "the Active Actor stopped"@,
            SendError::RuntimeStopped => "the CoActor runtime stopped"@,
            SendError::NodeFenced => "the CoActor runtime lost Node authority"@,
            SendError::RemoteUnavailable => "the remote runtime is unavailable"@,
            SendError::DirectoryUnavailable => "the Node Directory is unavailable"@,
            SendError::NoAvailableGateway => "the Node Directory has no available Gateway"@,
            SendError::OwnershipUnavailable => "distributed ownership is unavailable"@,
            SendError::RemoteProtocol(inner) => "the remote runtime rejected the protocol: "@ + inner.text(),
        }
    }

    /// The error as text.
    pub fn message(&self) -> (message: String)
        ensures
            message@ == self.text(),
    {
        match self {
            SendError::ActorTypeNotRegistered(name) => "Actor Type `".to_owned().concat(name.as_str()).concat("` is not registered"),
            SendError::NotOwner => "the node does not own this Actor Address".to_owned(),
            SendError::MailboxFull => "the Active Actor mailbox is full".to_owned(),
            SendError::ActivationFailed => "the Active Actor failed to activate".to_owned(),
            SendError::ActorDeactivating => "the Active Actor is deactivating".to_owned(),
            SendError::RuntimeAtCapacity => "the runtime has reached its Active Actor limit".to_owned(),
            SendError::RuntimeShuttingDown => "the runtime is shutting down".to_owned(),
            SendError::ActorStopped => "the Active Actor stopped".to_owned(),
            SendError::RuntimeStopped => "the CoActor runtime stopped".to_owned(),
            SendError::NodeFenced => "the CoActor runtime lost Node authority".to_owned(),
            SendError::RemoteUnavailable => "the remote runtime is unavailable".to_owned(),
            SendError::DirectoryUnavailable => "the Node Directory is unavailable".to_owned(),
            SendError::NoAvailableGateway => "the Node Directory has no available Gateway".to_owned(),
            SendError::OwnershipUnavailable => "distributed ownership is unavailable".to_owned(),
            SendError::RemoteProtocol(inner) => "the remote runtime rejected the protocol: ".to_owned().concat(inner.message().as_str()),
        }
    }
}


/// The wire failure that stands for a send error.
pub open spec fn failure_of(error: SendError) -> RuntimeFailure {
    match error {
        SendError::ActorTypeNotRegistered(_) => RuntimeFailure::ActorTypeNotRegistered,
        SendError::NotOwner => RuntimeFailure::NotOwner,
        SendError::MailboxFull => RuntimeFailure::MailboxFull,
        SendError::ActivationFailed => RuntimeFailure::ActivationFailed,
        SendError::ActorDeactivating => RuntimeFailure::ActorDeactivating,
        SendError::RuntimeAtCapacity => RuntimeFailure::RuntimeAtCapacity,
        SendError::RuntimeShuttingDown => RuntimeFailure::RuntimeShuttingDown,
        SendError::ActorStopped => RuntimeFailure::ActorStopped,
        SendError::RuntimeStopped => RuntimeFailure::RuntimeStopped,
        SendError::NodeFenced => RuntimeFailure::NodeFenced,
        SendError::RemoteUnavailable => RuntimeFailure::RemoteUnavailable,
        SendError::DirectoryUnavailable => RuntimeFailure::RemoteUnavailable,
        SendError::NoAvailableGateway => RuntimeFailure::RemoteUnavailable,
        SendError::OwnershipUnavailable => RuntimeFailure::OwnershipUnavailable,
        SendError::RemoteProtocol(_) => RuntimeFailure::ProtocolMismatch,
    }
}

/// `error` is what a receiver reads from a wire failure. The name of an
/// unregistered Actor Type does not travel; a failure outside the Session
/// protocol reads as a version mismatch.
pub open spec fn reads_as(failure: RuntimeFailure, error: SendError) -> bool {
    match failure {
        RuntimeFailure::ActorTypeNotRegistered => error matches SendError::ActorTypeNotRegistered(
            name,
        ) && name@ == Seq::<char>::empty(),
        RuntimeFailure::NotOwner => error == SendError::NotOwner,
        RuntimeFailure::MailboxFull => error == SendError::MailboxFull,
        RuntimeFailure::ActivationFailed => error == SendError::ActivationFailed,
        RuntimeFailure::ActorDeactivating => error == SendError::ActorDeactivating,
        RuntimeFailure::RuntimeAtCapacity => error == SendError::RuntimeAtCapacity,
        RuntimeFailure::RuntimeShuttingDown => error == SendError::RuntimeShuttingDown,
        RuntimeFailure::ActorStopped => error == SendError::ActorStopped,
        RuntimeFailure::RuntimeStopped => error == SendError::RuntimeStopped,
        RuntimeFailure::NodeFenced => error == SendError::NodeFenced,
        RuntimeFailure::RemoteUnavailable => error == SendError::RemoteUnavailable,
        RuntimeFailure::OwnershipUnavailable => error == SendError::OwnershipUnavailable,
        RuntimeFailure::ProtocolMismatch
        | RuntimeFailure::CommandNotRegistered
        | RuntimeFailure::MalformedPayload
        | RuntimeFailure::Unspecified => error == SendError::RemoteProtocol(
            RemoteProtocolError::VersionMismatch,
        ),
    }
}

/// The same error, with the name of an Actor Type compared by its characters.
pub open spec fn same_error(left: SendError, right: SendError) -> bool {
    match left {
        SendError::ActorTypeNotRegistered(name) => right matches SendError::ActorTypeNotRegistered(
            other,
        ) && other@ == name@,
        _ => left == right,
    }
}

impl SendError {
    /// The number of this error on the wire.
    pub fn to_wire(&self) -> (code: i32)
        ensures
            code == failure_of(*self).code(),
    {
        let failure = match self {
            SendError::ActorTypeNotRegistered(_) => RuntimeFailure::ActorTypeNotRegistered,
            SendError::NotOwner => RuntimeFailure::NotOwner,
            SendError::MailboxFull => RuntimeFailure::MailboxFull,
            SendError::ActivationFailed => RuntimeFailure::ActivationFailed,
            SendError::ActorDeactivating => RuntimeFailure::ActorDeactivating,
            SendError::RuntimeAtCapacity => RuntimeFailure::RuntimeAtCapacity,
            SendError::RuntimeShuttingDown => RuntimeFailure::RuntimeShuttingDown,
            SendError::ActorStopped => RuntimeFailure::ActorStopped,
            SendError::RuntimeStopped => RuntimeFailure::RuntimeStopped,
            SendError::NodeFenced => RuntimeFailure::NodeFenced,
            SendError::RemoteUnavailable
            | SendError::DirectoryUnavailable
            | SendError::NoAvailableGateway => RuntimeFailure::RemoteUnavailable,
            SendError::OwnershipUnavailable => RuntimeFailure::OwnershipUnavailable,
            SendError::RemoteProtocol(_) => RuntimeFailure::ProtocolMismatch,
        };
        failure.to_code()
    }

    /// The error that a number on the wire stands for. A number that names no
    /// failure reads as an unspecified one.
    pub fn from_wire(value: i32) -> (error: Self)
        ensures
            reads_as(failure_from_code(value), error),
    {
        match RuntimeFailure::from_code(value) {
            RuntimeFailure::ActorTypeNotRegistered => SendError::ActorTypeNotRegistered(
                String::new(),
            ),
            RuntimeFailure::NotOwner => SendError::NotOwner,
            RuntimeFailure::MailboxFull => SendError::MailboxFull,
            RuntimeFailure::ActivationFailed => SendError::ActivationFailed,
            RuntimeFailure::ActorDeactivating => SendError::ActorDeactivating,
            RuntimeFailure::RuntimeAtCapacity => SendError::RuntimeAtCapacity,
            RuntimeFailure::RuntimeShuttingDown => SendError::RuntimeShuttingDown,
            RuntimeFailure::ActorStopped => SendError::ActorStopped,
            RuntimeFailure::RuntimeStopped => SendError::RuntimeStopped,
            RuntimeFailure::NodeFenced => SendError::NodeFenced,
            RuntimeFailure::RemoteUnavailable => SendError::RemoteUnavailable,
            RuntimeFailure::OwnershipUnavailable => SendError::OwnershipUnavailable,
            _ => SendError::RemoteProtocol(RemoteProtocolError::VersionMismatch),
        }
    }

    /// A second error that says the same.
    pub fn duplicate(&self) -> (copy: Self)
        ensures
            same_error(*self, copy),
            same_error(copy, *self),
    {
        match self {
            SendError::ActorTypeNotRegistered(name) => SendError::ActorTypeNotRegistered(
                name.clone(),
            ),
            SendError::NotOwner => SendError::NotOwner,
            SendError::MailboxFull => SendError::MailboxFull,
            SendError::ActivationFailed => SendError::ActivationFailed,
            SendError::ActorDeactivating => SendError::ActorDeactivating,
            SendError::RuntimeAtCapacity => SendError::RuntimeAtCapacity,
            SendError::RuntimeShuttingDown => SendError::RuntimeShuttingDown,
            SendError::ActorStopped => SendError::ActorStopped,
            SendError::RuntimeStopped => SendError::RuntimeStopped,
            SendError::NodeFenced => SendError::NodeFenced,
            SendError::RemoteUnavailable => SendError::RemoteUnavailable,
            SendError::DirectoryUnavailable => SendError::DirectoryUnavailable,
            SendError::NoAvailableGateway => SendError::NoAvailableGateway,
            SendError::OwnershipUnavailable => SendError::OwnershipUnavailable,
            SendError::RemoteProtocol(inner) => SendError::RemoteProtocol(*inner),
        }
    }
}

/// An error keeps its meaning across the wire: what the receiver reads from
/// the number that the sender wrote is the same error, except that the name of
/// an unregistered Actor Type is lost, that the two Directory failures arrive as
/// an unavailable remote, and that every protocol error arrives as a version
/// mismatch.
pub proof fn law_error_survives_the_wire(sent: SendError, received: SendError)
    requires
        reads_as(failure_from_code(failure_of(sent).code()), received),
    ensures
        match sent {
            SendError::ActorTypeNotRegistered(_) => received matches SendError::ActorTypeNotRegistered(
                name,
            ) && name@ == Seq::<char>::empty(),
            SendError::DirectoryUnavailable | SendError::NoAvailableGateway => received
                == SendError::RemoteUnavailable,
            SendError::RemoteProtocol(_) => received == SendError::RemoteProtocol(
                RemoteProtocolError::VersionMismatch,
            ),
            _ => received == sent,
        },
{
}

/// The open error that a failed Session message ends in.
pub open spec fn open_error_of(error: SendError) -> OpenError {
    match error {
        SendError::RuntimeStopped | SendError::RuntimeShuttingDown => OpenError::RuntimeStopped,
        SendError::DirectoryUnavailable => OpenError::DirectoryUnavailable,
        SendError::NoAvailableGateway => OpenError::NoAvailableGateway,
        SendError::ActorTypeNotRegistered(_) => OpenError::ActorTypeNotRegistered,
        SendError::RuntimeAtCapacity => OpenError::RuntimeAtCapacity,
        SendError::OwnershipUnavailable => OpenError::OwnershipUnavailable,
        SendError::RemoteProtocol(_) => OpenError::RemoteProtocol,
        _ => OpenError::RemoteUnavailable,
    }
}

impl vstd::std_specs::convert::FromSpecImpl<SendError> for OpenError {
    open spec fn obeys_from_spec() -> bool {
        true
    }

    open spec fn from_spec(error: SendError) -> OpenError {
        open_error_of(error)
    }
}

impl From<SendError> for OpenError {
    fn from(error: SendError) -> (open: Self) {
        match error {
            SendError::RuntimeStopped | SendError::RuntimeShuttingDown => OpenError::RuntimeStopped,
            SendError::DirectoryUnavailable => OpenError::DirectoryUnavailable,
            SendError::NoAvailableGateway => OpenError::NoAvailableGateway,
            SendError::ActorTypeNotRegistered(_) => OpenError::ActorTypeNotRegistered,
            SendError::RuntimeAtCapacity => OpenError::RuntimeAtCapacity,
            SendError::OwnershipUnavailable => OpenError::OwnershipUnavailable,
            SendError::RemoteProtocol(_) => OpenError::RemoteProtocol,
            _ => OpenError::RemoteUnavailable,
        }
    }
}

/// Every error that ends a Session message has one error of an opening that stands
/// for it; what has none of its own means that the remote is unavailable.
pub proof fn law_open_errors_keep_the_cause(error: SendError)
    ensures
        open_error_of(error) == OpenError::RuntimeStopped <==> error == SendError::RuntimeStopped
            || error == SendError::RuntimeShuttingDown,
        open_error_of(error) == OpenError::DirectoryUnavailable <==> error
            == SendError::DirectoryUnavailable,
        open_error_of(error) == OpenError::NoAvailableGateway <==> error
            == SendError::NoAvailableGateway,
        open_error_of(error) == OpenError::ActorTypeNotRegistered <==> error
            is ActorTypeNotRegistered,
        open_error_of(error) == OpenError::RuntimeAtCapacity <==> error
            == SendError::RuntimeAtCapacity,
        open_error_of(error) == OpenError::OwnershipUnavailable <==> error
            == SendError::OwnershipUnavailable,
        open_error_of(error) == OpenError::RemoteProtocol <==> error is RemoteProtocol,
        open_error_of(error) == OpenError::RemoteUnavailable <==> error == SendError::NotOwner
            || error == SendError::MailboxFull || error == SendError::ActivationFailed || error
            == SendError::ActorDeactivating || error == SendError::ActorStopped || error
            == SendError::NodeFenced || error == SendError::RemoteUnavailable,
        open_error_of(error) != OpenError::AttemptsExhausted,
{
}

/// The number of an error on the wire is the number of its own kind: errors that
/// share one are the same to the receiver.
pub proof fn law_wire_numbers_tell_errors_apart(error: SendError)
    ensures
        failure_of(error).code() == match error {
            SendError::MailboxFull => 1int,
            SendError::ActivationFailed => 2,
            SendError::ActorDeactivating => 3,
            SendError::RuntimeAtCapacity => 4,
            SendError::RuntimeShuttingDown => 5,
            SendError::ActorStopped => 6,
            SendError::RuntimeStopped => 7,
            SendError::RemoteProtocol(_) => 8,
            SendError::ActorTypeNotRegistered(_) => 9,
            SendError::NodeFenced => 12,
            SendError::RemoteUnavailable => 13,
            SendError::DirectoryUnavailable => 13,
            SendError::NoAvailableGateway => 13,
            SendError::OwnershipUnavailable => 14,
            SendError::NotOwner => 15,
        },
{
}

/// Two errors that count as the same are of one kind, and name the same Actor Type.
pub proof fn law_same_errors_are_equal(left: SendError, right: SendError)
    requires
        same_error(left, right),
    ensures
        failure_of(left) == failure_of(right),
        left is ActorTypeNotRegistered || left == right,
        left matches SendError::ActorTypeNotRegistered(name) ==> right matches
            SendError::ActorTypeNotRegistered(other) && name@ == other@,
{
}

} // verus!
