//! Addresses, errors and policy of the command runtime.

use std::time::Duration;

use vstd::prelude::*;
use vstd::string::*;
use vstd::utf8::*;

use crate::keyed::Key;
use crate::runtime::inbound::copy_bytes;

verus! {

/// The identity of an Actor within its type: any bytes.
#[derive(Debug, PartialEq, Eq, Hash)]
pub struct ActorId {
    bytes: Vec<u8>,
}

impl View for ActorId {
    type V = Seq<u8>;

    closed spec fn view(&self) -> Seq<u8> {
        self.bytes@
    }
}

impl ActorId {
    /// The identity made of these bytes.
    pub fn new(bytes: Vec<u8>) -> (id: Self)
        ensures
            id@ == bytes@,
    {
        ActorId { bytes }
    }

    /// The identity made of a text.
    pub fn from_text(value: &str) -> (id: Self)
        ensures
            id@ == encode_utf8(value@),
    {
        ActorId { bytes: value.as_bytes_vec() }
    }

    /// The bytes of the identity.
    pub fn as_bytes(&self) -> (bytes: &[u8])
        ensures
            bytes@ == self@,
    {
        self.bytes.as_slice()
    }
}

pub(crate) fn same_bytes(left: &Vec<u8>, right: &Vec<u8>) -> (same: bool)
    ensures
        same == (left@ == right@),
{
    if left.len() != right.len() {
        return false;
    }
    let mut i: usize = 0;
    while i < left.len()
        invariant
            left@.len() == right@.len(),
            i <= left@.len(),
            forall|j: int| 0 <= j < i ==> left@[j] == right@[j],
        decreases left@.len() - i,
    {
        if left[i] != right[i] {
            assert(left@[i as int] != right@[i as int]);
            return false;
        }
        i += 1;
    }
    assert(left@ =~= right@);
    true
}

impl Key for ActorId {
    fn same(&self, other: &Self) -> (same: bool) {
        same_bytes(&self.bytes, &other.bytes)
    }

    fn duplicate(&self) -> (copy: Self) {
        ActorId { bytes: copy_bytes(&self.bytes) }
    }
}

impl Clone for ActorId {
    fn clone(&self) -> (copy: Self)
        ensures
            copy@ == self@,
    {
        self.duplicate()
    }
}

/// The logical address of an Actor of the command runtime.
#[derive(Debug, PartialEq, Eq, Hash)]
pub struct ActorAddress {
    actor_type: String,
    actor_id: ActorId,
}

/// An address as a mathematical value.
pub struct AddressView {
    pub actor_type: Seq<char>,
    pub actor_id: Seq<u8>,
}

impl View for ActorAddress {
    type V = AddressView;

    closed spec fn view(&self) -> AddressView {
        AddressView { actor_type: self.actor_type@, actor_id: self.actor_id@ }
    }
}

/// A number in four bytes, the highest first.
pub open spec fn four_bytes(n: int) -> Seq<u8> {
    seq![
        (n / 0x100_0000 % 256) as u8,
        (n / 0x1_0000 % 256) as u8,
        (n / 0x100 % 256) as u8,
        (n % 256) as u8,
    ]
}

/// The bytes of an address: the length of its type in four bytes, as far as it
/// fits, then its type, then its ID.
pub open spec fn address_bytes(address: AddressView) -> Seq<u8> {
    let name = encode_utf8(address.actor_type);
    four_bytes(name.len() as int) + name + address.actor_id
}

impl ActorAddress {
    /// The address of an Actor.
    pub fn new(actor_type: String, actor_id: ActorId) -> (address: Self)
        ensures
            address@ == (AddressView { actor_type: actor_type@, actor_id: actor_id@ }),
    {
        ActorAddress { actor_type, actor_id }
    }

    /// The type of the Actor.
    pub fn actor_type(&self) -> (actor_type: &str)
        ensures
            actor_type@ == self@.actor_type,
    {
        self.actor_type.as_str()
    }

    /// The ID of the Actor within its type.
    pub fn actor_id(&self) -> (actor_id: &ActorId)
        ensures
            actor_id@ == self@.actor_id,
    {
        &self.actor_id
    }

    /// The address as bytes.
    pub fn to_bytes(&self) -> (bytes: Vec<u8>)
        ensures
            bytes@ == address_bytes(self@),
    {
        let name = self.actor_type.as_str().as_bytes_vec();
        let len: u64 = name.len() as u64;
        let mut bytes: Vec<u8> = Vec::new();
        bytes.push((len / 0x100_0000 % 256) as u8);
        bytes.push((len / 0x1_0000 % 256) as u8);
        bytes.push((len / 0x100 % 256) as u8);
        bytes.push((len % 256) as u8);
        assert(bytes@ =~= four_bytes(len as int));
        bytes.extend_from_slice(name.as_slice());
        bytes.extend_from_slice(self.actor_id.as_bytes());
        assert(bytes@ =~= address_bytes(self@));
        bytes
    }
}

impl Key for ActorAddress {
    fn same(&self, other: &Self) -> (same: bool) {
        self.actor_type == other.actor_type && self.actor_id.same(&other.actor_id)
    }

    fn duplicate(&self) -> (copy: Self) {
        ActorAddress { actor_type: self.actor_type.clone(), actor_id: self.actor_id.duplicate() }
    }
}

impl Clone for ActorAddress {
    fn clone(&self) -> (copy: Self)
        ensures
            copy@ == self@,
    {
        self.duplicate()
    }
}

proof fn lemma_four_bytes(n: int)
    requires
        0 <= n < 0x1_0000_0000,
    ensures
        n == four_bytes(n)[0] * 0x100_0000 + four_bytes(n)[1] * 0x1_0000 + four_bytes(n)[2] * 0x100
            + four_bytes(n)[3],
{
    let b3 = n / 0x100_0000;
    let b2 = n / 0x1_0000;
    let b1 = n / 0x100;
    assert(b2 / 256 == b3);
    assert(b1 / 256 == b2);
    assert(b3 % 256 == b3);
    assert(b2 == b3 * 256 + b2 % 256);
    assert(b1 == b2 * 256 + b1 % 256);
    assert(n == b1 * 256 + n % 256);
}

/// Two addresses with the same bytes are the same address, as long as their
/// types are shorter than four bytes can tell.
pub proof fn law_address_bytes_are_injective(left: AddressView, right: AddressView)
    requires
        encode_utf8(left.actor_type).len() < 0x1_0000_0000,
        encode_utf8(right.actor_type).len() < 0x1_0000_0000,
        address_bytes(left) == address_bytes(right),
    ensures
        left == right,
{
    let l = encode_utf8(left.actor_type);
    let r = encode_utf8(right.actor_type);
    let lb = address_bytes(left);
    let rb = address_bytes(right);
    let ln = l.len() as int;
    let rn = r.len() as int;
    assert(lb[0] == four_bytes(ln)[0] && rb[0] == four_bytes(rn)[0]);
    assert(lb[1] == four_bytes(ln)[1] && rb[1] == four_bytes(rn)[1]);
    assert(lb[2] == four_bytes(ln)[2] && rb[2] == four_bytes(rn)[2]);
    assert(lb[3] == four_bytes(ln)[3] && rb[3] == four_bytes(rn)[3]);
    lemma_four_bytes(ln);
    lemma_four_bytes(rn);
    assert(ln == rn);
    assert(l =~= lb.subrange(4, 4 + ln));
    assert(r =~= rb.subrange(4, 4 + ln));
    encode_utf8_decode_utf8(left.actor_type);
    encode_utf8_decode_utf8(right.actor_type);
    assert(left.actor_id =~= lb.subrange(4 + ln, lb.len() as int));
    assert(right.actor_id =~= rb.subrange(4 + ln, rb.len() as int));
}

/// What a command gets to see of the Actor it is for.
pub struct CommandContext {
    address: ActorAddress,
}

impl CommandContext {
    /// The address of the Actor.
    pub closed spec fn address(&self) -> AddressView {
        self.address@
    }

    /// The context of a command for an Actor.
    pub fn new(address: &ActorAddress) -> (context: Self)
        ensures
            context.address() == address@,
    {
        CommandContext { address: address.duplicate() }
    }

    /// The ID of the Actor within its type.
    pub fn actor_id(&self) -> (actor_id: &ActorId)
        ensures
            actor_id@ == self.address().actor_id,
    {
        self.address.actor_id()
    }

    /// The address of the Actor.
    pub fn actor_address(&self) -> (address: &ActorAddress)
        ensures
            address@ == self.address(),
    {
        &self.address
    }
}

/// Why a command runtime was not built.
#[derive(Clone, Debug, PartialEq, Eq)]
pub enum BuildError {
    DuplicateActorType(&'static str),
    InvalidMailboxCapacity,
    InvalidMaxActiveActors,
}

impl BuildError {
    /// What the error says.
    pub open spec fn text(self) -> Seq<char> {
        match self {
            BuildError::DuplicateActorType(name) => "Actor Type `"@ + name@ + "` was registered more than once"@,
            BuildError::InvalidMailboxCapacity => "mailbox capacity must be greater than zero"@,
            BuildError::InvalidMaxActiveActors => "max_active_actors must be greater than zero"@,
        }
    }

    /// The error as text.
    pub fn message(&self) -> (message: String)
        ensures
            message@ == self.text(),
    {
        match self {
            BuildError::DuplicateActorType(name) => "Actor Type `".to_owned().concat(name).concat("` was registered more than once"),
            BuildError::InvalidMailboxCapacity => "mailbox capacity must be greater than zero".to_owned(),
            BuildError::InvalidMaxActiveActors => "max_active_actors must be greater than zero".to_owned(),
        }
    }
}

/// Why there is no reference to an Actor.
#[derive(Clone, Debug, PartialEq, Eq)]
pub enum ActorRefError {
    ActorTypeNotRegistered(&'static str),
}

impl ActorRefError {
    /// What the error says.
    pub open spec fn text(self) -> Seq<char> {
        match self {
            ActorRefError::ActorTypeNotRegistered(name) => "Actor Type `"@ + name@ + "` is not registered"@,
        }
    }

    /// The error as text.
    pub fn message(&self) -> (message: String)
        ensures
            message@ == self.text(),
    {
        match self {
            ActorRefError::ActorTypeNotRegistered(name) => "Actor Type `".to_owned().concat(name).concat("` is not registered"),
        }
    }
}

/// How a remote runtime broke the command protocol.
#[derive(Clone, Copy, Debug, PartialEq, Eq, Structural)]
pub enum RemoteProtocolError {
    VersionMismatch,
    ActorTypeNotRegistered,
    CommandNotRegistered,
    MalformedRequest,
    MalformedSuccess,
    MalformedHandlerError,
    UnexpectedHandlerError,
}

impl RemoteProtocolError {
    /// What the error says.
    pub open spec fn text(self) -> Seq<char> {
        match self {
            RemoteProtocolError::VersionMismatch => "runtime protocol mismatch"@,
            RemoteProtocolError::ActorTypeNotRegistered => "Actor Type is not registered"@,
            RemoteProtocolError::CommandNotRegistered => "command is not registered"@,
            RemoteProtocolError::MalformedRequest => "malformed request payload"@,
            RemoteProtocolError::MalformedSuccess => "malformed success payload"@,
            RemoteProtocolError::MalformedHandlerError => "malformed handler error payload"@,
            RemoteProtocolError::UnexpectedHandlerError => "unexpected handler error payload"@,
        }
    }

    /// The error as text.
    pub fn message(&self) -> (message: String)
        ensures
            message@ == self.text(),
    {
        match self {
            RemoteProtocolError::VersionMismatch => "runtime protocol mismatch".to_owned(),
            RemoteProtocolError::ActorTypeNotRegistered => "Actor Type is not registered".to_owned(),
            RemoteProtocolError::CommandNotRegistered => "command is not registered".to_owned(),
            RemoteProtocolError::MalformedRequest => "malformed request payload".to_owned(),
            RemoteProtocolError::MalformedSuccess => "malformed success payload".to_owned(),
            RemoteProtocolError::MalformedHandlerError => "malformed handler error payload".to_owned(),
            RemoteProtocolError::UnexpectedHandlerError => "unexpected handler error payload".to_owned(),
        }
    }
}


/// Why a command failed. `E` is the error of the Actor's own handler.
#[derive(Debug, PartialEq, Eq)]
pub enum SendError<E> {
    HandlerError(E),
    MailboxFull,
    ActivationFailed,
    ActorDeactivating,
    RuntimeAtCapacity,
    RuntimeShuttingDown,
    ActorStopped,
    RuntimeStopped,
    NodeFenced,
    RemoteUnavailable,
    OwnershipUnavailable,
    OutcomeUnknown,
    RemoteProtocol(RemoteProtocolError),
}

/// Per-Actor-Type policy of the command runtime.
#[derive(Clone, Copy, Debug)]
pub struct ActorTypeConfig {
    pub mailbox_capacity: Option<usize>,
    pub idle_timeout: Option<Duration>,
}

impl Default for ActorTypeConfig {
    fn default() -> (config: Self)
        ensures
            config == (ActorTypeConfig { mailbox_capacity: None, idle_timeout: None }),
    {
        ActorTypeConfig { mailbox_capacity: None, idle_timeout: None }
    }
}

impl ActorTypeConfig {
    /// A configuration that leaves all policy open.
    pub fn new() -> (config: Self)
        ensures
            config == (ActorTypeConfig { mailbox_capacity: None, idle_timeout: None }),
    {
        ActorTypeConfig { mailbox_capacity: None, idle_timeout: None }
    }

    /// Overrides the mailbox capacity.
    pub fn mailbox_capacity(self, capacity: usize) -> (config: Self)
        ensures
            config == (ActorTypeConfig { mailbox_capacity: Some(capacity), ..self }),
    {
        ActorTypeConfig { mailbox_capacity: Some(capacity), ..self }
    }

    /// Overrides the idle timeout.
    pub fn idle_timeout(self, timeout: Duration) -> (config: Self)
        ensures
            config == (ActorTypeConfig { idle_timeout: Some(timeout), ..self }),
    {
        ActorTypeConfig { idle_timeout: Some(timeout), ..self }
    }
}

/// The bytes of an address start with the length of its type, the highest byte first, and go
/// on with its type and its ID.
pub proof fn law_address_bytes_are_framed(address: AddressView)
    requires
        encode_utf8(address.actor_type).len() < 0x1_0000_0000,
    ensures
        ({
            let name = encode_utf8(address.actor_type);
            let bytes = address_bytes(address);
            &&& bytes.len() == 4 + name.len() + address.actor_id.len()
            &&& bytes[0] * 0x100_0000 + bytes[1] * 0x1_0000 + bytes[2] * 0x100 + bytes[3]
                == name.len()
            &&& bytes.subrange(4, 4 + name.len() as int) == name
            &&& bytes.skip(4 + name.len() as int) == address.actor_id
        }),
{
    let name = encode_utf8(address.actor_type);
    let bytes = address_bytes(address);
    lemma_four_bytes(name.len() as int);
    assert(bytes.take(4) =~= four_bytes(name.len() as int));
    assert(bytes.subrange(4, 4 + name.len() as int) =~= name);
    assert(bytes.skip(4 + name.len() as int) =~= address.actor_id);
}

} // verus!
