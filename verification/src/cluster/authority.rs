//! The records of the Coordination Store.

use vstd::prelude::*;
use vstd::string::*;

use crate::keyed::Key;
use crate::runtime::session::random_uuid_bytes;

verus! {

/// One life of a Server process, as it appears in leases and ownership records.
#[derive(Debug, PartialEq, Eq, Hash)]
pub struct NodeSessionId {
    text: String,
}

impl View for NodeSessionId {
    type V = Seq<char>;

    closed spec fn view(&self) -> Seq<char> {
        self.text@
    }
}

/// A lowercase hexadecimal digit.
pub open spec fn is_lower_hex(c: char) -> bool {
    ('0' <= c && c <= '9') || ('a' <= c && c <= 'f')
}

/// The text of a random UUID: groups of lowercase hexadecimal digits, with
/// hyphens between them, the version digit at the head of the third group and
/// one of the four variant digits at the head of the fourth.
pub open spec fn uuid_text(text: Seq<char>) -> bool {
    &&& text.len() == 36
    &&& text[14] == '4'
    &&& text[19] == '8' || text[19] == '9' || text[19] == 'a' || text[19] == 'b'
    &&& forall|i: int|
        0 <= i < 36 ==> if i == 8 || i == 13 || i == 18 || i == 23 {
            #[trigger] text[i] == '-'
        } else {
            is_lower_hex(text[i])
        }
}

/// The position of a UUID's digit among its 32 digits, from its position in the
/// hyphenated text.
pub open spec fn digit_position(i: int) -> int {
    if i < 8 {
        i
    } else if i < 13 {
        i - 1
    } else if i < 18 {
        i - 2
    } else if i < 23 {
        i - 3
    } else {
        i - 4
    }
}

/// A lowercase hexadecimal digit, from its value.
pub open spec fn lower_hex(value: u8) -> char {
    if value < 10 {
        (0x30 + value) as char
    } else {
        (0x57 + value) as char
    }
}

/// The hyphenated text of a UUID: two lowercase hexadecimal digits for each
/// byte, in groups of 8, 4, 4, 4 and 12 digits.
pub open spec fn hyphenated(bytes: Seq<u8>) -> Seq<char> {
    Seq::new(
        36,
        |i: int|
            if i == 8 || i == 13 || i == 18 || i == 23 {
                '-'
            } else if digit_position(i) % 2 == 0 {
                lower_hex(bytes[digit_position(i) / 2] / 16)
            } else {
                lower_hex(bytes[digit_position(i) / 2] % 16)
            },
    )
}

/// `uuid::Uuid::from_bytes`, and `to_string` on its result: the hyphenated text
/// of the UUID that the bytes stand for, in lowercase.
#[verifier::external_body]
pub(crate) fn uuid_to_text(bytes: [u8; 16]) -> (text: String)
    ensures
        text@ == hyphenated(bytes@),
{
    uuid::Uuid::from_bytes(bytes).to_string()
}

impl NodeSessionId {
    /// A new identity: the text of a random UUID.
    pub fn generate() -> (id: Self)
        ensures
            uuid_text(id@),
    {
        let bytes = random_uuid_bytes();
        let ghost version = bytes@[6];
        let ghost variant = bytes@[8];
        assert(version / 16 == 4) by (bit_vector)
            requires
                version & 0xf0 == 0x40,
        ;
        assert(8 <= variant / 16 <= 11) by (bit_vector)
            requires
                variant & 0xc0 == 0x80,
        ;
        NodeSessionId { text: uuid_to_text(bytes) }
    }

    /// The identity that a stored record names.
    pub fn from_text(text: String) -> (id: Self)
        ensures
            id@ == text@,
    {
        NodeSessionId { text }
    }

    /// The identity as text.
    pub fn as_str(&self) -> (text: &str)
        ensures
            text@ == self@,
    {
        self.text.as_str()
    }
}

impl Key for NodeSessionId {
    fn same(&self, other: &Self) -> (same: bool) {
        self.text == other.text
    }

    fn duplicate(&self) -> (copy: Self) {
        NodeSessionId { text: self.text.clone() }
    }
}

impl Clone for NodeSessionId {
    fn clone(&self) -> (copy: Self)
        ensures
            copy@ == self@,
    {
        self.duplicate()
    }
}

/// What a Server publishes of itself under its Node Lease.
#[derive(Debug, PartialEq, Eq, Hash)]
pub struct NodeRecord {
    pub node_id: String,
    pub session_id: NodeSessionId,
    pub advertised_endpoint: String,
    pub protocol_version: u32,
    pub lease_generation: u64,
    pub sampled_at_unix_ms: u64,
    pub active_actor_count: usize,
    pub max_actor_count: usize,
    pub pressured: bool,
    pub draining: bool,
}

/// A node record as a mathematical value.
pub struct NodeView {
    pub node_id: Seq<char>,
    pub session_id: Seq<char>,
    pub advertised_endpoint: Seq<char>,
    pub protocol_version: u32,
    pub lease_generation: u64,
    pub sampled_at_unix_ms: u64,
    pub active_actor_count: usize,
    pub max_actor_count: usize,
    pub pressured: bool,
    pub draining: bool,
}

impl View for NodeRecord {
    type V = NodeView;

    open spec fn view(&self) -> NodeView {
        NodeView {
            node_id: self.node_id@,
            session_id: self.session_id@,
            advertised_endpoint: self.advertised_endpoint@,
            protocol_version: self.protocol_version,
            lease_generation: self.lease_generation,
            sampled_at_unix_ms: self.sampled_at_unix_ms,
            active_actor_count: self.active_actor_count,
            max_actor_count: self.max_actor_count,
            pressured: self.pressured,
            draining: self.draining,
        }
    }
}

impl Key for NodeRecord {
    fn same(&self, other: &Self) -> (same: bool) {
        self.node_id == other.node_id && self.session_id.same(&other.session_id)
            && self.advertised_endpoint == other.advertised_endpoint && self.protocol_version
            == other.protocol_version && self.lease_generation == other.lease_generation
            && self.sampled_at_unix_ms == other.sampled_at_unix_ms && self.active_actor_count
            == other.active_actor_count && self.max_actor_count == other.max_actor_count
            && self.pressured == other.pressured && self.draining == other.draining
    }

    fn duplicate(&self) -> (copy: Self) {
        NodeRecord {
            node_id: self.node_id.clone(),
            session_id: self.session_id.duplicate(),
            advertised_endpoint: self.advertised_endpoint.clone(),
            protocol_version: self.protocol_version,
            lease_generation: self.lease_generation,
            sampled_at_unix_ms: self.sampled_at_unix_ms,
            active_actor_count: self.active_actor_count,
            max_actor_count: self.max_actor_count,
            pressured: self.pressured,
            draining: self.draining,
        }
    }
}

impl Clone for NodeRecord {
    fn clone(&self) -> (copy: Self)
        ensures
            copy@ == self@,
    {
        self.duplicate()
    }
}

/// The version of a stored record, for conditional writes.
#[derive(Debug, PartialEq, Eq)]
pub struct Revision {
    text: String,
}

impl View for Revision {
    type V = Seq<char>;

    closed spec fn view(&self) -> Seq<char> {
        self.text@
    }
}

impl Revision {
    /// The revision that a store names.
    pub fn new(value: String) -> (revision: Self)
        ensures
            revision@ == value@,
    {
        Revision { text: value }
    }

    /// The revision as text.
    pub fn as_str(&self) -> (text: &str)
        ensures
            text@ == self@,
    {
        self.text.as_str()
    }
}

impl Key for Revision {
    fn same(&self, other: &Self) -> (same: bool) {
        self.text == other.text
    }

    fn duplicate(&self) -> (copy: Self) {
        Revision { text: self.text.clone() }
    }
}

impl Clone for Revision {
    fn clone(&self) -> (copy: Self)
        ensures
            copy@ == self@,
    {
        self.duplicate()
    }
}

/// The life of a Server that owns an Actor.
#[derive(Debug, PartialEq, Eq)]
pub struct ActorOwner {
    pub node_id: String,
    pub session_id: NodeSessionId,
}

/// An owner as a mathematical value.
pub struct OwnerView {
    pub node_id: Seq<char>,
    pub session_id: Seq<char>,
}

impl View for ActorOwner {
    type V = OwnerView;

    open spec fn view(&self) -> OwnerView {
        OwnerView { node_id: self.node_id@, session_id: self.session_id@ }
    }
}

impl Key for ActorOwner {
    fn same(&self, other: &Self) -> (same: bool) {
        self.node_id == other.node_id && self.session_id.same(&other.session_id)
    }

    fn duplicate(&self) -> (copy: Self) {
        ActorOwner { node_id: self.node_id.clone(), session_id: self.session_id.duplicate() }
    }
}

impl Clone for ActorOwner {
    fn clone(&self) -> (copy: Self)
        ensures
            copy@ == self@,
    {
        self.duplicate()
    }
}

/// Who owns an Actor, and how many times ownership has been taken.
#[derive(Debug, PartialEq, Eq)]
pub struct ActorOwnerRecord {
    pub owner: Option<ActorOwner>,
    pub ownership_epoch: u64,
}

/// An ownership record as a mathematical value.
pub struct RecordView {
    pub owner: Option<OwnerView>,
    pub ownership_epoch: u64,
}

impl View for ActorOwnerRecord {
    type V = RecordView;

    open spec fn view(&self) -> RecordView {
        RecordView {
            owner: match self.owner {
                Some(owner) => Some(owner@),
                None => None,
            },
            ownership_epoch: self.ownership_epoch,
        }
    }
}

/// The record of an Actor that nobody owns.
pub open spec fn unowned_record(ownership_epoch: u64) -> RecordView {
    RecordView { owner: None, ownership_epoch }
}

impl ActorOwnerRecord {
    /// The record of an Actor that nobody owns.
    pub fn unowned(ownership_epoch: u64) -> (record: Self)
        ensures
            record@ == unowned_record(ownership_epoch),
    {
        ActorOwnerRecord { owner: None, ownership_epoch }
    }
}

impl Key for ActorOwnerRecord {
    fn same(&self, other: &Self) -> (same: bool) {
        let same_owner = match (&self.owner, &other.owner) {
            (Some(left), Some(right)) => left.same(right),
            (None, None) => true,
            _ => false,
        };
        same_owner && self.ownership_epoch == other.ownership_epoch
    }

    fn duplicate(&self) -> (copy: Self) {
        ActorOwnerRecord {
            owner: match &self.owner {
                Some(owner) => Some(owner.duplicate()),
                None => None,
            },
            ownership_epoch: self.ownership_epoch,
        }
    }
}

impl Clone for ActorOwnerRecord {
    fn clone(&self) -> (copy: Self)
        ensures
            copy@ == self@,
    {
        self.duplicate()
    }
}

/// An ownership record with the revision it was read at.
#[derive(Debug, PartialEq, Eq)]
pub struct VersionedActorOwnerRecord {
    pub record: ActorOwnerRecord,
    pub revision: Revision,
}

/// A versioned ownership record as a mathematical value.
pub struct VersionedView {
    pub record: RecordView,
    pub revision: Seq<char>,
}

impl View for VersionedActorOwnerRecord {
    type V = VersionedView;

    open spec fn view(&self) -> VersionedView {
        VersionedView { record: self.record@, revision: self.revision@ }
    }
}

impl Clone for VersionedActorOwnerRecord {
    fn clone(&self) -> (copy: Self)
        ensures
            copy@ == self@,
    {
        VersionedActorOwnerRecord {
            record: self.record.duplicate(),
            revision: self.revision.duplicate(),
        }
    }
}

/// What kind of failure the Coordination Store reported.
#[derive(Clone, Copy, Debug, PartialEq, Eq, Structural)]
pub enum CoordinationErrorKind {
    Unavailable,
    PermissionDenied,
    InvalidData,
}

/// A failure of the Coordination Store, with the text of what caused it.
#[derive(Debug)]
pub struct CoordinationError {
    kind: CoordinationErrorKind,
    source: Option<String>,
}

impl CoordinationError {
    /// The kind of the failure.
    pub closed spec fn spec_kind(&self) -> CoordinationErrorKind {
        self.kind
    }

    /// The text of what caused it.
    pub closed spec fn spec_source(&self) -> Option<Seq<char>> {
        match self.source {
            Some(source) => Some(source@),
            None => None,
        }
    }

    /// A failure with the text of what caused it.
    pub fn new(kind: CoordinationErrorKind, source: String) -> (error: Self)
        ensures
            error.spec_kind() == kind,
            error.spec_source() == Some(source@),
    {
        CoordinationError { kind, source: Some(source) }
    }

    /// A failure without a further cause.
    pub fn from_kind(kind: CoordinationErrorKind) -> (error: Self)
        ensures
            error.spec_kind() == kind,
            error.spec_source() is None,
    {
        CoordinationError { kind, source: None }
    }

    /// The kind of the failure.
    pub fn kind(&self) -> (kind: CoordinationErrorKind)
        ensures
            kind == self.spec_kind(),
    {
        self.kind
    }

    /// The text of what caused it.
    pub fn source(&self) -> (source: Option<&str>)
        ensures
            source is Some == self.spec_source() is Some,
            source matches Some(s) ==> self.spec_source() == Some(s@),
    {
        match &self.source {
            Some(source) => Some(source.as_str()),
            None => None,
        }
    }

    /// What the failure says.
    pub open spec fn text(&self) -> Seq<char> {
        match self.spec_kind() {
            CoordinationErrorKind::Unavailable => "coordination store is unavailable"@,
            CoordinationErrorKind::PermissionDenied => "coordination store permission denied"@,
            CoordinationErrorKind::InvalidData => "coordination store returned invalid data"@,
        }
    }

    /// The failure as text.
    pub fn message(&self) -> (message: String)
        ensures
            message@ == self.text(),
    {
        match self.kind {
            CoordinationErrorKind::Unavailable => "coordination store is unavailable".to_owned(),
            CoordinationErrorKind::PermissionDenied => "coordination store permission denied".to_owned(),
            CoordinationErrorKind::InvalidData => "coordination store returned invalid data".to_owned(),
        }
    }
}

/// What a conditional write came to.
#[derive(Debug)]
pub enum MutationOutcome<T> {
    /// It was applied.
    Applied(T),
    /// The record had changed; nothing was written.
    Conflict,
    /// Nobody knows.
    Indeterminate(CoordinationError),
}

/// What the host learned from one operation of the Coordination Store.
pub enum StoreReply<T> {
    /// It did not end in time.
    TimedOut,
    /// It failed.
    Failed(CoordinationError),
    /// It ended.
    Ready(T),
}

/// A UUID's text has two digits for every byte, the higher one first, and hyphens after the
/// fourth, sixth, eighth and tenth byte.
pub proof fn law_uuid_text_spells_the_bytes(bytes: Seq<u8>, i: int)
    requires
        bytes.len() == 16,
        0 <= i < 16,
    ensures
        ({
            let text = hyphenated(bytes);
            let at = if i < 4 {
                2 * i
            } else if i < 6 {
                2 * i + 1
            } else if i < 8 {
                2 * i + 2
            } else if i < 10 {
                2 * i + 3
            } else {
                2 * i + 4
            };
            &&& text.len() == 36
            &&& text[8] == '-' && text[13] == '-' && text[18] == '-' && text[23] == '-'
            &&& text[at] == lower_hex((bytes[i] / 16) as u8)
            &&& text[at + 1] == lower_hex((bytes[i] % 16) as u8)
        }),
{
}

/// The digits are those of base sixteen, in lowercase.
pub proof fn law_hexadecimal_digits(value: u8)
    requires
        value < 16,
    ensures
        is_lower_hex(lower_hex(value)),
        value < 10 ==> lower_hex(value) as int == '0' as int + value,
        value >= 10 ==> lower_hex(value) as int == 'a' as int + value - 10,
{
}

/// A text is that of a random UUID only if it has thirty-six characters, says so at its
/// version digit, and holds nothing but hyphens and hexadecimal digits.
pub proof fn law_random_uuids_say_so(text: Seq<char>, i: int)
    requires
        uuid_text(text),
        0 <= i < text.len(),
    ensures
        text.len() == 36,
        text[14] == '4',
        text[i] == '-' || ('0' <= text[i] <= '9') || ('a' <= text[i] <= 'f'),
        text[i] == '-' <==> i == 8 || i == 13 || i == 18 || i == 23,
{
    assert(i == 8 || i == 13 || i == 18 || i == 23 || is_lower_hex(text[i]));
}

/// An Actor that nobody owns keeps the count of the times it was owned.
pub proof fn law_unowned_actors_keep_their_epoch(ownership_epoch: u64)
    ensures
        unowned_record(ownership_epoch).owner is None,
        unowned_record(ownership_epoch).ownership_epoch == ownership_epoch,
{
}

} // verus!
