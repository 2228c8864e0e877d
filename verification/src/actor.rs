//! Actor addresses, per-type policy and the errors that callers see.

use std::time::Duration;

use vstd::prelude::*;
use vstd::string::*;

use crate::error::ActorAddressError;
use crate::keyed::Key;
use crate::text::{dns_label, is_dns_label};

verus! {

/// The two names that make up an Actor Address.
pub struct AddressView {
    pub actor_type: Seq<char>,
    pub actor_id: Seq<char>,
}

/// Both names are Kubernetes DNS labels.
pub open spec fn valid_address(address: AddressView) -> bool {
    dns_label(address.actor_type) && dns_label(address.actor_id)
}

/// A validated, reusable Actor address.
#[derive(Debug, PartialEq, Eq, Hash)]
pub struct ActorAddress {
    actor_type: String,
    actor_id: String,
}

impl View for ActorAddress {
    type V = AddressView;

    closed spec fn view(&self) -> AddressView {
        AddressView { actor_type: self.actor_type@, actor_id: self.actor_id@ }
    }
}

impl ActorAddress {
    #[verifier::type_invariant]
    spec fn valid(self) -> bool {
        valid_address(self@)
    }

    /// Validates and constructs an Actor Address from an Actor Type and Actor ID.
    pub fn new(actor_type: &str, actor_id: &str) -> (address: Result<Self, ActorAddressError>)
        ensures
            address is Ok <==> dns_label(actor_type@) && dns_label(actor_id@),
            address matches Ok(a) ==> a@ == (AddressView {
                actor_type: actor_type@,
                actor_id: actor_id@,
            }),
            address matches Err(e) ==> e == if dns_label(actor_type@) {
                ActorAddressError::InvalidActorId
            } else {
                ActorAddressError::InvalidActorType
            },
    {
        if !is_dns_label(actor_type) {
            return Err(ActorAddressError::InvalidActorType);
        }
        if !is_dns_label(actor_id) {
            return Err(ActorAddressError::InvalidActorId);
        }
        Ok(ActorAddress { actor_type: actor_type.to_owned(), actor_id: actor_id.to_owned() })
    }

    /// Returns the stable Actor Type name.
    pub fn actor_type(&self) -> (name: &str)
        ensures
            name@ == self@.actor_type,
            valid_address(self@),
    {
        proof {
            use_type_invariant(self);
        }
        self.actor_type.as_str()
    }

    /// Returns the stable Actor ID within its Actor Type.
    pub fn actor_id(&self) -> (id: &str)
        ensures
            id@ == self@.actor_id,
            valid_address(self@),
    {
        proof {
            use_type_invariant(self);
        }
        self.actor_id.as_str()
    }
}

impl Key for ActorAddress {
    fn same(&self, other: &Self) -> (same: bool) {
        self.actor_type == other.actor_type && self.actor_id == other.actor_id
    }

    fn duplicate(&self) -> (copy: Self) {
        proof {
            use_type_invariant(self);
        }
        ActorAddress { actor_type: self.actor_type.clone(), actor_id: self.actor_id.clone() }
    }
}

impl Clone for ActorAddress {
    fn clone(&self) -> (copy: Self)
        ensures
            copy@ == self@,
    {
        self.duplicate()
    }
}

/// The text form of an address: its type, a slash, its ID.
pub open spec fn address_text(address: AddressView) -> Seq<char> {
    address.actor_type + seq!['/'] + address.actor_id
}

impl ActorAddress {
    /// The address as `type/id`.
    pub fn to_text(&self) -> (text: String)
        ensures
            text@ == address_text(self@),
    {
        proof {
            reveal_strlit("/");
            assert("/"@ =~= seq!['/']);
        }
        self.actor_type.clone().concat("/").concat(self.actor_id.as_str())
    }
}

/// Two addresses with the same text are the same address: the text of an
/// address is as good a key as the address.
pub proof fn law_address_text_is_injective(left: AddressView, right: AddressView)
    requires
        valid_address(left),
        valid_address(right),
        address_text(left) == address_text(right),
    ensures
        left == right,
{
    let l = address_text(left);
    let r = address_text(right);
    let i = left.actor_type.len() as int;
    let j = right.actor_type.len() as int;
    assert(l[i] == '/');
    assert(r[j] == '/');
    if i < j {
        assert(r[i] == right.actor_type[i]);
    }
    if j < i {
        assert(l[j] == left.actor_type[j]);
    }
    assert(left.actor_type =~= l.subrange(0, i));
    assert(right.actor_type =~= r.subrange(0, i));
    assert(left.actor_id =~= l.subrange(i + 1, l.len() as int));
    assert(right.actor_id =~= r.subrange(i + 1, r.len() as int));
}

/// Per-Actor-Type runtime policy overrides.
#[derive(Clone, Copy, Debug)]
pub struct ActorConfig {
    pub name: &'static str,
    pub mailbox_capacity: Option<usize>,
    pub idle_timeout: Option<Duration>,
}

impl Default for ActorConfig {
    fn default() -> (config: Self)
        ensures
            config.name@ == Seq::<char>::empty(),
            config.mailbox_capacity is None,
            config.idle_timeout is None,
    {
        proof {
            reveal_strlit("");
        }
        let config = ActorConfig { name: "", mailbox_capacity: None, idle_timeout: None };
        assert(config.name@ =~= Seq::<char>::empty());
        config
    }
}

impl ActorConfig {
    /// Creates a configuration with the supplied Actor Type name and default policy.
    pub fn new(name: &'static str) -> (config: Self)
        ensures
            config == (ActorConfig { name, mailbox_capacity: None, idle_timeout: None }),
    {
        ActorConfig { name, mailbox_capacity: None, idle_timeout: None }
    }

    /// Overrides the mailbox capacity for this Actor Type.
    pub fn mailbox_capacity(self, capacity: usize) -> (config: Self)
        ensures
            config == (ActorConfig { mailbox_capacity: Some(capacity), ..self }),
    {
        ActorConfig { mailbox_capacity: Some(capacity), ..self }
    }

    /// Overrides the idle timeout for this Actor Type.
    pub fn idle_timeout(self, timeout: Duration) -> (config: Self)
        ensures
            config == (ActorConfig { idle_timeout: Some(timeout), ..self }),
    {
        ActorConfig { idle_timeout: Some(timeout), ..self }
    }
}

/// What an Actor Type can be registered with: its name or a full configuration.
pub trait IntoActorConfig: Sized {
    /// The configuration that the value stands for.
    spec fn config(self) -> ActorConfig;

    /// Turns the value into a configuration.
    fn into_actor_config(self) -> (config: ActorConfig)
        ensures
            config == self.config(),
    ;
}

impl IntoActorConfig for &'static str {
    open spec fn config(self) -> ActorConfig {
        ActorConfig { name: self, mailbox_capacity: None, idle_timeout: None }
    }

    fn into_actor_config(self) -> (config: ActorConfig) {
        ActorConfig::new(self)
    }
}

impl IntoActorConfig for ActorConfig {
    open spec fn config(self) -> ActorConfig {
        self
    }

    fn into_actor_config(self) -> (config: ActorConfig) {
        self
    }
}

/// Why an Active Actor stops.
#[derive(Clone, Copy, Debug, PartialEq, Eq, Structural)]
pub enum DeactivationReason {
    Idle,
    Shutdown,
}

/// Two names make an address exactly if each has 1 to 63 characters out of `a` to
/// `z`, `0` to `9` and the hyphen, of which the first and the last are no hyphens.
pub proof fn law_addresses_are_made_of_labels(address: AddressView)
    ensures
        valid_address(address) <==> {
            &&& 1 <= address.actor_type.len() <= 63 && 1 <= address.actor_id.len() <= 63
            &&& forall|i: int|
                0 <= i < address.actor_type.len() ==> ({
                    let c = #[trigger] address.actor_type[i] as int;
                    (97 <= c && c <= 122) || (48 <= c && c <= 57) || (c == 45 && i != 0 && i
                        != address.actor_type.len() - 1)
                })
            &&& forall|i: int|
                0 <= i < address.actor_id.len() ==> ({
                    let c = #[trigger] address.actor_id[i] as int;
                    (97 <= c && c <= 122) || (48 <= c && c <= 57) || (c == 45 && i != 0 && i
                        != address.actor_id.len() - 1)
                })
        },
{
    crate::text::law_dns_labels(address.actor_type);
    crate::text::law_dns_labels(address.actor_id);
}

/// Every number of up to 63 digits is an Actor ID, and an Actor Type.
pub proof fn law_numbers_name_actors(address: AddressView, n: nat)
    requires
        valid_address(address),
        crate::text::decimal(n).len() <= 63,
    ensures
        valid_address(AddressView { actor_id: crate::text::decimal(n), ..address }),
        valid_address(AddressView { actor_type: crate::text::decimal(n), ..address }),
{
    crate::text::law_numbers_are_labels(n);
}

/// The text of an address begins with its type, ends with its ID, and has one slash
/// between them.
pub proof fn law_address_text_names_both(address: AddressView)
    ensures
        address_text(address).len() == address.actor_type.len() + 1 + address.actor_id.len(),
        address_text(address).take(address.actor_type.len() as int) == address.actor_type,
        address_text(address)[address.actor_type.len() as int] == '/',
        address_text(address).skip(address.actor_type.len() as int + 1) == address.actor_id,
{
    assert(address_text(address).take(address.actor_type.len() as int) =~= address.actor_type);
    assert(address_text(address).skip(address.actor_type.len() as int + 1) =~= address.actor_id);
}

} // verus!
