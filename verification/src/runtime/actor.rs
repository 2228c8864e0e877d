//! What an Active Actor gets to see of the runtime.

use std::sync::Arc;

use vstd::prelude::*;

use crate::actor::{ActorAddress, AddressView};
use crate::keyed::Key;
use crate::runtime::session::SessionId;

verus! {

/// Runtime capabilities provided when an Active Actor is constructed: its
/// address and the App State shared by all Actor Types of the Server.
#[verifier::reject_recursive_types(S)]
pub struct ActorRuntime<S> {
    address: ActorAddress,
    state: Arc<S>,
}

impl<S> ActorRuntime<S> {
    /// The Actor's address.
    pub closed spec fn address(&self) -> AddressView {
        self.address@
    }

    /// The shared App State.
    pub closed spec fn shared(&self) -> S {
        *self.state
    }

    /// The capabilities of the Actor at an address.
    pub fn new(address: &ActorAddress, state: Arc<S>) -> (runtime: Self)
        ensures
            runtime.address() == address@,
            runtime.shared() == *state,
    {
        ActorRuntime { address: address.duplicate(), state }
    }

    /// Returns this Actor's ID within its Actor Type.
    pub fn actor_id(&self) -> (id: &str)
        ensures
            id@ == self.address().actor_id,
    {
        self.address.actor_id()
    }

    /// Returns this Actor's complete logical address.
    pub fn actor_address(&self) -> (address: &ActorAddress)
        ensures
            address@ == self.address(),
    {
        &self.address
    }

    /// Returns the App State shared by all Actor Types in this Server.
    pub fn state(&self) -> (state: &S)
        ensures
            *state == self.shared(),
    {
        &*self.state
    }
}

/// The outbound side of one Session: where Events for its caller go.
pub struct SessionHandle {
    pub address: ActorAddress,
    pub session_id: SessionId,
}

/// Read-only context for processing one message: the Actor and the Session.
pub struct MessageContext {
    address: ActorAddress,
    session: SessionHandle,
}

impl MessageContext {
    /// The Actor's address.
    pub closed spec fn address(&self) -> AddressView {
        self.address@
    }

    /// The Session's handle.
    pub closed spec fn handle(&self) -> SessionHandle {
        self.session
    }

    /// The context for one message of a Session.
    pub fn new(address: &ActorAddress, session_id: SessionId) -> (context: Self)
        ensures
            context.address() == address@,
            context.handle().address@ == address@,
            context.handle().session_id == session_id,
    {
        MessageContext {
            address: address.duplicate(),
            session: SessionHandle { address: address.duplicate(), session_id },
        }
    }

    /// Returns the current Actor's ID within its Actor Type.
    pub fn actor_id(&self) -> (id: &str)
        ensures
            id@ == self.address().actor_id,
    {
        self.address.actor_id()
    }

    /// Returns the current Actor's complete logical address.
    pub fn actor_address(&self) -> (address: &ActorAddress)
        ensures
            address@ == self.address(),
    {
        &self.address
    }

    /// Returns the current Session's outbound handle.
    pub fn session(&self) -> (session: &SessionHandle)
        ensures
            *session == self.handle(),
    {
        &self.session
    }
}

/// How the processing of one message ended.
#[derive(Clone, Copy, Debug, PartialEq, Eq, Structural)]
pub enum MessageOutcome {
    Completed,
    Panicked,
}

} // verus!
