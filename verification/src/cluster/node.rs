//! The authority of a Server over its Actors, and the lease that carries it.

use std::time::Duration;

use vstd::prelude::*;

use crate::time::duration_nanos;

verus! {

/// The right of this Server to run Actors. It rests on a Node Lease and ends by
/// itself at a deadline: the moment at which the last confirmed lease operation
/// was started, plus the time to live of the lease. Moments are nanoseconds on
/// the host's monotonic clock.
pub struct NodeAuthority {
    valid: bool,
    deadline: u128,
    ttl: Duration,
}

/// An authority as a mathematical value.
pub struct AuthorityView {
    /// It has not been given up.
    pub unfenced: bool,
    /// The moment at which it ends by itself.
    pub deadline: nat,
    /// The time to live of the lease, in nanoseconds.
    pub ttl: nat,
}

impl AuthorityView {
    /// The Server may run Actors at the given moment.
    pub open spec fn valid_at(self, now: u64) -> bool {
        self.unfenced && now < self.deadline
    }
}

impl View for NodeAuthority {
    type V = AuthorityView;

    closed spec fn view(&self) -> AuthorityView {
        AuthorityView {
            unfenced: self.valid,
            deadline: self.deadline as nat,
            ttl: duration_nanos(self.ttl),
        }
    }
}

impl NodeAuthority {
    /// The authority of a lease whose acquisition was started at
    /// `operation_started`.
    pub fn new(operation_started: u64, ttl: Duration) -> (authority: Self)
        ensures
            authority@ == (AuthorityView {
                unfenced: true,
                deadline: operation_started as nat + duration_nanos(ttl),
                ttl: duration_nanos(ttl),
            }),
    {
        let nanos: u128 = ttl.as_nanos();
        NodeAuthority { valid: true, deadline: operation_started as u128 + nanos, ttl }
    }

    /// Whether the Server may run Actors at the given moment.
    pub fn is_valid(&self, now: u64) -> (valid: bool)
        ensures
            valid == self@.valid_at(now),
    {
        self.valid && (now as u128) < self.deadline
    }

    /// Moves the deadline after a renewal that was started at
    /// `operation_started`.
    pub fn renew(&mut self, operation_started: u64)
        ensures
            final(self)@ == (AuthorityView {
                deadline: operation_started as nat + old(self)@.ttl,
                ..old(self)@
            }),
    {
        let nanos: u128 = self.ttl.as_nanos();
        self.deadline = operation_started as u128 + nanos;
    }

    /// The nanoseconds that are left until the deadline, if it has not passed.
    pub fn remaining(&self, now: u64) -> (remaining: Option<u128>)
        ensures
            remaining is Some == (now <= self@.deadline),
            remaining matches Some(nanos) ==> nanos == self@.deadline - now,
    {
        if now as u128 <= self.deadline {
            Some(self.deadline - now as u128)
        } else {
            None
        }
    }

    /// The moment at which the authority ends by itself.
    pub fn deadline(&self) -> (deadline: u128)
        ensures
            deadline == self@.deadline,
    {
        self.deadline
    }

    /// Gives the authority up for good. The answer is whether it still stood,
    /// in which case the host announces that it is fenced.
    pub fn fence(&mut self) -> (announce: bool)
        ensures
            announce == old(self)@.unfenced,
            final(self)@ == (AuthorityView { unfenced: false, ..old(self)@ }),
    {
        let announce = self.valid;
        self.valid = false;
        announce
    }
}

/// An authority that was given up is never valid again, whatever renewal
/// follows.
pub proof fn law_fencing_is_final(fenced: AuthorityView, renewal_started: u64, now: u64)
    requires
        !fenced.unfenced,
    ensures
        !fenced.valid_at(now),
        !(AuthorityView { deadline: renewal_started as nat + fenced.ttl, ..fenced }).valid_at(now),
{
}

/// An authority that is valid at a moment was valid at every earlier one: it
/// does not come back once its deadline has passed.
pub proof fn law_authority_does_not_come_back(authority: AuthorityView, earlier: u64, later: u64)
    requires
        earlier <= later,
        authority.valid_at(later),
    ensures
        authority.valid_at(earlier),
{
}

/// An authority that was not given up stands until its deadline and not a moment longer.
pub proof fn law_authority_lasts_until_its_deadline(authority: AuthorityView, now: u64)
    ensures
        authority.unfenced && now < authority.deadline ==> authority.valid_at(now),
        now >= authority.deadline ==> !authority.valid_at(now),
{
}

} // verus!
