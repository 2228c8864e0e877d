//! The life of an Active Actor: activation, messages, passivation and shutdown.
//!
//! The host runs the Actor's own code and waits for its mailbox; after each such
//! step the task says what comes next.

use vstd::prelude::*;

use crate::actor::{ActorAddress, AddressView, DeactivationReason};
use crate::error::SendError;
use crate::keyed::Key;
use crate::mailbox::{closed_out, take_pending, Inbox, Mailbox};
use crate::runtime::actor::MessageOutcome;
use crate::runtime::message::{all_told, fail_messages, waiting_callers, MailboxMessage};
use crate::runtime::route::{deactivation_begun, TableView};
use crate::runtime::server::ServerInner;
use crate::runtime::session::{are_notices, sessions_of, Outgoing};

verus! {

/// Where the life of an Active Actor stands.
#[derive(Clone, Copy, Debug, PartialEq, Eq, Structural)]
pub enum TaskPhase {
    /// `on_activate` runs.
    Activating,
    /// Messages are awaited and processed.
    Serving,
    /// The mailbox is closed and emptied.
    Draining,
    /// `on_deactivate` runs.
    Deactivating(DeactivationReason),
    /// Ownership of the Actor is given back.
    Releasing,
    /// The task ends.
    Finished,
}

/// What the host does next for an Active Actor.
#[derive(Clone, Copy, Debug, PartialEq, Eq, Structural)]
pub enum TaskAction {
    /// Run `on_activate`.
    Activate,
    /// Wait for a shutdown request, a message or the idle timeout.
    Receive,
    /// Take the next message out of the closed mailbox.
    Drain,
    /// Run `on_deactivate`; for an idle Actor under the deactivation timeout.
    Deactivate(DeactivationReason),
    /// Give the ownership of the Actor back.
    ReleaseOwner,
    /// End the task.
    Finish,
}

/// How `on_activate` ended.
#[derive(Clone, Copy, Debug, PartialEq, Eq, Structural)]
pub enum Activation {
    Ready,
    Failed,
    Panicked,
}

/// The next step of an Active Actor, and whom the host has to tell: callers that
/// wait for a Session to open, and callers of Sessions that ended.
pub struct TaskStep<R> {
    pub action: TaskAction,
    pub replies: Vec<(R, Result<(), SendError>)>,
    pub notices: Vec<Outgoing>,
}

/// The task that runs one Active Actor.
pub struct ActorTask {
    address: ActorAddress,
    generation: u64,
    phase: TaskPhase,
}

/// A task as a mathematical value.
pub struct TaskView {
    pub address: AddressView,
    pub generation: u64,
    pub phase: TaskPhase,
}

impl View for ActorTask {
    type V = TaskView;

    closed spec fn view(&self) -> TaskView {
        TaskView { address: self.address@, generation: self.generation, phase: self.phase }
    }
}

/// The routes once the task is gone: its own route is removed, a later one at the
/// same address stays.
pub open spec fn without_route<M, T>(
    table: TableView<AddressView, M, T>,
    task: TaskView,
) -> TableView<AddressView, M, T> {
    if table.routes.dom().contains(task.address) && table.routes[task.address].generation
        == task.generation {
        TableView { routes: table.routes.remove(task.address), ..table }
    } else {
        table
    }
}

/// The error that a failed activation leaves behind.
pub open spec fn activation_error(activation: Activation) -> SendError {
    match activation {
        Activation::Failed => SendError::ActivationFailed,
        _ => SendError::ActorStopped,
    }
}

/// The answer for a caller that waits for a Session to open, once the Actor has
/// processed the opening.
pub open spec fn message_reply<R>(waiting: Option<R>, outcome: MessageOutcome) -> Seq<
    (R, Result<(), SendError>),
> {
    match waiting {
        Some(complete) => seq![
            (
                complete,
                match outcome {
                    MessageOutcome::Completed => Ok(()),
                    MessageOutcome::Panicked => Err(SendError::ActorStopped),
                },
            ),
        ],
        None => Seq::empty(),
    }
}

impl<R> TaskStep<R> {
    /// A step that nobody has to be told of.
    pub open spec fn quiet(self, action: TaskAction) -> bool {
        self.action == action && self.replies@.len() == 0 && self.notices@.len() == 0
    }
}

/// The states and the step after it are what the end of `on_activate` comes to,
/// when `pending` is what is left in the mailbox.
pub open spec fn activation_handled<R, T>(
    before: ServerInner<R, T>,
    after: ServerInner<R, T>,
    task: TaskView,
    next: TaskView,
    activation: Activation,
    pending: Seq<MailboxMessage<R>>,
    step: TaskStep<R>,
) -> bool {
    if activation == Activation::Ready {
        &&& next == (TaskView { phase: TaskPhase::Serving, ..task })
        &&& step.quiet(TaskAction::Receive)
        &&& after == before
    } else {
        let error = activation_error(activation);
        &&& next == (TaskView { phase: TaskPhase::Finished, ..task })
        &&& step.action == TaskAction::Finish
        &&& after.routes@ == without_route(before.routes@, task)
        &&& after.sessions@ == before.sessions@.remove(task.address)
        &&& are_notices(step.notices@, sessions_of(before.sessions@, task.address), error)
        &&& all_told(step.replies@, waiting_callers(pending), error)
    }
}

impl ActorTask {
    /// Starts the task of a route that was just made.
    pub fn begin(address: &ActorAddress, generation: u64) -> (start: (Self, TaskAction))
        ensures
            start.0@ == (TaskView { address: address@, generation, phase: TaskPhase::Activating }),
            start.1 == TaskAction::Activate,
    {
        (
            ActorTask { address: address.duplicate(), generation, phase: TaskPhase::Activating },
            TaskAction::Activate,
        )
    }

    fn step<R>(&mut self, phase: TaskPhase, action: TaskAction) -> (step: TaskStep<R>)
        ensures
            final(self)@ == (TaskView { phase, ..old(self)@ }),
            step.quiet(action),
    {
        self.phase = phase;
        TaskStep { action, replies: Vec::new(), notices: Vec::new() }
    }

    fn end<R, T>(&mut self, server: &mut ServerInner<R, T>) -> (step: TaskStep<R>)
        requires
            old(server).wf(),
        ensures
            final(server).wf(),
            final(server).same_but_routes(old(server)),
            final(server).routes@ == without_route(old(server).routes@, old(self)@),
            final(self)@ == (TaskView { phase: TaskPhase::Finished, ..old(self)@ }),
            step.quiet(TaskAction::Finish),
    {
        server.routes.remove_route(&self.address, self.generation);
        self.step(TaskPhase::Finished, TaskAction::Finish)
    }

    /// `on_activate` has ended. A failure closes the mailbox, removes the route,
    /// and fails everybody who waits on the Actor; so does a panic.
    pub fn activated<R, T>(
        &mut self,
        server: &mut ServerInner<R, T>,
        activation: Activation,
        receiver: &mut Inbox<MailboxMessage<R>>,
    ) -> (step: TaskStep<R>)
        requires
            old(server).wf(),
            old(self)@.phase == TaskPhase::Activating,
        ensures
            follows(old(self)@.phase, final(self)@.phase),
            final(server).wf(),
            final(server).same_but_traffic(old(server)),
            exists|pending: Seq<MailboxMessage<R>>|
                closed_out(
                    activation != Activation::Ready,
                    old(receiver)@,
                    final(receiver)@,
                    pending,
                ) && #[trigger] activation_handled(
                    *old(server),
                    *final(server),
                    old(self)@,
                    final(self)@,
                    activation,
                    pending,
                    step,
                ),
    {
        let pending = match activation {
            Activation::Ready => Vec::new(),
            _ => {
                receiver.close();
                take_pending(receiver)
            },
        };
        self.activated_with(server, activation, pending)
    }

    /// `on_activate` has ended, given what is left in the mailbox that was closed
    /// on a failure.
    pub fn activated_with<R, T>(
        &mut self,
        server: &mut ServerInner<R, T>,
        activation: Activation,
        pending: Vec<MailboxMessage<R>>,
    ) -> (step: TaskStep<R>)
        requires
            old(server).wf(),
            old(self)@.phase == TaskPhase::Activating,
        ensures
            follows(old(self)@.phase, final(self)@.phase),
            final(server).wf(),
            final(server).same_but_traffic(old(server)),
            activation_handled(
                *old(server),
                *final(server),
                old(self)@,
                final(self)@,
                activation,
                pending@,
                step,
            ),
    {
        let error = match activation {
            Activation::Ready => {
                return self.step(TaskPhase::Serving, TaskAction::Receive);
            },
            Activation::Failed => SendError::ActivationFailed,
            Activation::Panicked => SendError::ActorStopped,
        };
        let mut step = self.end(server);
        step.replies = fail_messages(pending, &error);
        step.notices = server.sessions.terminate_all(&self.address, &error);
        step
    }

    /// A message was processed. A handler that panicked ends the Actor and all
    /// its Sessions.
    pub fn executed<R, T>(
        &mut self,
        server: &mut ServerInner<R, T>,
        waiting: Option<R>,
        outcome: MessageOutcome,
    ) -> (step: TaskStep<R>)
        requires
            old(server).wf(),
            old(self)@.phase == TaskPhase::Serving || old(self)@.phase == TaskPhase::Draining,
        ensures
            follows(old(self)@.phase, final(self)@.phase),
            final(server).wf(),
            final(server).same_but_traffic(old(server)),
            step.replies@ == message_reply(waiting, outcome),
            match outcome {
                MessageOutcome::Completed => {
                    &&& final(self)@ == old(self)@
                    &&& step.action == if old(self)@.phase == TaskPhase::Serving {
                        TaskAction::Receive
                    } else {
                        TaskAction::Drain
                    }
                    &&& step.notices@.len() == 0
                    &&& *final(server) == *old(server)
                },
                MessageOutcome::Panicked => {
                    &&& final(self)@ == (TaskView { phase: TaskPhase::Finished, ..old(self)@ })
                    &&& step.action == TaskAction::Finish
                    &&& final(server).routes@ == without_route(old(server).routes@, old(self)@)
                    &&& final(server).sessions@ == old(server).sessions@.remove(old(self)@.address)
                    &&& are_notices(
                        step.notices@,
                        sessions_of(old(server).sessions@, old(self)@.address),
                        SendError::ActorStopped,
                    )
                },
            },
    {
        let mut replies: Vec<(R, Result<(), SendError>)> = Vec::new();
        if let Some(complete) = waiting {
            let answer = match outcome {
                MessageOutcome::Completed => Ok(()),
                MessageOutcome::Panicked => Err(SendError::ActorStopped),
            };
            replies.push((complete, answer));
        }
        assert(replies@ =~= message_reply(waiting, outcome));
        match outcome {
            MessageOutcome::Completed => {
                let action = match self.phase {
                    TaskPhase::Serving => TaskAction::Receive,
                    _ => TaskAction::Drain,
                };
                TaskStep { action, replies, notices: Vec::new() }
            },
            MessageOutcome::Panicked => {
                let mut step = self.end(server);
                step.replies = replies;
                step.notices = server.sessions.terminate_all(
                    &self.address,
                    &SendError::ActorStopped,
                );
                step
            },
        }
    }

    /// The shutdown signal changed. A request closes the mailbox, and what is in
    /// it is still processed.
    pub fn shutdown_signalled<R>(
        &mut self,
        requested: bool,
        receiver: &mut Inbox<MailboxMessage<R>>,
    ) -> (step: TaskStep<R>)
        requires
            old(self)@.phase == TaskPhase::Serving,
        ensures
            follows(old(self)@.phase, final(self)@.phase),
            requested ==> final(self)@ == (TaskView { phase: TaskPhase::Draining, ..old(self)@ })
                && step.quiet(TaskAction::Drain) && final(receiver)@ == old(receiver)@.shut(
                final(receiver)@.left,
            ),
            !requested ==> final(self)@ == old(self)@ && step.quiet(TaskAction::Receive)
                && final(receiver)@ == old(receiver)@,
    {
        if requested {
            receiver.close();
            self.step(TaskPhase::Draining, TaskAction::Drain)
        } else {
            self.step(TaskPhase::Serving, TaskAction::Receive)
        }
    }

    /// The mailbox was closed by somebody else and is empty.
    pub fn mailbox_ended<R, T>(&mut self, server: &mut ServerInner<R, T>) -> (step: TaskStep<R>)
        requires
            old(server).wf(),
            old(self)@.phase == TaskPhase::Serving,
        ensures
            follows(old(self)@.phase, final(self)@.phase),
            final(server).wf(),
            final(server).same_but_routes(old(server)),
            final(server).routes@ == without_route(old(server).routes@, old(self)@),
            final(self)@ == (TaskView { phase: TaskPhase::Finished, ..old(self)@ }),
            step.quiet(TaskAction::Finish),
    {
        self.end(server)
    }

    /// Every message that was in the mailbox at shutdown has been processed: the
    /// Sessions end, and the Actor is deactivated.
    pub fn drained<R, T>(&mut self, server: &mut ServerInner<R, T>) -> (step: TaskStep<R>)
        requires
            old(server).wf(),
            old(self)@.phase == TaskPhase::Draining,
        ensures
            follows(old(self)@.phase, final(self)@.phase),
            final(server).wf(),
            final(server).same_but_sessions(old(server)),
            final(server).sessions@ == old(server).sessions@.remove(old(self)@.address),
            are_notices(
                step.notices@,
                sessions_of(old(server).sessions@, old(self)@.address),
                SendError::RuntimeShuttingDown,
            ),
            step.replies@.len() == 0,
            step.action == TaskAction::Deactivate(DeactivationReason::Shutdown),
            final(self)@ == (TaskView {
                phase: TaskPhase::Deactivating(DeactivationReason::Shutdown),
                ..old(self)@
            }),
    {
        let mut step = self.step(
            TaskPhase::Deactivating(DeactivationReason::Shutdown),
            TaskAction::Deactivate(DeactivationReason::Shutdown),
        );
        step.notices = server.sessions.terminate_all(
            &self.address,
            &SendError::RuntimeShuttingDown,
        );
        step
    }

    /// No message came in time. An Actor without live Sessions whose mailbox is
    /// still empty stops admitting messages and is deactivated.
    pub fn idle_elapsed<R, T>(
        &mut self,
        server: &mut ServerInner<R, T>,
        sender: &mut Mailbox<MailboxMessage<R>>,
    ) -> (step: TaskStep<R>)
        requires
            old(server).wf(),
            old(self)@.phase == TaskPhase::Serving,
        ensures
            follows(old(self)@.phase, final(self)@.phase),
            final(server).wf(),
            final(server).same_but_routes(old(server)),
            final(sender)@ == old(sender)@.looked(final(sender)@.looks.last()),
            idle_handled(
                *old(server),
                *final(server),
                old(self)@,
                final(self)@,
                final(sender)@.looks.last(),
                old(sender)@.capacity,
                step,
            ),
    {
        let free: usize = sender.free();
        let limit: usize = sender.limit();
        self.idle_elapsed_with(server, free, limit)
    }

    /// No message came in time, given the room that is left in the mailbox and
    /// the room it was made with.
    pub fn idle_elapsed_with<R, T>(
        &mut self,
        server: &mut ServerInner<R, T>,
        free: usize,
        limit: usize,
    ) -> (step: TaskStep<R>)
        requires
            old(server).wf(),
            old(self)@.phase == TaskPhase::Serving,
        ensures
            follows(old(self)@.phase, final(self)@.phase),
            final(server).wf(),
            final(server).same_but_routes(old(server)),
            idle_handled(
                *old(server),
                *final(server),
                old(self)@,
                final(self)@,
                free,
                limit as nat,
                step,
            ),
    {
        if server.sessions.has_live_sessions(&self.address) {
            return self.step(TaskPhase::Serving, TaskAction::Receive);
        }
        if !server.routes.begin_deactivation_with(&self.address, self.generation, free, limit) {
            return self.step(TaskPhase::Serving, TaskAction::Receive);
        }
        self.step(
            TaskPhase::Deactivating(DeactivationReason::Idle),
            TaskAction::Deactivate(DeactivationReason::Idle),
        )
    }

    /// `on_deactivate` has ended, in whatever way. An idle Actor of a clustered
    /// Server gives its ownership back first.
    pub fn deactivated<R, T>(&mut self, server: &mut ServerInner<R, T>) -> (step: TaskStep<R>)
        requires
            old(server).wf(),
            old(self)@.phase is Deactivating,
        ensures
            follows(old(self)@.phase, final(self)@.phase),
            final(server).wf(),
            final(server).same_but_routes(old(server)),
            if old(self)@.phase == TaskPhase::Deactivating(DeactivationReason::Idle)
                && old(server).clustered {
                &&& final(self)@ == (TaskView { phase: TaskPhase::Releasing, ..old(self)@ })
                &&& step.quiet(TaskAction::ReleaseOwner)
                &&& *final(server) == *old(server)
            } else {
                &&& final(self)@ == (TaskView { phase: TaskPhase::Finished, ..old(self)@ })
                &&& step.quiet(TaskAction::Finish)
                &&& final(server).routes@ == without_route(old(server).routes@, old(self)@)
            },
    {
        let idle = match self.phase {
            TaskPhase::Deactivating(DeactivationReason::Idle) => true,
            _ => false,
        };
        if idle && server.clustered {
            self.step(TaskPhase::Releasing, TaskAction::ReleaseOwner)
        } else {
            self.end(server)
        }
    }

    /// Ownership was given back, or could not be: the Actor ends either way.
    pub fn released<R, T>(&mut self, server: &mut ServerInner<R, T>) -> (step: TaskStep<R>)
        requires
            old(server).wf(),
            old(self)@.phase == TaskPhase::Releasing,
        ensures
            follows(old(self)@.phase, final(self)@.phase),
            final(server).wf(),
            final(server).same_but_routes(old(server)),
            final(server).routes@ == without_route(old(server).routes@, old(self)@),
            final(self)@ == (TaskView { phase: TaskPhase::Finished, ..old(self)@ }),
            step.quiet(TaskAction::Finish),
    {
        self.end(server)
    }
}

/// The turns that the life of an Active Actor can take.
pub open spec fn follows(before: TaskPhase, after: TaskPhase) -> bool {
    match before {
        TaskPhase::Activating => after is Serving || after is Finished,
        TaskPhase::Serving => after is Serving || after is Draining || after is Finished || after
            == TaskPhase::Deactivating(DeactivationReason::Idle),
        TaskPhase::Draining => after is Draining || after is Finished || after
            == TaskPhase::Deactivating(DeactivationReason::Shutdown),
        TaskPhase::Deactivating(_) => after is Releasing || after is Finished,
        TaskPhase::Releasing => after is Finished,
        TaskPhase::Finished => false,
    }
}

/// A life is a sequence of phases, each of which follows on the one before.
pub open spec fn is_life(phases: Seq<TaskPhase>) -> bool {
    forall|i: int| 0 < i < phases.len() ==> follows(phases[i - 1], #[trigger] phases[i])
}

spec fn age(phase: TaskPhase) -> int {
    match phase {
        TaskPhase::Activating => 0,
        TaskPhase::Serving => 1,
        TaskPhase::Draining => 2,
        TaskPhase::Deactivating(_) => 3,
        TaskPhase::Releasing => 4,
        TaskPhase::Finished => 5,
    }
}

/// An Active Actor is activated once, before anything else, and deactivated at
/// most once, after which it processes no message.
pub proof fn law_actors_live_once(phases: Seq<TaskPhase>, earlier: int, later: int)
    requires
        is_life(phases),
        0 <= earlier < later < phases.len(),
    ensures
        !(phases[later] is Activating),
        phases[earlier] is Deactivating ==> phases[later] is Releasing || phases[later] is Finished,
        !(phases[earlier] is Finished),
    decreases later - earlier,
{
    lemma_age(phases, earlier, later);
    assert(follows(phases[later - 1], phases[later]));
    assert(follows(phases[earlier + 1 - 1], phases[earlier + 1]));
    if earlier + 1 < later {
        lemma_age(phases, earlier + 1, later);
    }
}

proof fn lemma_age(phases: Seq<TaskPhase>, earlier: int, later: int)
    requires
        is_life(phases),
        0 <= earlier < later < phases.len(),
    ensures
        age(phases[earlier]) <= age(phases[later]),
    decreases later - earlier,
{
    assert(follows(phases[later - 1], phases[later]));
    if earlier < later - 1 {
        lemma_age(phases, earlier, later - 1);
    }
}

/// `step` and the states after it are what an idle timeout comes to.
pub open spec fn idle_handled<R, T>(
    before: ServerInner<R, T>,
    after: ServerInner<R, T>,
    task: TaskView,
    next: TaskView,
    free: usize,
    limit: nat,
    step: TaskStep<R>,
) -> bool {
    let live = sessions_of(before.sessions@, task.address).dom().len() > 0;
    let begun = next.phase == TaskPhase::Deactivating(DeactivationReason::Idle);
    &&& live ==> !begun && after == before
    &&& !live ==> deactivation_begun(
        before.routes@,
        after.routes@,
        task.address,
        task.generation,
        free,
        limit,
        begun,
    )
    &&& if begun {
        &&& next == (TaskView { phase: TaskPhase::Deactivating(DeactivationReason::Idle), ..task })
        &&& step.quiet(TaskAction::Deactivate(DeactivationReason::Idle))
    } else {
        &&& next == task
        &&& step.quiet(TaskAction::Receive)
    }
}

/// An Actor is passivated only while it has no live Session, and only if its
/// mailbox is empty.
pub proof fn law_only_idle_actors_are_passivated<R, T>(
    before: ServerInner<R, T>,
    after: ServerInner<R, T>,
    task: TaskView,
    next: TaskView,
    free: usize,
    limit: nat,
    step: TaskStep<R>,
)
    requires
        idle_handled(before, after, task, next, free, limit, step),
        step.action is Deactivate,
    ensures
        sessions_of(before.sessions@, task.address).dom().len() == 0,
        free == limit,
        after.routes@.routes.dom().contains(task.address),
        after.routes@.routes[task.address].state
            == crate::runtime::route::RouteState::Deactivating,
{
}

/// The end of a task takes down its own route and no other: a later Actor at the
/// same address, and every other Actor, stays.
pub proof fn law_tasks_end_alone<M, T>(
    table: TableView<AddressView, M, T>,
    task: TaskView,
    address: AddressView,
)
    requires
        address != task.address || table.routes[address].generation != task.generation,
    ensures
        without_route(table, task).routes.dom().contains(address) == table.routes.dom().contains(
            address,
        ),
        table.routes.dom().contains(address) ==> without_route(table, task).routes[address]
            == table.routes[address],
        !without_route(table, task).routes.dom().contains(task.address) || without_route(
            table,
            task,
        ).routes[task.address].generation != task.generation,
{
}

/// An Actor whose activation ended well serves, and nothing else changes. One that failed is
/// gone: its route, its Sessions and its task end, every caller of a Session gets a notice,
/// and whoever waits for a Session to open learns whether the activation failed or the
/// Actor stopped.
pub proof fn law_failed_activations_end_the_actor<R, T>(
    before: ServerInner<R, T>,
    after: ServerInner<R, T>,
    task: TaskView,
    next: TaskView,
    activation: Activation,
    pending: Seq<MailboxMessage<R>>,
    step: TaskStep<R>,
    i: int,
)
    requires
        activation_handled(before, after, task, next, activation, pending, step),
    ensures
        activation == Activation::Ready ==> next.phase == TaskPhase::Serving && step.action
            == TaskAction::Receive && after == before && step.replies@.len() == 0
            && step.notices@.len() == 0,
        activation != Activation::Ready ==> {
            let error = if activation == Activation::Failed {
                SendError::ActivationFailed
            } else {
                SendError::ActorStopped
            };
            &&& next.phase == TaskPhase::Finished && step.action == TaskAction::Finish
            &&& !after.sessions@.dom().contains(task.address)
            &&& before.routes@.routes.dom().contains(task.address)
                && before.routes@.routes[task.address].generation == task.generation
                ==> !after.routes@.routes.dom().contains(task.address)
            &&& step.replies@.len() == waiting_callers(pending).len()
            &&& 0 <= i < step.replies@.len() ==> step.replies@[i] == (
                waiting_callers(pending)[i],
                Err::<(), SendError>(error),
            )
            &&& are_notices(step.notices@, sessions_of(before.sessions@, task.address), error)
        },
        next.address == task.address && next.generation == task.generation,
{
}

/// An Actor without live Sessions and with an empty mailbox is passivated when the idle
/// timeout has passed; one with Sessions, or with a message left, goes on.
pub proof fn law_idle_actors_are_passivated<R, T>(
    before: ServerInner<R, T>,
    after: ServerInner<R, T>,
    task: TaskView,
    next: TaskView,
    free: usize,
    limit: nat,
    step: TaskStep<R>,
)
    requires
        idle_handled(before, after, task, next, free, limit, step),
        before.routes@.routes.dom().contains(task.address),
        before.routes@.routes[task.address].generation == task.generation,
    ensures
        step.action == TaskAction::Deactivate(DeactivationReason::Idle) <==> sessions_of(
            before.sessions@,
            task.address,
        ).dom().len() == 0 && free == limit,
        step.action != TaskAction::Deactivate(DeactivationReason::Idle) ==> step.action
            == TaskAction::Receive && next == task && after.routes@ == before.routes@,
        step.action == TaskAction::Deactivate(DeactivationReason::Idle) ==> !after.active(
            task.address,
        ) && next.phase == TaskPhase::Deactivating(DeactivationReason::Idle) && next.address
            == task.address && next.generation == task.generation,
        step.replies@.len() == 0 && step.notices@.len() == 0,
{
}

/// Whoever waits for a Session to open is told once the Actor has processed the opening: that
/// it is open, or that the Actor stopped if it panicked. Nobody else is told anything.
pub proof fn law_processed_openings_are_answered<R>(complete: R, outcome: MessageOutcome)
    ensures
        message_reply(Some(complete), outcome).len() == 1,
        message_reply(Some(complete), outcome)[0].0 == complete,
        message_reply(Some(complete), outcome)[0].1 is Ok <==> outcome == MessageOutcome::Completed,
        outcome == MessageOutcome::Panicked ==> message_reply(Some(complete), outcome)[0].1 == Err::<
            (),
            SendError,
        >(SendError::ActorStopped),
        message_reply(None::<R>, outcome).len() == 0,
{
}

/// The end of a task removes its own route and frees its permit.
pub proof fn law_tasks_free_their_permit<M, T>(
    table: TableView<AddressView, M, T>,
    task: TaskView,
)
    requires
        table.routes.dom().finite(),
        table.routes.dom().contains(task.address),
        table.routes[task.address].generation == task.generation,
    ensures
        !without_route(table, task).routes.dom().contains(task.address),
        without_route(table, task).routes == table.routes.remove(task.address),
        without_route(table, task).available() == table.available() + 1,
        without_route(table, task).reserved == table.reserved,
        without_route(table, task).maximum == table.maximum,
{
    assert(table.routes.remove(task.address).dom() =~= table.routes.dom().remove(task.address));
}

/// An Actor is deactivated for idleness only while it serves, and for a shutdown only once
/// its mailbox is drained. Nothing follows on the end, and an Actor that has stopped serving
/// does not serve again.
pub proof fn law_phases_follow(before: TaskPhase, after: TaskPhase)
    requires
        follows(before, after),
    ensures
        after == TaskPhase::Deactivating(DeactivationReason::Idle) ==> before == TaskPhase::Serving,
        after == TaskPhase::Deactivating(DeactivationReason::Shutdown) ==> before
            == TaskPhase::Draining,
        after == TaskPhase::Draining ==> before == TaskPhase::Serving || before
            == TaskPhase::Draining,
        after == TaskPhase::Serving ==> before == TaskPhase::Activating || before
            == TaskPhase::Serving,
        after == TaskPhase::Releasing ==> before is Deactivating,
        after != TaskPhase::Activating,
        before != TaskPhase::Finished,
{
}

/// These steps are open to an Actor: it serves once it is activated, it may go on or begin to
/// drain, to be deactivated, to release its ownership, and it may end from any phase.
pub proof fn law_lives_go_on(before: TaskPhase)
    ensures
        follows(TaskPhase::Activating, TaskPhase::Serving),
        follows(TaskPhase::Serving, TaskPhase::Serving),
        follows(TaskPhase::Serving, TaskPhase::Draining),
        follows(TaskPhase::Serving, TaskPhase::Deactivating(DeactivationReason::Idle)),
        follows(TaskPhase::Draining, TaskPhase::Deactivating(DeactivationReason::Shutdown)),
        before is Deactivating ==> follows(before, TaskPhase::Releasing),
        before != TaskPhase::Finished ==> follows(before, TaskPhase::Finished),
{
}

/// A quiet step tells nobody anything.
pub proof fn law_quiet_steps_tell_nobody<R>(step: TaskStep<R>, action: TaskAction)
    requires
        step.quiet(action),
    ensures
        step.action == action,
        step.replies@.len() == 0,
        step.notices@.len() == 0,
{
}

} // verus!
