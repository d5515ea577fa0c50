//! The supervisor of a connection: it sets up the inbound reader and the
//! protocol driver, and tears both down, with the socket, as soon as either
//! of them ends or the caller lets go of the connection.

use crate::incoming_receiver::IncomingReceiver;
use crate::network::Network;
use crate::protocol_driver::ProtocolDriver;
use vstd::prelude::*;

verus! {

/// One of the two tasks of a connection.
#[derive(Copy, Clone, Debug, PartialEq, Eq)]
pub enum Task {
    /// The task that runs the inbound reader.
    Reader,
    /// The task that runs the protocol driver.
    Driver,
}

/// What ends a connection.
#[derive(Copy, Clone, Debug, PartialEq, Eq)]
pub enum SupervisorEvent {
    /// A task has ended. However it ended, a healthy connection runs both.
    TaskEnded(Task),
    /// The caller has dropped its end of the connection.
    HandleDropped,
}

/// A step of the teardown of a connection.
#[derive(Copy, Clone, Debug, PartialEq, Eq)]
pub enum SupervisorAction {
    /// Cancel the task that runs the inbound reader.
    AbortReader,
    /// Cancel the task that runs the protocol driver.
    AbortDriver,
    /// Close the socket for both directions.
    ShutdownSocket,
}

/// The teardown of a connection: every task that is still running is
/// cancelled, then the socket is closed.
pub open spec fn teardown(event: SupervisorEvent) -> Seq<SupervisorAction> {
    match event {
        SupervisorEvent::TaskEnded(Task::Reader) => seq![
            SupervisorAction::AbortDriver,
            SupervisorAction::ShutdownSocket,
        ],
        SupervisorEvent::TaskEnded(Task::Driver) => seq![
            SupervisorAction::AbortReader,
            SupervisorAction::ShutdownSocket,
        ],
        SupervisorEvent::HandleDropped => seq![
            SupervisorAction::AbortReader,
            SupervisorAction::AbortDriver,
            SupervisorAction::ShutdownSocket,
        ],
    }
}

/// The supervisor of one connection. It supervises until the first event
/// that ends the connection, and then stays stopped.
#[derive(Debug)]
pub struct ConnectionActor {
    network: Network,
    stopped: bool,
}

impl ConnectionActor {
    /// The network of the connection.
    pub closed spec fn spec_network(&self) -> Network {
        self.network
    }

    /// Whether the connection has been torn down.
    pub closed spec fn spec_is_stopped(&self) -> bool {
        self.stopped
    }

    /// The supervisor of a connection on `network`, not yet torn down.
    pub fn new(network: Network) -> (actor: ConnectionActor)
        ensures
            actor.network() == network,
            !actor.is_stopped(),
    {
        ConnectionActor { network, stopped: false }
    }

    /// The network of the connection.
    #[verifier::when_used_as_spec(spec_network)]
    pub fn network(&self) -> (network: Network)
        ensures
            network == self.spec_network(),
    {
        self.network
    }

    /// Whether the connection has been torn down.
    #[verifier::when_used_as_spec(spec_is_stopped)]
    pub fn is_stopped(&self) -> (stopped: bool)
        ensures
            stopped == self.spec_is_stopped(),
    {
        self.stopped
    }

    /// The protocol driver of the connection, running.
    pub fn init_protocol_driver(&self) -> (driver: ProtocolDriver)
        ensures
            driver.network() == self.network(),
            !driver.is_stopped(),
    {
        ProtocolDriver::new(self.network)
    }

    /// The inbound reader of the connection, running.
    pub fn init_node_message_broadcast(&self) -> (reader: IncomingReceiver)
        ensures
            !reader.is_stopped(),
    {
        IncomingReceiver::new()
    }

    /// Reacts to an event that ends the connection. The first such event
    /// tears the connection down: the actions are those of [`teardown`], in
    /// their order. After that nothing is left to do, so the socket is
    /// closed once and no more.
    pub fn run(&mut self, event: SupervisorEvent) -> (actions: Vec<SupervisorAction>)
        ensures
            final(self).network() == old(self).network(),
            final(self).is_stopped(),
            actions@ == if old(self).is_stopped() {
                Seq::<SupervisorAction>::empty()
            } else {
                teardown(event)
            },
    {
        let mut actions: Vec<SupervisorAction> = Vec::new();
        if !self.stopped {
            self.stopped = true;
            match event {
                SupervisorEvent::TaskEnded(Task::Reader) => {
                    actions.push(SupervisorAction::AbortDriver);
                },
                SupervisorEvent::TaskEnded(Task::Driver) => {
                    actions.push(SupervisorAction::AbortReader);
                },
                SupervisorEvent::HandleDropped => {
                    actions.push(SupervisorAction::AbortReader);
                    actions.push(SupervisorAction::AbortDriver);
                },
            }
            actions.push(SupervisorAction::ShutdownSocket);
        }
        actions
    }
}

/// A failure of one side takes the other side down with it: when a task
/// ends, the teardown cancels the other task.
pub proof fn lemma_teardown_cancels_the_other_task(ended: Task)
    ensures
        teardown(SupervisorEvent::TaskEnded(ended)).contains(
            match ended {
                Task::Reader => SupervisorAction::AbortDriver,
                Task::Driver => SupervisorAction::AbortReader,
            },
        ),
{
    let actions = teardown(SupervisorEvent::TaskEnded(ended));
    assert(actions[0] == match ended {
        Task::Reader => SupervisorAction::AbortDriver,
        Task::Driver => SupervisorAction::AbortReader,
    });
}

/// Every teardown closes the socket, once and as its last step.
pub proof fn lemma_teardown_closes_the_socket_once(event: SupervisorEvent)
    ensures
        teardown(event).len() > 0,
        teardown(event).last() == SupervisorAction::ShutdownSocket,
        forall|i: int|
            0 <= i < teardown(event).len() - 1 ==> teardown(event)[i]
                != SupervisorAction::ShutdownSocket,
{
}

} // verus!
