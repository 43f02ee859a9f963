//! The admission gate of the listener: at most one session at a time.
//!
//! Each accepted connection asks a capacity-one semaphore for a permit. A granted
//! permit travels with the session and is given back when the session ends; a
//! connection that finds no capacity only receives `already-connected`.
use crate::messages::ListenMessage;
use crate::protocol::ServerMessage;
use vstd::prelude::*;

verus! {

#[verifier::external_type_specification]
#[verifier::external_body]
#[verifier::reject_recursive_types(T)]
pub struct ExSemaphore<T>(semaphore::Semaphore<T>);

#[verifier::external_type_specification]
#[verifier::external_body]
#[verifier::reject_recursive_types(T)]
pub struct ExSemaphoreGuard<T>(semaphore::SemaphoreGuard<T>);

/// How many sessions may be admitted at once.
pub const ADMISSION_CAPACITY: usize = 1;

/// The answer of the semaphore to one request for a permit.
pub enum Admission {
    /// A permit, held until the value is dropped.
    Granted(semaphore::SemaphoreGuard<()>),
    /// Every permit is taken.
    NoCapacity,
    /// The semaphore was shut down.
    Shutdown,
}

/// What the listener does with one accepted connection, or after one event.
pub enum ListenerAction {
    /// Run a session on the connection; the permit goes with it.
    Serve(semaphore::SemaphoreGuard<()>),
    /// Answer `already-connected` and close.
    Deny,
    /// Stop accepting connections.
    Stop,
}

/// Relies on semaphore::Semaphore::new: a semaphore that hands out at most
/// `capacity` permits at a time.
#[verifier::external_body]
fn new_semaphore(capacity: usize) -> semaphore::Semaphore<()> {
    semaphore::Semaphore::new(capacity, ())
}

/// Relies on semaphore::Semaphore::try_access: a guard when a permit is free,
/// otherwise the reason why none was given. Which one comes back depends on the
/// sessions alive at the time of the call.
#[verifier::external_body]
fn try_access(gate: &semaphore::Semaphore<()>) -> Admission {
    match gate.try_access() {
        Ok(guard) => Admission::Granted(guard),
        Err(semaphore::TryAccessError::NoCapacity) => Admission::NoCapacity,
        Err(semaphore::TryAccessError::Shutdown) => Admission::Shutdown,
    }
}

/// The listener's accept loop, apart from the sockets.
pub struct Listener {
    gate: semaphore::Semaphore<()>,
    accepting: bool,
}

/// The message that a denied connection receives before it is closed.
pub fn denial_message() -> (r: ServerMessage)
    ensures
        r is AlreadyConnected,
{
    ServerMessage::AlreadyConnected
}

impl Listener {
    pub closed spec fn accepting_spec(&self) -> bool {
        self.accepting
    }

    pub fn new() -> (r: Listener)
        ensures
            r.accepting_spec(),
    {
        Listener { gate: new_semaphore(ADMISSION_CAPACITY), accepting: true }
    }

    pub fn is_accepting(&self) -> (r: bool)
        ensures
            r == self.accepting_spec(),
    {
        self.accepting
    }

    /// Decides what to do with a connection, given the semaphore's answer: a permit
    /// admits it, no capacity denies it, and a shut-down semaphore stops the loop.
    pub fn decide(&mut self, admission: Admission) -> (r: ListenerAction)
        requires
            old(self).accepting_spec(),
        ensures
            match admission {
                Admission::Granted(g) => r == ListenerAction::Serve(g)
                    && final(self).accepting_spec(),
                Admission::NoCapacity => r is Deny && final(self).accepting_spec(),
                Admission::Shutdown => r is Stop && !final(self).accepting_spec(),
            },
    {
        match admission {
            Admission::Granted(guard) => ListenerAction::Serve(guard),
            Admission::NoCapacity => ListenerAction::Deny,
            Admission::Shutdown => {
                self.accepting = false;
                ListenerAction::Stop
            },
        }
    }

    /// Handles one accepted connection: asks the semaphore for a permit and decides.
    pub fn on_connection(&mut self) -> (r: ListenerAction)
        requires
            old(self).accepting_spec(),
        ensures
            final(self).accepting_spec() == !(r is Stop),
    {
        let admission = try_access(&self.gate);
        self.decide(admission)
    }

    /// The accept itself failed: the loop stops.
    pub fn on_accept_error(&mut self) -> (r: ListenerAction)
        ensures
            r is Stop,
            !final(self).accepting_spec(),
    {
        self.accepting = false;
        ListenerAction::Stop
    }

    /// A message from the controller, or `None` for a closed channel: the loop stops.
    pub fn on_control(&mut self, msg: Option<ListenMessage>) -> (r: ListenerAction)
        ensures
            r is Stop,
            !final(self).accepting_spec(),
    {
        match msg {
            Some(ListenMessage::Terminate) | None => {
                self.accepting = false;
                ListenerAction::Stop
            },
        }
    }
}

} // verus!
