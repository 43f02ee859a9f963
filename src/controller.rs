//! The synchronization controller: the one owner of synchronization state.
//!
//! It takes commands from the presentation and the watcher, notifications from the
//! session, and answers each with an ordered list of actions for the driver to
//! carry out on the channels and on the target file.
use crate::messages::{
    ConnectedMessage, ConnectedNotification, ListenMessage, WorkerMessage, WorkerNotification,
};
use vstd::prelude::*;

verus! {

#[derive(Debug, Clone, Copy, PartialEq, Eq, Structural)]
pub enum Phase {
    /// No peer metadata yet.
    Idle,
    /// Metadata known, not relaying.
    Ready,
    /// Relaying local changes to the peer.
    Syncing,
    /// Shut down; no further event has an effect.
    Terminating,
}

/// One effect that the controller asks for, in the order given.
#[derive(Debug, Clone, PartialEq, Eq)]
pub enum ControllerAction {
    ToSession(ConnectedMessage),
    ToListener(ListenMessage),
    Notify(WorkerNotification),
    /// Replace the target file's contents with `code`.
    WriteTarget { code: String },
}

/// The controller's state.
pub struct State {
    phase: Phase,
    send_code_pending: bool,
}

/// What the controller's state means: its phase, and whether the next `Code`
/// notification is to be written to the target file.
pub struct ControllerModel {
    pub phase: Phase,
    pub pending: bool,
}

impl View for State {
    type V = ControllerModel;

    closed spec fn view(&self) -> ControllerModel {
        ControllerModel { phase: self.phase, pending: self.send_code_pending }
    }
}

/// One input of the controller: a command (with the play flag read when it is
/// handled), or a notification from the session.
pub enum ControllerEvent {
    Message(WorkerMessage, bool),
    Notification(ConnectedNotification),
}

/// The cascade that shuts the system down: session, then listener, then presentation.
pub open spec fn shutdown_actions() -> Seq<ControllerAction> {
    seq![
        ControllerAction::ToSession(ConnectedMessage::Terminate),
        ControllerAction::ToListener(ListenMessage::Terminate),
        ControllerAction::Notify(WorkerNotification::Terminate),
    ]
}

/// The next state and the actions for a command.
pub open spec fn on_message(m: ControllerModel, msg: WorkerMessage, play: bool) -> (
    ControllerModel,
    Seq<ControllerAction>,
) {
    if m.phase == Phase::Terminating {
        (m, seq![])
    } else {
        match msg {
            WorkerMessage::FileChanged { code } => if m.phase == Phase::Syncing {
                (m, seq![ControllerAction::ToSession(ConnectedMessage::UpdateCode { code, play })])
            } else {
                (m, seq![])
            },
            WorkerMessage::WatchError { .. } => (m, seq![]),
            WorkerMessage::Start { download } => (
                ControllerModel { phase: Phase::Syncing, pending: download },
                seq![
                    ControllerAction::ToSession(ConnectedMessage::AppReady),
                    ControllerAction::Notify(WorkerNotification::Initialized),
                ],
            ),
            WorkerMessage::Stop => (
                ControllerModel {
                    phase: if m.phase == Phase::Syncing { Phase::Ready } else { m.phase },
                    pending: false,
                },
                seq![ControllerAction::Notify(WorkerNotification::Stopped)],
            ),
            WorkerMessage::Terminate => (
                ControllerModel { phase: Phase::Terminating, pending: false },
                shutdown_actions(),
            ),
        }
    }
}

/// The next state and the actions for a notification of the session.
pub open spec fn on_notification(m: ControllerModel, n: ConnectedNotification) -> (
    ControllerModel,
    Seq<ControllerAction>,
) {
    if m.phase == Phase::Terminating {
        (m, seq![])
    } else {
        match n {
            ConnectedNotification::Details { title, question_id } => (
                ControllerModel {
                    phase: if m.phase == Phase::Idle { Phase::Ready } else { m.phase },
                    pending: m.pending,
                },
                seq![ControllerAction::Notify(WorkerNotification::Details { title, question_id })],
            ),
            ConnectedNotification::Code { code } => if m.pending {
                (
                    ControllerModel { phase: m.phase, pending: false },
                    seq![ControllerAction::WriteTarget { code }],
                )
            } else {
                (m, seq![])
            },
        }
    }
}

pub open spec fn on_event(m: ControllerModel, e: ControllerEvent) -> (
    ControllerModel,
    Seq<ControllerAction>,
) {
    match e {
        ControllerEvent::Message(msg, play) => on_message(m, msg, play),
        ControllerEvent::Notification(n) => on_notification(m, n),
    }
}

/// The final state and all the actions, in order, for a sequence of events.
pub open spec fn run(m: ControllerModel, events: Seq<ControllerEvent>) -> (
    ControllerModel,
    Seq<ControllerAction>,
)
    decreases events.len(),
{
    if events.len() == 0 {
        (m, seq![])
    } else {
        let (m1, a1) = on_event(m, events[0]);
        let (m2, a2) = run(m1, events.drop_first());
        (m2, a1 + a2)
    }
}

/// A pending download exists only while syncing.
pub open spec fn model_wf(m: ControllerModel) -> bool {
    m.pending ==> m.phase == Phase::Syncing
}

pub open spec fn writes_target(actions: Seq<ControllerAction>) -> bool {
    exists|i: int| 0 <= i < actions.len() && #[trigger] actions[i] is WriteTarget
}

pub open spec fn sends_update(actions: Seq<ControllerAction>) -> bool {
    exists|i: int|
        0 <= i < actions.len() && #[trigger] actions[i] matches ControllerAction::ToSession(
            ConnectedMessage::UpdateCode { .. },
        )
}

/// Once terminating, no sequence of events changes the state or asks for any action.
pub proof fn lemma_terminated_is_inert(m: ControllerModel, events: Seq<ControllerEvent>)
    requires
        m.phase == Phase::Terminating,
    ensures
        run(m, events) == (m, Seq::<ControllerAction>::empty()),
    decreases events.len(),
{
    if events.len() > 0 {
        lemma_terminated_is_inert(m, events.drop_first());
        let (m1, a1) = on_event(m, events[0]);
        assert(a1 + Seq::<ControllerAction>::empty() =~= Seq::<ControllerAction>::empty());
    }
}

/// Stopping while ready gives one `Stopped` notification, stays ready, leaves no
/// download pending and writes nothing; a second stop does exactly the same.
pub proof fn lemma_stop_when_ready(m: ControllerModel, play: bool)
    requires
        model_wf(m),
        m.phase == Phase::Ready,
    ensures
        on_message(m, WorkerMessage::Stop, play) == (
            ControllerModel { phase: Phase::Ready, pending: false },
            seq![ControllerAction::Notify(WorkerNotification::Stopped)],
        ),
        !writes_target(on_message(m, WorkerMessage::Stop, play).1),
        on_message(on_message(m, WorkerMessage::Stop, play).0, WorkerMessage::Stop, play)
            == on_message(m, WorkerMessage::Stop, play),
{
    let a = on_message(m, WorkerMessage::Stop, play).1;
    assert(a[0] is Notify);
}

/// File changes reported while not syncing leave the state as it is and send
/// nothing to the session, however many of them arrive.
pub proof fn lemma_file_changes_outside_sync(m: ControllerModel, events: Seq<ControllerEvent>)
    requires
        m.phase != Phase::Syncing,
        forall|i: int|
            0 <= i < events.len() ==> #[trigger] events[i] matches ControllerEvent::Message(
                WorkerMessage::FileChanged { .. },
                _,
            ),
    ensures
        run(m, events) == (m, Seq::<ControllerAction>::empty()),
        !sends_update(run(m, events).1),
    decreases events.len(),
{
    if events.len() > 0 {
        let rest = events.drop_first();
        assert forall|i: int| 0 <= i < rest.len() implies #[trigger] rest[i] matches ControllerEvent::Message(
            WorkerMessage::FileChanged { .. },
            _,
        ) by {
            assert(rest[i] == events[i + 1]);
        }
        lemma_file_changes_outside_sync(m, rest);
        let (m1, a1) = on_event(m, events[0]);
        assert(a1 + Seq::<ControllerAction>::empty() =~= Seq::<ControllerAction>::empty());
    }
}

/// A `Terminate` command handled in any live state sends `Terminate` to the session,
/// then to the listener, then to the presentation; whatever arrives afterwards
/// writes nothing and sends nothing.
pub proof fn lemma_shutdown_cascade(
    m: ControllerModel,
    play: bool,
    later: Seq<ControllerEvent>,
)
    requires
        model_wf(m),
        m.phase != Phase::Terminating,
    ensures
        run(m, seq![ControllerEvent::Message(WorkerMessage::Terminate, play)] + later) == (
            ControllerModel { phase: Phase::Terminating, pending: false },
            shutdown_actions(),
        ),
{
    let events = seq![ControllerEvent::Message(WorkerMessage::Terminate, play)] + later;
    let t = ControllerModel { phase: Phase::Terminating, pending: false };
    assert(events.drop_first() =~= later);
    lemma_terminated_is_inert(t, later);
    assert(shutdown_actions() + Seq::<ControllerAction>::empty() =~= shutdown_actions());
}

/// A pending download is consumed by the first `Code` notification alone: the
/// second one, with no new `Start`, writes nothing.
pub proof fn lemma_download_once(m: ControllerModel, first: String, second: String)
    requires
        model_wf(m),
        m.phase == Phase::Syncing,
        m.pending,
    ensures
        run(
            m,
            seq![
                ControllerEvent::Notification(ConnectedNotification::Code { code: first }),
                ControllerEvent::Notification(ConnectedNotification::Code { code: second }),
            ],
        ) == (
            ControllerModel { phase: Phase::Syncing, pending: false },
            seq![ControllerAction::WriteTarget { code: first }],
        ),
{
    let e1 = ControllerEvent::Notification(ConnectedNotification::Code { code: first });
    let e2 = ControllerEvent::Notification(ConnectedNotification::Code { code: second });
    let events = seq![e1, e2];
    let m1 = ControllerModel { phase: Phase::Syncing, pending: false };
    assert(events.drop_first() =~= seq![e2]);
    assert(seq![e2].drop_first() =~= Seq::<ControllerEvent>::empty());
    assert(on_event(m1, e2) == (m1, Seq::<ControllerAction>::empty()));
    assert(run(m1, Seq::<ControllerEvent>::empty()) == (m1, Seq::<ControllerAction>::empty()));
    assert(Seq::<ControllerAction>::empty() + Seq::<ControllerAction>::empty()
        =~= Seq::<ControllerAction>::empty());
    assert(run(m1, seq![e2]) == (m1, Seq::<ControllerAction>::empty()));
    assert(seq![ControllerAction::WriteTarget { code: first }] + Seq::<ControllerAction>::empty()
        =~= seq![ControllerAction::WriteTarget { code: first }]);
}

impl State {
    pub open spec fn wf(&self) -> bool {
        model_wf(self@)
    }

    pub fn new() -> (r: State)
        ensures
            r.wf(),
            r@ == (ControllerModel { phase: Phase::Idle, pending: false }),
    {
        State { phase: Phase::Idle, send_code_pending: false }
    }

    pub fn phase(&self) -> (r: Phase)
        ensures
            r == self@.phase,
    {
        self.phase
    }

    /// Whether the next `Code` notification will be written to the target file.
    pub fn download_pending(&self) -> (r: bool)
        ensures
            r == self@.pending,
    {
        self.send_code_pending
    }

    pub fn is_terminated(&self) -> (r: bool)
        ensures
            r == (self@.phase == Phase::Terminating),
    {
        self.phase == Phase::Terminating
    }

    /// Handles a command from the watcher or the presentation. `play` is the
    /// current value of the shared play flag.
    pub fn handle_message(&mut self, msg: WorkerMessage, play: bool) -> (r: Vec<ControllerAction>)
        requires
            old(self).wf(),
        ensures
            final(self).wf(),
            (final(self)@, r@) == on_message(old(self)@, msg, play),
    {
        let mut actions: Vec<ControllerAction> = Vec::new();
        if self.phase == Phase::Terminating {
            return actions;
        }
        match msg {
            WorkerMessage::FileChanged { code } => {
                if self.phase == Phase::Syncing {
                    actions.push(
                        ControllerAction::ToSession(ConnectedMessage::UpdateCode { code, play }),
                    );
                }
            },
            WorkerMessage::WatchError { .. } => {},
            WorkerMessage::Start { download } => {
                self.phase = Phase::Syncing;
                self.send_code_pending = download;
                actions.push(ControllerAction::ToSession(ConnectedMessage::AppReady));
                actions.push(ControllerAction::Notify(WorkerNotification::Initialized));
            },
            WorkerMessage::Stop => {
                if self.phase == Phase::Syncing {
                    self.phase = Phase::Ready;
                }
                self.send_code_pending = false;
                actions.push(ControllerAction::Notify(WorkerNotification::Stopped));
            },
            WorkerMessage::Terminate => {
                self.phase = Phase::Terminating;
                self.send_code_pending = false;
                actions.push(ControllerAction::ToSession(ConnectedMessage::Terminate));
                actions.push(ControllerAction::ToListener(ListenMessage::Terminate));
                actions.push(ControllerAction::Notify(WorkerNotification::Terminate));
            },
        }
        proof {
            assert(actions@ =~= on_message(old(self)@, msg, play).1);
        }
        actions
    }

    /// Handles a notification from the session.
    pub fn handle_notification(&mut self, n: ConnectedNotification) -> (r: Vec<ControllerAction>)
        requires
            old(self).wf(),
        ensures
            final(self).wf(),
            (final(self)@, r@) == on_notification(old(self)@, n),
    {
        let mut actions: Vec<ControllerAction> = Vec::new();
        if self.phase == Phase::Terminating {
            return actions;
        }
        match n {
            ConnectedNotification::Details { title, question_id } => {
                if self.phase == Phase::Idle {
                    self.phase = Phase::Ready;
                }
                actions.push(
                    ControllerAction::Notify(WorkerNotification::Details { title, question_id }),
                );
            },
            ConnectedNotification::Code { code } => {
                if self.send_code_pending {
                    actions.push(ControllerAction::WriteTarget { code });
                    self.send_code_pending = false;
                }
            },
        }
        proof {
            assert(actions@ =~= on_notification(old(self)@, n).1);
        }
        actions
    }
}

} // verus!
