//! How the two front ends answer the controller's notifications.
use crate::messages::{WorkerMessage, WorkerNotification};
use vstd::prelude::*;

verus! {

/// The screen that the terminal interface shows.
#[derive(Debug, Clone, Copy, PartialEq, Eq, Structural)]
pub enum Screen {
    /// No editor has connected yet.
    Waiting,
    /// A question is known; offers upload, download and quit.
    Question,
    /// Syncing; offers the play switch, stop and quit.
    Running,
    /// The interface is to quit.
    Closed,
}

/// The screen shown after a notification.
pub open spec fn screen_after(s: Screen, n: WorkerNotification) -> Screen {
    match n {
        WorkerNotification::Details { .. } => Screen::Question,
        WorkerNotification::Initialized => Screen::Running,
        WorkerNotification::Stopped => Screen::Question,
        WorkerNotification::Terminate => Screen::Closed,
    }
}

pub fn next_screen(s: Screen, n: &WorkerNotification) -> (r: Screen)
    ensures
        r == screen_after(s, *n),
{
    match n {
        WorkerNotification::Details { .. } => Screen::Question,
        WorkerNotification::Initialized => Screen::Running,
        WorkerNotification::Stopped => Screen::Question,
        WorkerNotification::Terminate => Screen::Closed,
    }
}

/// Without the terminal interface, syncing starts as soon as a question is known,
/// downloading first when `download` is set.
pub fn headless_reply(n: &WorkerNotification, download: bool) -> (r: Option<WorkerMessage>)
    ensures
        match *n {
            WorkerNotification::Details { .. } => r == Some(WorkerMessage::Start { download }),
            _ => r is None,
        },
{
    match n {
        WorkerNotification::Details { .. } => Some(WorkerMessage::Start { download }),
        _ => None,
    }
}

} // verus!
