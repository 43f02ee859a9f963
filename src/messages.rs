//! The values carried by the capacity-one channels between the components.
use vstd::prelude::*;

verus! {

/// Controller to session.
#[derive(Debug, Clone, PartialEq, Eq)]
pub enum ConnectedMessage {
    AppReady,
    UpdateCode { code: String, play: bool },
    SendCode,
    Terminate,
}

/// Watcher and presentation to controller.
#[derive(Debug, Clone, PartialEq, Eq)]
pub enum WorkerMessage {
    FileChanged { code: String },
    /// Reading the target file failed; `error` describes why.
    WatchError { error: String },
    Start { download: bool },
    Stop,
    Terminate,
}

/// Controller to presentation.
#[derive(Debug, Clone, PartialEq, Eq)]
pub enum WorkerNotification {
    Details { title: String, question_id: i32 },
    Initialized,
    Stopped,
    Terminate,
}

/// Session to controller.
#[derive(Debug, Clone, PartialEq, Eq)]
pub enum ConnectedNotification {
    Details { title: String, question_id: i32 },
    Code { code: String },
}

/// Controller to listener.
#[derive(Debug, Clone, Copy, PartialEq, Eq)]
pub enum ListenMessage {
    Terminate,
}

} // verus!
