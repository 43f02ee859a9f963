//! The configuration shared by the components.
use vstd::prelude::*;

verus! {

/// Address that the browser extension connects to unless told otherwise.
pub const DEFAULT_BIND: &'static str = "127.0.0.1:53135";

/// Options of one run of the bridge.
#[derive(Debug, Clone, PartialEq, Eq)]
pub struct Opts {
    /// Address to bind to for the extension.
    pub bind: String,
    /// Path of the file kept in sync with the editor.
    pub target: String,
    /// Fetch the editor's contents into the file before syncing.
    pub download: bool,
    /// Ask the editor to run the code after each upload; changed at run time.
    pub play: bool,
    /// Run without the terminal interface.
    pub no_gui: bool,
}

impl Opts {
    pub fn set_play(&mut self, play: bool)
        ensures
            final(self).play == play,
            final(self).bind == old(self).bind,
            final(self).target == old(self).target,
            final(self).download == old(self).download,
            final(self).no_gui == old(self).no_gui,
    {
        self.play = play;
    }
}

} // verus!
