//! State of the full-screen application shell.
use crate::entity::Collection;
use vstd::prelude::*;

verus! {

/// What the shell shows: the URL being edited and the loaded collections.
pub struct AppTuistate {
    pub current_url: String,
    pub collections: Vec<Collection>,
}

/// The application shell: its state and whether the user asked to leave.
pub struct AppTui {
    state: AppTuistate,
    is_exit: bool,
}

/// The key that leaves the application.
pub open spec fn is_quit_key(key: char) -> bool {
    key == 'q'
}

impl AppTui {
    pub closed spec fn spec_state(&self) -> AppTuistate {
        self.state
    }

    pub closed spec fn spec_is_exit(&self) -> bool {
        self.is_exit
    }

    pub fn new() -> (r: Self)
        ensures
            !r.spec_is_exit(),
            r.spec_state().current_url@.len() == 0,
            r.spec_state().collections@.len() == 0,
    {
        AppTui {
            state: AppTuistate { current_url: String::new(), collections: Vec::new() },
            is_exit: false,
        }
    }

    pub fn state(&self) -> (r: &AppTuistate)
        ensures
            *r == self.spec_state(),
    {
        &self.state
    }

    /// Whether the user asked to leave.
    pub fn is_finish(&self) -> (r: bool)
        ensures
            r == self.spec_is_exit(),
    {
        self.is_exit
    }

    /// Reacts to a pressed character key: `q` asks to leave.
    pub fn press(&mut self, key: char)
        ensures
            final(self).spec_state() == old(self).spec_state(),
            final(self).spec_is_exit() == (old(self).spec_is_exit() || is_quit_key(key)),
    {
        if key == 'q' {
            self.is_exit = true;
        }
    }
}

} // verus!
