//! The bookkeeping of replacing the game while it runs.
//!
//! The game may be kept in a file of its own that is built anew while the
//! platform runs. The platform never runs that file itself but a copy of it,
//! so that the file can be written. What is decided here is when a new copy
//! is due and which number it carries.

use vstd::prelude::*;

verus! {

/// The step to take when the file of the game has been looked at.
#[derive(Debug, Clone, Copy, PartialEq, Eq, Structural)]
pub enum LoadAction {
    /// No copy has been made yet: make the first one and run it.
    First,
    /// The file is newer than the copy that runs: make a new copy, give up
    /// the game that runs, and run the new copy.
    Replace,
    /// The copy that runs is up to date.
    Keep,
}

/// The number of the copy that runs and the time the file of the game was
/// written when that copy was made.
#[derive(Debug, Clone, Copy, PartialEq, Eq, Structural)]
pub struct ApplicationLoader {
    pub last_counter: usize,
    pub last_modified: Option<u64>,
}

impl ApplicationLoader {
    /// The step that a file written at `current_modified` asks for.
    pub open spec fn load_step(self, current_modified: u64) -> LoadAction {
        match self.last_modified {
            None => LoadAction::First,
            Some(last_modified) => if last_modified < current_modified {
                LoadAction::Replace
            } else {
                LoadAction::Keep
            },
        }
    }

    /// A loader that has made no copy yet.
    #[must_use]
    pub fn new() -> (loader: Self)
        ensures
            loader == (ApplicationLoader { last_counter: 0, last_modified: None }),
    {
        ApplicationLoader { last_counter: 0, last_modified: None }
    }

    /// The step to take for a file that was written at `current_modified`.
    #[must_use]
    pub fn load(&self, current_modified: u64) -> (action: LoadAction)
        ensures
            action == self.load_step(current_modified),
    {
        match self.last_modified {
            None => LoadAction::First,
            Some(last_modified) => if last_modified < current_modified {
                LoadAction::Replace
            } else {
                LoadAction::Keep
            },
        }
    }

    /// Takes note that the copy of the current number could not be written,
    /// as happens while the copy is still in use: the next number is tried.
    pub fn copy_failed(&mut self)
        requires
            old(self).last_counter < usize::MAX,
        ensures
            *final(self) == (ApplicationLoader {
                last_counter: (old(self).last_counter + 1) as usize,
                ..*old(self)
            }),
    {
        self.last_counter += 1;
    }

    /// Takes note that a copy of the file written at `current_modified` has
    /// been made.
    pub fn copied(&mut self, current_modified: u64)
        ensures
            *final(self) == (ApplicationLoader {
                last_modified: Some(current_modified),
                ..*old(self)
            }),
    {
        self.last_modified = Some(current_modified);
    }
}

impl Default for ApplicationLoader {
    /// A loader that has made no copy yet.
    fn default() -> (loader: Self)
        ensures
            loader == (ApplicationLoader { last_counter: 0, last_modified: None }),
    {
        Self::new()
    }
}

} // verus!
