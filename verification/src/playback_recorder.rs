//! The bookkeeping of recording the input of a session and playing it back.
//!
//! The frames themselves are kept in a file by the platform. What is decided
//! here is which step the platform has to take with that file, and how many
//! frames the file holds and how many of them are still to be played.

use vstd::prelude::*;

verus! {

/// What the recorder is doing.
#[derive(Debug, Clone, Copy, PartialEq, Eq, Structural)]
pub enum RecorderMode {
    /// Neither recording nor playing.
    Idle,
    /// Frames are being added to the file.
    Recording,
    /// Frames are being read from the file.
    Playing,
}

/// The step to take with the file before a frame is recorded.
#[derive(Debug, Clone, Copy, PartialEq, Eq, Structural)]
pub enum RecordAction {
    /// Create the file anew, empty, and add the frame to it.
    Create,
    /// Add the frame to the file that is being written.
    Append,
}

/// The step to take with the file to play a frame back.
#[derive(Debug, Clone, Copy, PartialEq, Eq, Structural)]
pub enum PlaybackAction {
    /// There is no frame to play.
    Skip,
    /// Open the file at its beginning and read a frame from it.
    Open,
    /// Read the next frame from the file that is being read.
    Read,
}

/// What the recorder is doing and how many frames there are.
#[derive(Debug, Clone, Copy, PartialEq, Eq, Structural)]
pub struct PlaybackRecorder {
    pub mode: RecorderMode,
    pub total_recordings: usize,
    pub remaining_recordings: usize,
}

impl PlaybackRecorder {
    /// The step to take before a frame is recorded: the file is created anew
    /// unless it is being written already.
    pub open spec fn record_step(self) -> RecordAction {
        if self.mode == RecorderMode::Recording {
            RecordAction::Append
        } else {
            RecordAction::Create
        }
    }

    /// The step to take to play a frame back: after recording the file is
    /// opened; while playing it is read as long as frames are left.
    pub open spec fn playback_step(self) -> PlaybackAction {
        match self.mode {
            RecorderMode::Idle => PlaybackAction::Skip,
            RecorderMode::Recording => PlaybackAction::Open,
            RecorderMode::Playing => if self.remaining_recordings == 0 {
                PlaybackAction::Skip
            } else {
                PlaybackAction::Read
            },
        }
    }

    /// A recorder that does nothing and has no frames.
    #[must_use]
    pub fn new() -> (recorder: Self)
        ensures
            recorder == (PlaybackRecorder {
                mode: RecorderMode::Idle,
                total_recordings: 0,
                remaining_recordings: 0,
            }),
    {
        PlaybackRecorder { mode: RecorderMode::Idle, total_recordings: 0, remaining_recordings: 0 }
    }

    /// The step to take with the file before a frame is recorded.
    #[must_use]
    pub fn record(&self) -> (action: RecordAction)
        ensures
            action == self.record_step(),
    {
        match self.mode {
            RecorderMode::Recording => RecordAction::Append,
            _ => RecordAction::Create,
        }
    }

    /// Takes note that the file has been created anew: recording is under
    /// way and the file holds no frame.
    pub fn created(&mut self)
        ensures
            *final(self) == (PlaybackRecorder {
                mode: RecorderMode::Recording,
                total_recordings: 0,
                ..*old(self)
            }),
    {
        self.mode = RecorderMode::Recording;
        self.total_recordings = 0;
    }

    /// Takes note that a frame has been added to the file.
    pub fn recorded(&mut self)
        requires
            old(self).total_recordings < usize::MAX,
        ensures
            *final(self) == (PlaybackRecorder {
                total_recordings: (old(self).total_recordings + 1) as usize,
                ..*old(self)
            }),
    {
        self.total_recordings += 1;
    }

    /// The step to take with the file to play a frame back.
    #[must_use]
    pub fn playback(&self) -> (action: PlaybackAction)
        ensures
            action == self.playback_step(),
    {
        match self.mode {
            RecorderMode::Idle => PlaybackAction::Skip,
            RecorderMode::Recording => PlaybackAction::Open,
            RecorderMode::Playing => if self.remaining_recordings == 0 {
                PlaybackAction::Skip
            } else {
                PlaybackAction::Read
            },
        }
    }

    /// Takes note that the file has been opened at its beginning: playing is
    /// under way and every frame of the file is still to be played.
    pub fn opened(&mut self)
        ensures
            *final(self) == (PlaybackRecorder {
                mode: RecorderMode::Playing,
                remaining_recordings: old(self).total_recordings,
                ..*old(self)
            }),
    {
        self.mode = RecorderMode::Playing;
        self.remaining_recordings = self.total_recordings;
    }

    /// Takes note of an attempt to read a frame. A frame that was read is
    /// one less to play; a frame that could not be read ends the playing.
    pub fn played(&mut self, decoded: bool)
        requires
            decoded ==> old(self).remaining_recordings > 0,
        ensures
            *final(self) == (if decoded {
                PlaybackRecorder {
                    remaining_recordings: (old(self).remaining_recordings - 1) as usize,
                    ..*old(self)
                }
            } else {
                PlaybackRecorder { mode: RecorderMode::Idle, ..*old(self) }
            }),
    {
        if decoded {
            self.remaining_recordings -= 1;
        } else {
            self.mode = RecorderMode::Idle;
        }
    }

    /// Whether the file is to be opened at its beginning again to play it
    /// once more: while playing only.
    #[must_use]
    pub fn reset_playback(&self) -> (reopen: bool)
        ensures
            reopen == (self.mode == RecorderMode::Playing),
    {
        match self.mode {
            RecorderMode::Playing => true,
            _ => false,
        }
    }
}

impl Default for PlaybackRecorder {
    /// A recorder that does nothing and has no frames.
    fn default() -> (recorder: Self)
        ensures
            recorder == (PlaybackRecorder {
                mode: RecorderMode::Idle,
                total_recordings: 0,
                remaining_recordings: 0,
            }),
    {
        Self::new()
    }
}

} // verus!
