//! The recoverable errors of the library.

use vstd::prelude::*;

verus! {

/// What went wrong.
#[derive(Debug, Clone, Copy, PartialEq, Eq, Structural)]
pub enum ErrorKind {
    /// An edge of a rectangle lies below zero, so it names no pixel.
    NegativeVertex,
    /// A rounded edge of a rectangle does not fit in `usize`.
    Truncation,
    /// The tile map the player stands on is not part of the world.
    MissingTileMap,
}

/// An error of the library.
#[derive(Debug, Clone, Copy, PartialEq, Eq, Structural)]
pub struct ApplicationError {
    pub kind: ErrorKind,
}

/// The text that describes each kind of error.
pub open spec fn message_of(kind: ErrorKind) -> Seq<char> {
    match kind {
        ErrorKind::NegativeVertex => "Rectangle with negative vertex"@,
        ErrorKind::Truncation => "Rectangle vertex cannot be converted to usize"@,
        ErrorKind::MissingTileMap => "The player fell out of the world"@,
    }
}

impl ApplicationError {
    /// An error of the given kind.
    pub fn new(kind: ErrorKind) -> (error: Self)
        ensures
            error.kind == kind,
    {
        ApplicationError { kind }
    }

    /// The kind of this error.
    pub fn kind(&self) -> (kind: ErrorKind)
        ensures
            kind == self.kind,
    {
        self.kind
    }

    /// A description of the error for the user.
    pub fn message(&self) -> (text: String)
        ensures
            text@ == message_of(self.kind),
    {
        match self.kind {
            ErrorKind::NegativeVertex => "Rectangle with negative vertex".to_owned(),
            ErrorKind::Truncation => "Rectangle vertex cannot be converted to usize".to_owned(),
            ErrorKind::MissingTileMap => "The player fell out of the world".to_owned(),
        }
    }
}

} // verus!
