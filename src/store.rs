use vstd::prelude::*;

use crate::errors::{PasteError, PasteErrorKind};

verus! {

/// Where a read of a paste is, between two pieces of outside work.
pub enum ReadStage {
    /// Waiting for the paste directory to exist.
    CreatingDir,
    /// Waiting for the paste file to be opened.
    Opening,
    /// Waiting for the whole file to be read.
    Reading,
    /// Nothing more to do.
    Finished,
}

/// What the outside work reported.
pub enum ReadEvent {
    DirCreated,
    DirFailed,
    Opened,
    /// The file could not be opened; `missing` when it does not exist.
    OpenFailed { missing: bool },
    /// The whole file was read: its bytes.
    ReadDone(Vec<u8>),
    ReadFailed,
}

/// The outside work to do next.
pub enum ReadAction {
    /// Make sure the paste directory exists.
    CreateDir,
    /// Open the paste file named by the requested identifier.
    OpenFile,
    /// Read the open file to its end.
    ReadToEnd,
    /// Reply with these bytes.
    Respond(Vec<u8>),
    /// Reply with this error.
    Fail(PasteError),
}

/// A read of one paste.
pub struct PasteRead {
    pub stage: ReadStage,
}

pub open spec fn read_fails_with(a: ReadAction, kind: PasteErrorKind) -> bool {
    a is Fail && a->Fail_0.error_kind == kind
}

impl PasteRead {
    /// Starts a read: the paste directory is made sure of first.
    pub fn new() -> (r: (PasteRead, ReadAction))
        ensures
            r.0.stage is CreatingDir,
            r.1 is CreateDir,
    {
        (PasteRead { stage: ReadStage::CreatingDir }, ReadAction::CreateDir)
    }

    /// The events that the current stage waits for.
    pub open spec fn expects(self, e: ReadEvent) -> bool {
        match self.stage {
            ReadStage::CreatingDir => e is DirCreated || e is DirFailed,
            ReadStage::Opening => e is Opened || e is OpenFailed,
            ReadStage::Reading => e is ReadDone || e is ReadFailed,
            ReadStage::Finished => false,
        }
    }

    /// Whether the current stage waits for this event.
    pub fn expects_event(&self, e: &ReadEvent) -> (r: bool)
        ensures
            r == self.expects(*e),
    {
        match self.stage {
            ReadStage::CreatingDir => matches!(e, ReadEvent::DirCreated | ReadEvent::DirFailed),
            ReadStage::Opening => matches!(e, ReadEvent::Opened | ReadEvent::OpenFailed { .. }),
            ReadStage::Reading => matches!(e, ReadEvent::ReadDone(_) | ReadEvent::ReadFailed),
            ReadStage::Finished => false,
        }
    }

    /// Takes the outcome of the last piece of outside work and says what to
    /// do next. A directory that cannot be made is a write failure; a file
    /// that does not exist is not found; any other failure to open or read
    /// it is a read failure; a complete read is replied with unchanged.
    pub fn step(&mut self, event: ReadEvent) -> (a: ReadAction)
        requires
            old(self).expects(event),
        ensures
            match event {
                ReadEvent::DirCreated => final(self).stage is Opening && a is OpenFile,
                ReadEvent::Opened => final(self).stage is Reading && a is ReadToEnd,
                ReadEvent::ReadDone(b) => {
                    &&& final(self).stage is Finished
                    &&& a is Respond
                    &&& a->Respond_0@ == b@
                },
                ReadEvent::DirFailed => {
                    final(self).stage is Finished && read_fails_with(a, PasteErrorKind::FileWrite)
                },
                ReadEvent::OpenFailed { missing } => {
                    &&& final(self).stage is Finished
                    &&& missing ==> read_fails_with(a, PasteErrorKind::FileNotFound)
                    &&& !missing ==> read_fails_with(a, PasteErrorKind::FileRead)
                },
                ReadEvent::ReadFailed => {
                    final(self).stage is Finished && read_fails_with(a, PasteErrorKind::FileRead)
                },
            },
    {
        match event {
            ReadEvent::DirCreated => {
                self.stage = ReadStage::Opening;
                ReadAction::OpenFile
            },
            ReadEvent::Opened => {
                self.stage = ReadStage::Reading;
                ReadAction::ReadToEnd
            },
            ReadEvent::ReadDone(bytes) => {
                self.stage = ReadStage::Finished;
                ReadAction::Respond(bytes)
            },
            ReadEvent::DirFailed => {
                self.stage = ReadStage::Finished;
                ReadAction::Fail(
                    PasteError::new(PasteErrorKind::FileWrite, "Error when creating pastes directory"),
                )
            },
            ReadEvent::OpenFailed { missing } => {
                self.stage = ReadStage::Finished;
                if missing {
                    ReadAction::Fail(PasteError::new(PasteErrorKind::FileNotFound, "Error when opening file"))
                } else {
                    ReadAction::Fail(PasteError::new(PasteErrorKind::FileRead, "Error when opening file"))
                }
            },
            ReadEvent::ReadFailed => {
                self.stage = ReadStage::Finished;
                ReadAction::Fail(PasteError::new(PasteErrorKind::FileRead, "Error when reading file"))
            },
        }
    }
}

} // verus!
