use vstd::prelude::*;

use crate::auth::{check_bearer_token, token_accepted};
use crate::errors::{PasteError, PasteErrorKind};
use crate::ident::{generate_id, is_paste_id};

verus! {

#[verifier::external_type_specification]
#[verifier::external_body]
pub struct ExMime(mime::Mime);

/// The top-level media type of a parsed content type.
pub uninterp spec fn top_type_of(m: mime::Mime) -> Seq<char>;

/// The `boundary` parameter of a parsed content type, if it has one.
pub uninterp spec fn boundary_of(m: mime::Mime) -> Option<Seq<char>>;

/// Relies on `mime::Mime::type_`: the top-level media type, as parsed.
#[verifier::external_body]
fn media_top_type(m: &mime::Mime) -> (r: String)
    ensures
        r@ == top_type_of(*m),
{
    m.type_().as_str().to_string()
}

/// Relies on `mime::Mime::get_param`: the value of the `boundary` parameter,
/// if the media type carries one.
#[verifier::external_body]
fn boundary_param(m: &mime::Mime) -> (r: Option<String>)
    ensures
        r is Some <==> boundary_of(*m) is Some,
        r is Some ==> r->0@ == boundary_of(*m)->0,
{
    m.get_param(mime::BOUNDARY).map(|v| v.as_str().to_string())
}

/// The top-level media type of a multipart body.
pub open spec fn multipart_type() -> Seq<char> {
    seq!['m', 'u', 'l', 't', 'i', 'p', 'a', 'r', 't']
}

/// Where the upload is, between two pieces of outside work.
pub enum UploadStage {
    /// Waiting for the multipart stream to yield its first field.
    AwaitingField,
    /// Waiting for the paste directory to exist.
    CreatingDir,
    /// Waiting for the new paste file to be created.
    CreatingFile { id: String },
    /// Waiting for the next chunk of the field.
    Receiving { id: String },
    /// Waiting for a chunk to be written to the file.
    Writing { id: String },
    /// Waiting for the file to be flushed.
    Flushing { id: String },
    /// Waiting for the partial file to be removed; the error is then reported.
    Removing { id: String, error: PasteError },
    /// Nothing more to do.
    Finished,
}

/// What the outside work reported.
pub enum UploadEvent {
    /// The multipart stream yielded its first field.
    FieldOpened,
    /// The multipart stream ended, or failed, before any field.
    NoField,
    DirCreated,
    DirFailed,
    FileCreated,
    FileFailed,
    /// The field yielded a chunk of bytes.
    Chunk(Vec<u8>),
    /// The field ended.
    ChunksEnded,
    /// The field broke off, for instance because the client went away.
    ChunkFailed,
    Written,
    WriteFailed,
    Flushed,
    FlushFailed,
    Removed,
    RemoveFailed,
}

/// The outside work to do next.
pub enum UploadAction {
    /// Pull the first field of the multipart stream.
    NextField,
    /// Make sure the paste directory exists.
    CreateDir,
    /// Create a new file named by this identifier in the paste directory.
    CreateFile(String),
    /// Pull the next chunk of the field.
    NextChunk,
    /// Write these bytes to the end of the file.
    Write(Vec<u8>),
    /// Flush the file.
    Flush,
    /// Remove the file named by this identifier.
    RemoveFile(String),
    /// Reply with a redirect to this location.
    Redirect(String),
    /// Reply with this error.
    Fail(PasteError),
}

/// An upload in progress, with the bytes received and written so far.
pub struct Upload {
    pub stage: UploadStage,
    /// Every byte the field has yielded, in order.
    pub received: Ghost<Seq<u8>>,
    /// Every byte confirmed written to the file, in order.
    pub written: Ghost<Seq<u8>>,
}

/// The redirect location of a paste.
pub open spec fn location_of(id: Seq<char>) -> Seq<char> {
    seq!['/'] + id
}

pub open spec fn fails_with(a: UploadAction, kind: PasteErrorKind) -> bool {
    a is Fail && a->Fail_0.error_kind == kind
}

impl UploadStage {
    /// The identifier of the paste file, once one was chosen.
    pub open spec fn id(self) -> Option<Seq<char>> {
        match self {
            UploadStage::CreatingFile { id } => Some(id@),
            UploadStage::Receiving { id } => Some(id@),
            UploadStage::Writing { id } => Some(id@),
            UploadStage::Flushing { id } => Some(id@),
            UploadStage::Removing { id, .. } => Some(id@),
            _ => None,
        }
    }
}

impl Upload {
    pub open spec fn wf(self) -> bool {
        &&& self.written@.len() <= self.received@.len()
        &&& self.written@ == self.received@.subrange(0, self.written@.len() as int)
        &&& !(self.stage is Writing || self.stage is Removing || self.stage is Finished)
            ==> self.written@ == self.received@
        &&& (self.stage.id() is Some ==> is_paste_id(self.stage.id()->0))
        &&& (self.stage is Removing ==> self.stage->Removing_error.error_kind
            == PasteErrorKind::FileWrite)
    }

    /// The events that the current stage waits for.
    pub open spec fn expects(self, e: UploadEvent) -> bool {
        match self.stage {
            UploadStage::AwaitingField => e is FieldOpened || e is NoField,
            UploadStage::CreatingDir => e is DirCreated || e is DirFailed,
            UploadStage::CreatingFile { .. } => e is FileCreated || e is FileFailed,
            UploadStage::Receiving { .. } => e is Chunk || e is ChunksEnded || e is ChunkFailed,
            UploadStage::Writing { .. } => e is Written || e is WriteFailed,
            UploadStage::Flushing { .. } => e is Flushed || e is FlushFailed,
            UploadStage::Removing { .. } => e is Removed || e is RemoveFailed,
            UploadStage::Finished => false,
        }
    }
}

/// Decides whether a request may start an upload: the token first, then the
/// media type, which must be multipart with a boundary. On success, the
/// boundary.
pub fn accept_request(auth_header: &str, secret: &str, top_type: &str, boundary: Option<String>) -> (r:
    Result<String, PasteError>)
    ensures
        !token_accepted(auth_header@, secret@) ==> (r is Err && r->Err_0.error_kind
            == PasteErrorKind::InvalidAuthorization),
        token_accepted(auth_header@, secret@) && (top_type@ != multipart_type()
            || boundary is None) ==> (r is Err && r->Err_0.error_kind
            == PasteErrorKind::InvalidRequest),
        token_accepted(auth_header@, secret@) && top_type@ == multipart_type()
            && boundary is Some ==> (r is Ok && r->Ok_0@ == boundary->0@),
{
    if let Err(e) = check_bearer_token(auth_header, secret) {
        return Err(e);
    }
    let multipart = "multipart";
    proof {
        reveal_strlit("multipart");
    }
    assert(multipart@ =~= multipart_type());
    if top_type.to_owned() != multipart.to_owned() {
        return Err(PasteError::new(PasteErrorKind::InvalidRequest, "Content type is not multipart"));
    }
    match boundary {
        Some(b) => Ok(b),
        None => Err(PasteError::new(PasteErrorKind::InvalidRequest, "Error getting multipart boundary")),
    }
}

impl Upload {
    /// Starts an upload for a request with this authorization header and
    /// content type. On success, the upload waits for the first field of the
    /// multipart body, whose boundary comes with it.
    pub fn begin(auth_header: &str, secret: &str, content_type: &mime::Mime) -> (r: Result<
        (Upload, String),
        PasteError,
    >)
        ensures
            !token_accepted(auth_header@, secret@) ==> (r is Err && r->Err_0.error_kind
                == PasteErrorKind::InvalidAuthorization),
            token_accepted(auth_header@, secret@) && (top_type_of(*content_type)
                != multipart_type() || boundary_of(*content_type) is None) ==> (r is Err
                && r->Err_0.error_kind == PasteErrorKind::InvalidRequest),
            token_accepted(auth_header@, secret@) && top_type_of(*content_type)
                == multipart_type() && boundary_of(*content_type) is Some ==> (r is Ok
                && r->Ok_0.1@ == boundary_of(*content_type)->0),
            r is Ok ==> {
                let u = r->Ok_0.0;
                &&& u.wf()
                &&& u.stage is AwaitingField
                &&& u.received@ == Seq::<u8>::empty()
            },
    {
        let top_type = media_top_type(content_type);
        let boundary = boundary_param(content_type);
        match accept_request(auth_header, secret, top_type.as_str(), boundary) {
            Ok(b) => {
                let u = Upload {
                    stage: UploadStage::AwaitingField,
                    received: Ghost(Seq::empty()),
                    written: Ghost(Seq::empty()),
                };
                assert(u.received@.subrange(0, 0) =~= u.written@);
                Ok((u, b))
            },
            Err(e) => Err(e),
        }
    }

    /// Whether the current stage waits for this event.
    pub fn expects_event(&self, e: &UploadEvent) -> (r: bool)
        ensures
            r == self.expects(*e),
    {
        match self.stage {
            UploadStage::AwaitingField => matches!(e, UploadEvent::FieldOpened | UploadEvent::NoField),
            UploadStage::CreatingDir => matches!(e, UploadEvent::DirCreated | UploadEvent::DirFailed),
            UploadStage::CreatingFile { .. } => matches!(e, UploadEvent::FileCreated | UploadEvent::FileFailed),
            UploadStage::Receiving { .. } => matches!(
                e,
                UploadEvent::Chunk(_) | UploadEvent::ChunksEnded | UploadEvent::ChunkFailed
            ),
            UploadStage::Writing { .. } => matches!(e, UploadEvent::Written | UploadEvent::WriteFailed),
            UploadStage::Flushing { .. } => matches!(e, UploadEvent::Flushed | UploadEvent::FlushFailed),
            UploadStage::Removing { .. } => matches!(e, UploadEvent::Removed | UploadEvent::RemoveFailed),
            UploadStage::Finished => false,
        }
    }

    /// Takes the outcome of the last piece of outside work and says what to
    /// do next. Every failure after the file was created leads to its
    /// removal before the error is reported; a redirect comes only once every
    /// byte received was written and the file flushed.
    pub fn step(&mut self, event: UploadEvent) -> (a: UploadAction)
        requires
            old(self).wf(),
            old(self).expects(event),
        ensures
            final(self).wf(),
            !(event is Chunk) ==> final(self).received@ == old(self).received@,
            !(event is Written) ==> final(self).written@ == old(self).written@,
            a is Redirect ==> final(self).written@ == final(self).received@,
            match old(self).stage {
                UploadStage::AwaitingField => if event is FieldOpened {
                    final(self).stage is CreatingDir && a is CreateDir
                } else {
                    &&& final(self).stage is Finished
                    &&& fails_with(a, PasteErrorKind::InvalidRequest)
                    &&& a->Fail_0.details@ == "No fields in request"@
                },
                UploadStage::CreatingDir => if event is DirCreated {
                    &&& final(self).stage is CreatingFile
                    &&& a is CreateFile
                    &&& final(self).stage.id() == Some(a->CreateFile_0@)
                } else {
                    final(self).stage is Finished && fails_with(a, PasteErrorKind::FileWrite)
                },
                UploadStage::CreatingFile { .. } => if event is FileCreated {
                    &&& final(self).stage is Receiving
                    &&& final(self).stage.id() == old(self).stage.id()
                    &&& a is NextChunk
                } else {
                    final(self).stage is Finished && fails_with(a, PasteErrorKind::FileWrite)
                },
                UploadStage::Receiving { .. } => match event {
                    UploadEvent::Chunk(b) => {
                        &&& final(self).stage is Writing
                        &&& final(self).stage.id() == old(self).stage.id()
                        &&& a is Write
                        &&& a->Write_0@ == b@
                        &&& final(self).received@ == old(self).received@ + b@
                    },
                    UploadEvent::ChunksEnded => {
                        &&& final(self).stage is Flushing
                        &&& final(self).stage.id() == old(self).stage.id()
                        &&& a is Flush
                    },
                    _ => {
                        &&& final(self).stage is Removing
                        &&& final(self).stage.id() == old(self).stage.id()
                        &&& a is RemoveFile
                        &&& old(self).stage.id() == Some(a->RemoveFile_0@)
                    },
                },
                UploadStage::Writing { .. } => if event is Written {
                    &&& final(self).stage is Receiving
                    &&& final(self).stage.id() == old(self).stage.id()
                    &&& final(self).written@ == old(self).received@
                    &&& a is NextChunk
                } else {
                    &&& final(self).stage is Removing
                    &&& final(self).stage.id() == old(self).stage.id()
                    &&& a is RemoveFile
                    &&& old(self).stage.id() == Some(a->RemoveFile_0@)
                },
                UploadStage::Flushing { .. } => if event is Flushed {
                    &&& final(self).stage is Finished
                    &&& a is Redirect
                    &&& a->Redirect_0@ == location_of(old(self).stage.id()->0)
                } else {
                    &&& final(self).stage is Removing
                    &&& final(self).stage.id() == old(self).stage.id()
                    &&& a is RemoveFile
                    &&& old(self).stage.id() == Some(a->RemoveFile_0@)
                },
                UploadStage::Removing { .. } => {
                    &&& final(self).stage is Finished
                    &&& fails_with(a, PasteErrorKind::FileWrite)
                },
                UploadStage::Finished => false,
            },
    {
        let mut stage = UploadStage::Finished;
        std::mem::swap(&mut self.stage, &mut stage);
        match stage {
            UploadStage::AwaitingField => {
                if let UploadEvent::FieldOpened = event {
                    self.stage = UploadStage::CreatingDir;
                    UploadAction::CreateDir
                } else {
                    UploadAction::Fail(PasteError::new(PasteErrorKind::InvalidRequest, "No fields in request"))
                }
            },
            UploadStage::CreatingDir => {
                if let UploadEvent::DirCreated = event {
                    let id = generate_id();
                    let file = id.clone();
                    self.stage = UploadStage::CreatingFile { id };
                    UploadAction::CreateFile(file)
                } else {
                    UploadAction::Fail(
                        PasteError::new(PasteErrorKind::FileWrite, "Error when creating pastes directory"),
                    )
                }
            },
            UploadStage::CreatingFile { id } => {
                if let UploadEvent::FileCreated = event {
                    self.stage = UploadStage::Receiving { id };
                    UploadAction::NextChunk
                } else {
                    UploadAction::Fail(PasteError::new(PasteErrorKind::FileWrite, "Error when creating file"))
                }
            },
            UploadStage::Receiving { id } => {
                match event {
                    UploadEvent::Chunk(bytes) => {
                        self.received = Ghost(self.received@ + bytes@);
                        assert(self.received@.subrange(0, self.written@.len() as int)
                            =~= self.written@);
                        self.stage = UploadStage::Writing { id };
                        UploadAction::Write(bytes)
                    },
                    UploadEvent::ChunksEnded => {
                        self.stage = UploadStage::Flushing { id };
                        UploadAction::Flush
                    },
                    _ => {
                        let file = id.clone();
                        let error = PasteError::new(PasteErrorKind::FileWrite, "Upload stream broke off");
                        self.stage = UploadStage::Removing { id, error };
                        UploadAction::RemoveFile(file)
                    },
                }
            },
            UploadStage::Writing { id } => {
                if let UploadEvent::Written = event {
                    self.written = Ghost(self.received@);
                    assert(self.received@.subrange(0, self.received@.len() as int)
                        =~= self.received@);
                    self.stage = UploadStage::Receiving { id };
                    UploadAction::NextChunk
                } else {
                    let file = id.clone();
                    let error = PasteError::new(PasteErrorKind::FileWrite, "Error when writing to file");
                    self.stage = UploadStage::Removing { id, error };
                    UploadAction::RemoveFile(file)
                }
            },
            UploadStage::Flushing { id } => {
                if let UploadEvent::Flushed = event {
                    let mut location = "/".to_owned();
                    proof {
                        reveal_strlit("/");
                    }
                    location.append(id.as_str());
                    assert(location@ =~= location_of(id@));
                    UploadAction::Redirect(location)
                } else {
                    let file = id.clone();
                    let error = PasteError::new(PasteErrorKind::FileWrite, "Failed to flush file");
                    self.stage = UploadStage::Removing { id, error };
                    UploadAction::RemoveFile(file)
                }
            },
            UploadStage::Removing { error, .. } => UploadAction::Fail(error),
            UploadStage::Finished => UploadAction::Fail(
                PasteError::new(PasteErrorKind::InvalidRequest, "Upload already finished"),
            ),
        }
    }
}

} // verus!
