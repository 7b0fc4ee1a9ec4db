use vstd::prelude::*;

use crate::errors::TransferError;
use crate::sanitize::{sanitize_upload_name, sanitized_of, valid_stored_name};

verus! {

/// Running total of body bytes accepted for one upload request, against the
/// configured maximum. The ingester rejects a request the moment the total
/// would pass the limit, never after buffering the body.
pub struct BodyBudget {
    limit: u64,
    used: u64,
}

impl BodyBudget {
    /// The configured maximum number of body bytes.
    pub closed spec fn spec_limit(self) -> u64 {
        self.limit
    }

    /// The number of body bytes accepted so far.
    pub closed spec fn spec_used(self) -> u64 {
        self.used
    }

    /// The accepted total never passes the limit.
    pub open spec fn wf(self) -> bool {
        self.spec_used() <= self.spec_limit()
    }

    /// A fresh budget for one request.
    pub fn new(limit: u64) -> (budget: BodyBudget)
        ensures
            budget.wf(),
            budget.spec_limit() == limit,
            budget.spec_used() == 0,
    {
        BodyBudget { limit, used: 0 }
    }

    /// Accounts one arriving chunk. Succeeds exactly when the running total
    /// stays within the limit; otherwise the chunk is refused with
    /// `PayloadTooLarge` and the total is left as it was.
    pub fn note_chunk(&mut self, len: u64) -> (result: Result<(), TransferError>)
        requires
            old(self).wf(),
        ensures
            final(self).wf(),
            final(self).spec_limit() == old(self).spec_limit(),
            result is Ok <==> old(self).spec_used() + len <= old(self).spec_limit(),
            result is Ok ==> final(self).spec_used() == old(self).spec_used() + len,
            result is Err ==> final(self).spec_used() == old(self).spec_used()
                && result->Err_0 == TransferError::PayloadTooLarge,
    {
        if len <= self.limit - self.used {
            self.used = self.used + len;
            Ok(())
        } else {
            Err(TransferError::PayloadTooLarge)
        }
    }
}

/// What the ingester is doing with the multipart field currently in flight.
#[derive(Clone, Copy, Debug, PartialEq, Eq, Structural)]
pub enum FieldMode {
    /// Between fields: waiting for the next one or for the end of the body.
    Idle,
    /// Inside a field that carries a filename: its chunks go to disk.
    Saving,
    /// Inside a field without a filename: its chunks are dropped.
    Draining,
}

/// One observation the transport hands the ingester while it walks the
/// multipart body.
pub enum UploadEvent {
    /// The next field opened, carrying this client-supplied filename.
    FieldOpened(Option<String>),
    /// A chunk of this many bytes arrived on the current field.
    ChunkArrived(u64),
    /// The current field's byte stream ended.
    FieldClosed,
    /// The body ended: there is no further field.
    BodyFinished,
    /// The multipart framing could not be parsed.
    FramingFault,
    /// The filesystem failed a create or a write.
    WriteFault,
}

/// What the transport must do next on the ingester's behalf.
pub enum UploadAction {
    /// Create (or truncate) this file under the upload directory and make
    /// it the destination of the current field.
    CreateFile(String),
    /// Append the chunk that just arrived to the destination file.
    WriteChunk,
    /// Drop the chunk that just arrived.
    DiscardChunk,
    /// Nothing to do: pull the next event.
    AwaitNext,
    /// The whole body was ingested: send the client back to the upload page.
    Redirect,
    /// Abort the request and answer with this error. Files already written
    /// stay on disk; there is no rollback.
    Reject(TransferError),
}

/// Which events the multipart protocol can produce in the session's current
/// state: fields open only between fields, chunks arrive only inside one,
/// and a finished session sees nothing further.
pub open spec fn event_permitted(session: UploadSession, event: UploadEvent) -> bool {
    !session.spec_finished() && match event {
        UploadEvent::FieldOpened(_) => session.spec_mode() is Idle,
        UploadEvent::ChunkArrived(_) => !(session.spec_mode() is Idle),
        UploadEvent::FieldClosed => !(session.spec_mode() is Idle),
        UploadEvent::BodyFinished => session.spec_mode() is Idle,
        UploadEvent::FramingFault => true,
        UploadEvent::WriteFault => session.spec_mode() is Saving,
    }
}

/// The upload ingester for one request: a machine that is fed the events of
/// the streamed multipart body and decides, one event at a time, what the
/// transport does with each field and each chunk. It never holds body bytes
/// itself, so the request is processed in bounded memory whatever its size.
pub struct UploadSession {
    budget: BodyBudget,
    mode: FieldMode,
    finished: bool,
}

impl UploadSession {
    /// The configured maximum number of body bytes.
    pub closed spec fn spec_limit(self) -> u64 {
        self.budget.spec_limit()
    }

    /// The number of body bytes accepted so far.
    pub closed spec fn spec_used(self) -> u64 {
        self.budget.spec_used()
    }

    /// What the session is doing with the current field.
    pub closed spec fn spec_mode(self) -> FieldMode {
        self.mode
    }

    /// Whether the session has issued its final action.
    pub closed spec fn spec_finished(self) -> bool {
        self.finished
    }

    /// The accepted byte total never passes the limit.
    pub open spec fn wf(self) -> bool {
        self.spec_used() <= self.spec_limit()
    }

    /// A fresh session for one upload request, capped at `limit` body bytes.
    pub fn new(limit: u64) -> (session: UploadSession)
        ensures
            session.wf(),
            session.spec_limit() == limit,
            session.spec_used() == 0,
            session.spec_mode() is Idle,
            !session.spec_finished(),
    {
        UploadSession { budget: BodyBudget::new(limit), mode: FieldMode::Idle, finished: false }
    }

    /// What the session is doing with the current field.
    pub fn current_mode(&self) -> (mode: FieldMode)
        ensures
            mode == self.spec_mode(),
    {
        self.mode
    }

    /// Whether the session has issued its final action.
    pub fn is_finished(&self) -> (finished: bool)
        ensures
            finished == self.spec_finished(),
    {
        self.finished
    }

    /// Feeds the session one event of the multipart body and returns the
    /// action the transport must take: a field with a filename is sanitized
    /// and either given a destination file or rejected with `InvalidName`;
    /// chunks are written or dropped while the running byte total stays
    /// within the limit, and refused with `PayloadTooLarge` the moment it
    /// would not; framing and filesystem faults abort the request with
    /// `MalformedRequest` and `StorageUnavailable`; the end of the body
    /// redirects the client back to the upload page.
    pub fn step(&mut self, event: UploadEvent) -> (action: UploadAction)
        requires
            old(self).wf(),
            event_permitted(*old(self), event),
        ensures
            final(self).wf(),
            final(self).spec_limit() == old(self).spec_limit(),
            final(self).spec_finished() <==> (action is Redirect || action is Reject),
            match event {
                UploadEvent::FieldOpened(file_name) => match file_name {
                    Option::Some(raw) => {
                        &&& (action is CreateFile <==> valid_stored_name(sanitized_of(raw@)))
                        &&& (action is CreateFile ==> action->CreateFile_0@ == sanitized_of(
                            raw@,
                        ) && final(self).spec_mode() is Saving)
                        &&& (action is CreateFile ==> forall|i: int|
                            0 <= i < action->CreateFile_0@.len() ==> action->CreateFile_0@[i]
                                != '/' && action->CreateFile_0@[i] != '\\')
                        &&& (action is Reject ==> action->Reject_0
                            == TransferError::InvalidName && final(self).spec_mode() == old(
                            self,
                        ).spec_mode())
                        &&& (action is CreateFile || action is Reject)
                        &&& final(self).spec_used() == old(self).spec_used()
                    },
                    Option::None => {
                        &&& action is AwaitNext
                        &&& final(self).spec_mode() is Draining
                        &&& final(self).spec_used() == old(self).spec_used()
                    },
                },
                UploadEvent::ChunkArrived(len) => {
                    &&& (old(self).spec_used() + len <= old(self).spec_limit() ==> {
                        &&& final(self).spec_used() == old(self).spec_used() + len
                        &&& final(self).spec_mode() == old(self).spec_mode()
                        &&& (old(self).spec_mode() is Saving ==> action is WriteChunk)
                        &&& (old(self).spec_mode() is Draining ==> action is DiscardChunk)
                    })
                    &&& (old(self).spec_used() + len > old(self).spec_limit() ==> {
                        &&& action is Reject
                        &&& action->Reject_0 == TransferError::PayloadTooLarge
                        &&& final(self).spec_used() == old(self).spec_used()
                    })
                },
                UploadEvent::FieldClosed => {
                    &&& action is AwaitNext
                    &&& final(self).spec_mode() is Idle
                    &&& final(self).spec_used() == old(self).spec_used()
                },
                UploadEvent::BodyFinished => {
                    &&& action is Redirect
                    &&& final(self).spec_used() == old(self).spec_used()
                },
                UploadEvent::FramingFault => {
                    &&& action is Reject
                    &&& action->Reject_0 == TransferError::MalformedRequest
                    &&& final(self).spec_used() == old(self).spec_used()
                },
                UploadEvent::WriteFault => {
                    &&& action is Reject
                    &&& action->Reject_0 == TransferError::StorageUnavailable
                    &&& final(self).spec_used() == old(self).spec_used()
                },
            },
    {
        match event {
            UploadEvent::FieldOpened(file_name) => match file_name {
                Option::Some(raw) => match sanitize_upload_name(&raw) {
                    Ok(name) => {
                        self.mode = FieldMode::Saving;
                        UploadAction::CreateFile(name)
                    },
                    Err(e) => {
                        self.finished = true;
                        UploadAction::Reject(e)
                    },
                },
                Option::None => {
                    self.mode = FieldMode::Draining;
                    UploadAction::AwaitNext
                },
            },
            UploadEvent::ChunkArrived(len) => match self.budget.note_chunk(len) {
                Ok(_) => {
                    if self.mode == FieldMode::Saving {
                        UploadAction::WriteChunk
                    } else {
                        UploadAction::DiscardChunk
                    }
                },
                Err(e) => {
                    self.finished = true;
                    UploadAction::Reject(e)
                },
            },
            UploadEvent::FieldClosed => {
                self.mode = FieldMode::Idle;
                UploadAction::AwaitNext
            },
            UploadEvent::BodyFinished => {
                self.finished = true;
                UploadAction::Redirect
            },
            UploadEvent::FramingFault => {
                self.finished = true;
                UploadAction::Reject(TransferError::MalformedRequest)
            },
            UploadEvent::WriteFault => {
                self.finished = true;
                UploadAction::Reject(TransferError::StorageUnavailable)
            },
        }
    }
}

} // verus!
