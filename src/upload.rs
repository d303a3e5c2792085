use vstd::prelude::*;
use crate::name::{is_valid_name, valid_name};

verus! {

/// Why an upload did not publish a file.
#[derive(Clone, Copy, Debug, PartialEq, Eq, Structural)]
pub enum UploadError {
    /// The requested name is not a valid file name.
    InvalidName,
    /// The request body could not be read.
    InvalidBody,
    /// The body is longer than the configured ceiling.
    TooLarge,
    /// Creating, writing, flushing or renaming a file failed.
    Internal,
}

impl UploadError {
    pub open spec fn spec_status_code(self) -> u16 {
        match self {
            UploadError::InvalidName => 400,
            UploadError::InvalidBody => 400,
            UploadError::TooLarge => 413,
            UploadError::Internal => 500,
        }
    }

    /// The HTTP status that reports this error.
    pub fn status_code(&self) -> (r: u16)
        ensures
            r == self.spec_status_code(),
    {
        match self {
            UploadError::InvalidName => 400,
            UploadError::InvalidBody => 400,
            UploadError::TooLarge => 413,
            UploadError::Internal => 500,
        }
    }

    /// The short plain-text reason sent with the status.
    pub fn reason(&self) -> (r: &'static str)
        ensures
            *self == UploadError::InvalidName ==> r@ == "Invalid filename"@,
            *self == UploadError::InvalidBody ==> r@ == "Invalid body"@,
            *self == UploadError::TooLarge ==> r@ == "File too large"@,
            *self == UploadError::Internal ==> r@ == "Internal error"@,
    {
        match self {
            UploadError::InvalidName => "Invalid filename",
            UploadError::InvalidBody => "Invalid body",
            UploadError::TooLarge => "File too large",
            UploadError::Internal => "Internal error",
        }
    }
}

/// Where an upload stands.
#[derive(Clone, Copy, Debug, PartialEq, Eq, Structural)]
pub enum Phase {
    /// The name was accepted; the staging file is being created.
    Staging,
    /// Body chunks are being read and appended to the staging file.
    Streaming,
    /// The body has ended; the staging file is being flushed.
    Flushing,
    /// The staging file is being renamed to the public name.
    Publishing,
    /// A reply has been decided; nothing more is done.
    Finished,
}

/// What the surrounding server reports back to the session.
#[derive(Clone, Copy, Debug, PartialEq, Eq, Structural)]
pub enum Event {
    StagingCreated,
    StagingFailed,
    /// A body chunk of this many bytes has arrived.
    Chunk(u64),
    /// The body could not be read.
    BodyFailed,
    /// Appending the last chunk to the staging file failed.
    WriteFailed,
    /// The body has ended.
    EndOfBody,
    Flushed,
    FlushFailed,
    Published,
    PublishFailed,
}

/// What the session asks the surrounding server to do next.
#[derive(Clone, Copy, Debug, PartialEq, Eq, Structural)]
pub enum Action {
    /// Read the next body chunk.
    ReadChunk,
    /// Append the chunk just received to the staging file, then read the next.
    WriteChunk,
    /// Flush and close the staging file.
    Flush,
    /// Rename the staging file to the public name, replacing any file there.
    Publish,
    /// Remove the staging file, then reply with the error.
    Discard(UploadError),
    /// Reply with the error and leave the files as they are.
    Fail(UploadError),
    /// Reply that the file was published with this many bytes.
    Created(u64),
}

/// The settings that every upload reads; fixed before the first request.
pub struct UploadConfig {
    /// The largest accepted body, in bytes.
    pub max_bytes: u64,
    /// The address under which published files can be fetched, without a
    /// trailing slash.
    pub public_base_url: String,
}

impl UploadConfig {
    pub fn new(max_bytes: u64, public_base_url: String) -> (r: UploadConfig)
        ensures
            r.max_bytes == max_bytes,
            r.public_base_url@ == public_base_url@,
    {
        UploadConfig { max_bytes, public_base_url }
    }
}

/// The decisions of one upload request.
#[derive(Clone, Copy, Debug, PartialEq, Eq, Structural)]
pub struct UploadSession {
    pub phase: Phase,
    /// Bytes accepted so far.
    pub written: u64,
    /// The ceiling for this upload.
    pub max_bytes: u64,
}

impl UploadSession {
    pub open spec fn with(self, phase: Phase) -> UploadSession {
        UploadSession { phase, written: self.written, max_bytes: self.max_bytes }
    }

    /// A session that has accepted its name and holds no bytes yet.
    pub open spec fn fresh(max_bytes: u64) -> UploadSession {
        UploadSession { phase: Phase::Staging, written: 0, max_bytes }
    }

    /// The session's reply to `e`: its next state and the action it asks for.
    /// An event that the phase does not expect ends the session with an
    /// internal error.
    pub open spec fn next(self, e: Event) -> (UploadSession, Action) {
        let done = self.with(Phase::Finished);
        match self.phase {
            Phase::Staging => match e {
                Event::StagingCreated => (self.with(Phase::Streaming), Action::ReadChunk),
                _ => (done, Action::Fail(UploadError::Internal)),
            },
            Phase::Streaming => match e {
                Event::Chunk(n) => if self.written + n > self.max_bytes {
                    (done, Action::Discard(UploadError::TooLarge))
                } else {
                    (
                        UploadSession {
                            phase: Phase::Streaming,
                            written: (self.written + n) as u64,
                            max_bytes: self.max_bytes,
                        },
                        Action::WriteChunk,
                    )
                },
                Event::BodyFailed => (done, Action::Discard(UploadError::InvalidBody)),
                Event::EndOfBody => (self.with(Phase::Flushing), Action::Flush),
                _ => (done, Action::Discard(UploadError::Internal)),
            },
            Phase::Flushing => match e {
                Event::Flushed => (self.with(Phase::Publishing), Action::Publish),
                _ => (done, Action::Discard(UploadError::Internal)),
            },
            Phase::Publishing => match e {
                Event::Published => (done, Action::Created(self.written)),
                _ => (done, Action::Fail(UploadError::Internal)),
            },
            Phase::Finished => (done, Action::Fail(UploadError::Internal)),
        }
    }

    /// Starts an upload of `name`: refused with `InvalidName` unless the
    /// name is valid, in which case no file has been touched yet.
    pub fn begin(config: &UploadConfig, name: &str) -> (r: Result<UploadSession, UploadError>)
        ensures
            valid_name(name@) ==> r == Ok::<UploadSession, UploadError>(
                UploadSession::fresh(config.max_bytes),
            ),
            !valid_name(name@) ==> r == Err::<UploadSession, UploadError>(
                UploadError::InvalidName,
            ),
    {
        if is_valid_name(name) {
            Ok(UploadSession { phase: Phase::Staging, written: 0, max_bytes: config.max_bytes })
        } else {
            Err(UploadError::InvalidName)
        }
    }

    /// Takes in one event and returns the action it calls for.
    pub fn step(&mut self, e: Event) -> (a: Action)
        ensures
            (*final(self), a) == old(self).next(e),
    {
        let done = UploadSession {
            phase: Phase::Finished,
            written: self.written,
            max_bytes: self.max_bytes,
        };
        match self.phase {
            Phase::Staging => match e {
                Event::StagingCreated => {
                    self.phase = Phase::Streaming;
                    Action::ReadChunk
                },
                _ => {
                    *self = done;
                    Action::Fail(UploadError::Internal)
                },
            },
            Phase::Streaming => match e {
                Event::Chunk(n) => {
                    if n > self.max_bytes || self.written > self.max_bytes - n {
                        *self = done;
                        Action::Discard(UploadError::TooLarge)
                    } else {
                        self.written = self.written + n;
                        Action::WriteChunk
                    }
                },
                Event::BodyFailed => {
                    *self = done;
                    Action::Discard(UploadError::InvalidBody)
                },
                Event::EndOfBody => {
                    self.phase = Phase::Flushing;
                    Action::Flush
                },
                _ => {
                    *self = done;
                    Action::Discard(UploadError::Internal)
                },
            },
            Phase::Flushing => match e {
                Event::Flushed => {
                    self.phase = Phase::Publishing;
                    Action::Publish
                },
                _ => {
                    *self = done;
                    Action::Discard(UploadError::Internal)
                },
            },
            Phase::Publishing => match e {
                Event::Published => {
                    *self = done;
                    Action::Created(self.written)
                },
                _ => {
                    *self = done;
                    Action::Fail(UploadError::Internal)
                },
            },
            Phase::Finished => Action::Fail(UploadError::Internal),
        }
    }
}

} // verus!
