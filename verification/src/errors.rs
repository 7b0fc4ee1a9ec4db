use vstd::prelude::*;

verus! {

/// The error taxonomy of the transfer service. Every failure surfaced to an
/// HTTP client is one of these, and each maps to exactly one status code.
#[derive(Clone, Copy, Debug, PartialEq, Eq, Structural)]
pub enum TransferError {
    /// The client-supplied filename sanitized to an unusable name.
    InvalidName,
    /// The multipart framing of an upload body could not be parsed.
    MalformedRequest,
    /// The upload body exceeded the configured maximum size.
    PayloadTooLarge,
    /// The requested file does not exist as a regular file.
    NotFound,
    /// The client address is not admitted by the access policy.
    Forbidden,
    /// The filesystem failed underneath a read, write, or listing.
    StorageUnavailable,
}

/// The HTTP status code that each error is reported with.
pub open spec fn status_of(e: TransferError) -> u16 {
    match e {
        TransferError::InvalidName => 400,
        TransferError::MalformedRequest => 400,
        TransferError::PayloadTooLarge => 413,
        TransferError::NotFound => 404,
        TransferError::Forbidden => 403,
        TransferError::StorageUnavailable => 500,
    }
}

impl TransferError {
    /// The HTTP status code for this error.
    pub fn status_code(&self) -> (code: u16)
        ensures
            code == status_of(*self),
    {
        match self {
            TransferError::InvalidName => 400,
            TransferError::MalformedRequest => 400,
            TransferError::PayloadTooLarge => 413,
            TransferError::NotFound => 404,
            TransferError::Forbidden => 403,
            TransferError::StorageUnavailable => 500,
        }
    }

    /// The short diagnostic string sent with this error.
    pub open spec fn spec_message(self) -> Seq<char> {
        match self {
            TransferError::InvalidName => "invalid filename after sanitization"@,
            TransferError::MalformedRequest => "malformed multipart request"@,
            TransferError::PayloadTooLarge => "upload body exceeds the configured maximum"@,
            TransferError::NotFound => "file not found"@,
            TransferError::Forbidden => "access denied by address policy"@,
            TransferError::StorageUnavailable => "storage unavailable"@,
        }
    }

    /// The short diagnostic string sent with this error.
    pub fn message(&self) -> (msg: String)
        ensures
            msg@ == self.spec_message(),
    {
        match self {
            TransferError::InvalidName => "invalid filename after sanitization".to_owned(),
            TransferError::MalformedRequest => "malformed multipart request".to_owned(),
            TransferError::PayloadTooLarge => "upload body exceeds the configured maximum".to_owned(),
            TransferError::NotFound => "file not found".to_owned(),
            TransferError::Forbidden => "access denied by address policy".to_owned(),
            TransferError::StorageUnavailable => "storage unavailable".to_owned(),
        }
    }
}

} // verus!
