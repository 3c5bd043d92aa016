use vstd::prelude::*;

verus! {

/// The error type shared by every fallible operation of the crate.
#[derive(Clone, Copy, Debug, PartialEq, Eq, Structural)]
pub struct BotError {
    pub kind: BotErrorKind,
}

impl BotError {
    pub fn new(kind: BotErrorKind) -> (e: BotError)
        ensures
            e.kind == kind,
    {
        BotError { kind }
    }
}

/// What went wrong, from the caller's point of view.
#[derive(Clone, Copy, Debug, PartialEq, Eq, Structural)]
#[non_exhaustive]
pub enum BotErrorKind {
    DownloadError,
    EmptyTokenError,
    InvalidTokenError,
    InvalidUrlError,
    IoError,
    RedisError,
    TelegramError,
    TypeError,
    UploadError,
    WebClientError,
}

pub type BotResult<T> = Result<T, BotError>;

} // verus!
