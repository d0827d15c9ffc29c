//! The closed set of engine failures, and how status codes map onto it.

use vstd::prelude::*;
use crate::sys;

verus! {

/// A failure reported by the engine, or met while reading a value.
#[derive(Clone, Debug, PartialEq, Eq)]
pub enum Error {
    /// The key/value pair already exists.
    KeyExist,
    /// No matching key/value pair.
    NotFound,
    /// A requested page was not found: the file is damaged.
    PageNotFound,
    /// The file is damaged or the data read is malformed.
    Corrupted,
    /// The environment hit a fatal error.
    Panic,
    /// The engine's version does not match the file's.
    VersionMismatch,
    /// The file is not an engine file, or an argument such as a path is invalid.
    Invalid,
    /// The memory map is full.
    MapFull,
    /// The limit of named tables was reached.
    DbsFull,
    /// The limit of reader slots was reached.
    ReadersFull,
    /// The transaction has too many dirty pages.
    TxnFull,
    /// The cursor stack is too deep.
    CursorFull,
    /// A page has no more room.
    PageFull,
    /// The memory map could not be grown.
    UnableExtendMapsize,
    /// The operation does not fit the table's flags.
    Incompatible,
    /// A reader slot was misused.
    BadRslot,
    /// The transaction must be aborted or is unusable.
    BadTxn,
    /// A key or value has an unsupported size.
    BadValSize,
    /// The table handle changed or is unknown.
    BadDbi,
    /// An unexpected internal problem.
    Problem,
    /// Another write transaction is running, or the environment is busy.
    Busy,
    /// The key has more than one value.
    Multival,
    /// The file needs recovery.
    WannaRecovery,
    /// The given key does not match the cursor's current key.
    KeyMismatch,
    /// An invalid argument.
    InvalidValue,
    /// Access was denied, for example a write on a read-only environment.
    Access,
    /// A value or the database is too large.
    TooLarge,
    /// A stored value could not be decoded by the caller's decoder.
    DecodeError(String),
    /// Any status code outside the known set, kept as it came.
    Other(i32),
}

/// The error that a non-success status code stands for.
pub open spec fn error_of_code(c: i32) -> Error {
    if c == sys::MDBX_KEYEXIST {
        Error::KeyExist
    } else if c == sys::MDBX_NOTFOUND {
        Error::NotFound
    } else if c == sys::MDBX_PAGE_NOTFOUND {
        Error::PageNotFound
    } else if c == sys::MDBX_CORRUPTED {
        Error::Corrupted
    } else if c == sys::MDBX_PANIC {
        Error::Panic
    } else if c == sys::MDBX_VERSION_MISMATCH {
        Error::VersionMismatch
    } else if c == sys::MDBX_INVALID {
        Error::Invalid
    } else if c == sys::MDBX_MAP_FULL {
        Error::MapFull
    } else if c == sys::MDBX_DBS_FULL {
        Error::DbsFull
    } else if c == sys::MDBX_READERS_FULL {
        Error::ReadersFull
    } else if c == sys::MDBX_TXN_FULL {
        Error::TxnFull
    } else if c == sys::MDBX_CURSOR_FULL {
        Error::CursorFull
    } else if c == sys::MDBX_PAGE_FULL {
        Error::PageFull
    } else if c == sys::MDBX_UNABLE_EXTEND_MAPSIZE {
        Error::UnableExtendMapsize
    } else if c == sys::MDBX_INCOMPATIBLE {
        Error::Incompatible
    } else if c == sys::MDBX_BAD_RSLOT {
        Error::BadRslot
    } else if c == sys::MDBX_BAD_TXN {
        Error::BadTxn
    } else if c == sys::MDBX_BAD_VALSIZE {
        Error::BadValSize
    } else if c == sys::MDBX_BAD_DBI {
        Error::BadDbi
    } else if c == sys::MDBX_PROBLEM {
        Error::Problem
    } else if c == sys::MDBX_BUSY {
        Error::Busy
    } else if c == sys::MDBX_EMULTIVAL {
        Error::Multival
    } else if c == sys::MDBX_WANNA_RECOVERY {
        Error::WannaRecovery
    } else if c == sys::MDBX_EKEYMISMATCH {
        Error::KeyMismatch
    } else if c == sys::MDBX_EINVAL {
        Error::InvalidValue
    } else if c == sys::MDBX_EACCESS {
        Error::Access
    } else if c == sys::MDBX_TOO_LARGE {
        Error::TooLarge
    } else {
        Error::Other(c)
    }
}

/// The status code an error stands for; none for a decoding failure.
pub open spec fn code_of_error(e: Error) -> Option<i32> {
    match e {
        Error::KeyExist => Some(sys::MDBX_KEYEXIST),
        Error::NotFound => Some(sys::MDBX_NOTFOUND),
        Error::PageNotFound => Some(sys::MDBX_PAGE_NOTFOUND),
        Error::Corrupted => Some(sys::MDBX_CORRUPTED),
        Error::Panic => Some(sys::MDBX_PANIC),
        Error::VersionMismatch => Some(sys::MDBX_VERSION_MISMATCH),
        Error::Invalid => Some(sys::MDBX_INVALID),
        Error::MapFull => Some(sys::MDBX_MAP_FULL),
        Error::DbsFull => Some(sys::MDBX_DBS_FULL),
        Error::ReadersFull => Some(sys::MDBX_READERS_FULL),
        Error::TxnFull => Some(sys::MDBX_TXN_FULL),
        Error::CursorFull => Some(sys::MDBX_CURSOR_FULL),
        Error::PageFull => Some(sys::MDBX_PAGE_FULL),
        Error::UnableExtendMapsize => Some(sys::MDBX_UNABLE_EXTEND_MAPSIZE),
        Error::Incompatible => Some(sys::MDBX_INCOMPATIBLE),
        Error::BadRslot => Some(sys::MDBX_BAD_RSLOT),
        Error::BadTxn => Some(sys::MDBX_BAD_TXN),
        Error::BadValSize => Some(sys::MDBX_BAD_VALSIZE),
        Error::BadDbi => Some(sys::MDBX_BAD_DBI),
        Error::Problem => Some(sys::MDBX_PROBLEM),
        Error::Busy => Some(sys::MDBX_BUSY),
        Error::Multival => Some(sys::MDBX_EMULTIVAL),
        Error::WannaRecovery => Some(sys::MDBX_WANNA_RECOVERY),
        Error::KeyMismatch => Some(sys::MDBX_EKEYMISMATCH),
        Error::InvalidValue => Some(sys::MDBX_EINVAL),
        Error::Access => Some(sys::MDBX_EACCESS),
        Error::TooLarge => Some(sys::MDBX_TOO_LARGE),
        Error::DecodeError(_) => None,
        Error::Other(c) => Some(c),
    }
}

/// What a status code means as the outcome of a call: success, success with
/// the engine's "true" signal, or an error.
pub open spec fn result_of_code(c: i32) -> Result<bool, Error> {
    if c == sys::MDBX_SUCCESS {
        Ok(false)
    } else if c == sys::MDBX_RESULT_TRUE {
        Ok(true)
    } else {
        Err(error_of_code(c))
    }
}

/// A lookup outcome with "not found" turned into an absent result.
pub open spec fn optional_of<T>(r: Result<T, Error>) -> Result<Option<T>, Error> {
    match r {
        Ok(v) => Ok(Some(v)),
        Err(Error::NotFound) => Ok(None),
        Err(e) => Err(e),
    }
}

impl Error {
    /// Converts a raw status code to an [Error].
    pub fn from_err_code(err_code: i32) -> (r: Error)
        ensures
            r == error_of_code(err_code),
    {
        if err_code == sys::MDBX_KEYEXIST {
                Error::KeyExist
        } else if err_code == sys::MDBX_NOTFOUND {
                Error::NotFound
        } else if err_code == sys::MDBX_PAGE_NOTFOUND {
                Error::PageNotFound
        } else if err_code == sys::MDBX_CORRUPTED {
                Error::Corrupted
        } else if err_code == sys::MDBX_PANIC {
                Error::Panic
        } else if err_code == sys::MDBX_VERSION_MISMATCH {
                Error::VersionMismatch
        } else if err_code == sys::MDBX_INVALID {
                Error::Invalid
        } else if err_code == sys::MDBX_MAP_FULL {
                Error::MapFull
        } else if err_code == sys::MDBX_DBS_FULL {
                Error::DbsFull
        } else if err_code == sys::MDBX_READERS_FULL {
                Error::ReadersFull
        } else if err_code == sys::MDBX_TXN_FULL {
                Error::TxnFull
        } else if err_code == sys::MDBX_CURSOR_FULL {
                Error::CursorFull
        } else if err_code == sys::MDBX_PAGE_FULL {
                Error::PageFull
        } else if err_code == sys::MDBX_UNABLE_EXTEND_MAPSIZE {
                Error::UnableExtendMapsize
        } else if err_code == sys::MDBX_INCOMPATIBLE {
                Error::Incompatible
        } else if err_code == sys::MDBX_BAD_RSLOT {
                Error::BadRslot
        } else if err_code == sys::MDBX_BAD_TXN {
                Error::BadTxn
        } else if err_code == sys::MDBX_BAD_VALSIZE {
                Error::BadValSize
        } else if err_code == sys::MDBX_BAD_DBI {
                Error::BadDbi
        } else if err_code == sys::MDBX_PROBLEM {
                Error::Problem
        } else if err_code == sys::MDBX_BUSY {
                Error::Busy
        } else if err_code == sys::MDBX_EMULTIVAL {
                Error::Multival
        } else if err_code == sys::MDBX_WANNA_RECOVERY {
                Error::WannaRecovery
        } else if err_code == sys::MDBX_EKEYMISMATCH {
                Error::KeyMismatch
        } else if err_code == sys::MDBX_EINVAL {
                Error::InvalidValue
        } else if err_code == sys::MDBX_EACCESS {
                Error::Access
        } else if err_code == sys::MDBX_TOO_LARGE {
                Error::TooLarge
        } else {
                Error::Other(err_code)
        }
    }

    /// Converts an [Error] back to the raw status code it stands for.
    pub fn to_err_code(&self) -> (r: i32)
        requires
            !(self is DecodeError),
        ensures
            code_of_error(*self) == Some(r),
    {
        match self {
            Error::KeyExist => sys::MDBX_KEYEXIST,
            Error::NotFound => sys::MDBX_NOTFOUND,
            Error::PageNotFound => sys::MDBX_PAGE_NOTFOUND,
            Error::Corrupted => sys::MDBX_CORRUPTED,
            Error::Panic => sys::MDBX_PANIC,
            Error::VersionMismatch => sys::MDBX_VERSION_MISMATCH,
            Error::Invalid => sys::MDBX_INVALID,
            Error::MapFull => sys::MDBX_MAP_FULL,
            Error::DbsFull => sys::MDBX_DBS_FULL,
            Error::ReadersFull => sys::MDBX_READERS_FULL,
            Error::TxnFull => sys::MDBX_TXN_FULL,
            Error::CursorFull => sys::MDBX_CURSOR_FULL,
            Error::PageFull => sys::MDBX_PAGE_FULL,
            Error::UnableExtendMapsize => sys::MDBX_UNABLE_EXTEND_MAPSIZE,
            Error::Incompatible => sys::MDBX_INCOMPATIBLE,
            Error::BadRslot => sys::MDBX_BAD_RSLOT,
            Error::BadTxn => sys::MDBX_BAD_TXN,
            Error::BadValSize => sys::MDBX_BAD_VALSIZE,
            Error::BadDbi => sys::MDBX_BAD_DBI,
            Error::Problem => sys::MDBX_PROBLEM,
            Error::Busy => sys::MDBX_BUSY,
            Error::Multival => sys::MDBX_EMULTIVAL,
            Error::WannaRecovery => sys::MDBX_WANNA_RECOVERY,
            Error::KeyMismatch => sys::MDBX_EKEYMISMATCH,
            Error::InvalidValue => sys::MDBX_EINVAL,
            Error::Access => sys::MDBX_EACCESS,
            Error::TooLarge => sys::MDBX_TOO_LARGE,
            Error::Other(err_code) => *err_code,
            Error::DecodeError(_) => 0,
        }
    }
}

/// Reads the status code of an engine call: `Ok(false)` on success,
/// `Ok(true)` on the engine's "true" success, the matching error otherwise.
pub fn mdbx_result(err_code: i32) -> (r: Result<bool, Error>)
    ensures
        r == result_of_code(err_code),
{
    if err_code == sys::MDBX_SUCCESS {
        Ok(false)
    } else if err_code == sys::MDBX_RESULT_TRUE {
        Ok(true)
    } else {
        Err(Error::from_err_code(err_code))
    }
}

/// Turns a "not found" failure into `Ok(None)`, keeping every other outcome.
pub fn optional<T>(r: Result<T, Error>) -> (o: Result<Option<T>, Error>)
    ensures
        o == optional_of(r),
{
    match r {
        Ok(v) => Ok(Some(v)),
        Err(Error::NotFound) => Ok(None),
        Err(e) => Err(e),
    }
}

/// A status code read as an error and back is the same status code.
pub proof fn lemma_code_round_trip(c: i32)
    ensures
        code_of_error(error_of_code(c)) == Some(c),
{
}

/// An error other than a decoding failure, read as a status code and back,
/// is the same error, unless it is an opaque code that the known set names.
pub proof fn lemma_error_round_trip(e: Error)
    requires
        !(e is DecodeError),
        e is Other ==> error_of_code(e->Other_0) is Other,
    ensures
        error_of_code(code_of_error(e).unwrap()) == e,
{
}

} // verus!
