use vstd::prelude::*;
use vstd::string::StringExecFns;

verus! {

/// A failure of a blob store backend.
#[derive(Debug, Clone, Copy, PartialEq, Eq, Structural)]
pub enum StorageError {
    /// The blob (or the file holding it) does not exist.
    NotFound,
    /// The backend could not be reached or refused the operation.
    BackendUnavailable,
    /// A stored drive record is present but malformed.
    CorruptRecord,
    /// A content type does not fit in the one length byte of a drive record.
    ContentTypeTooLong,
}

/// Attributes that the request layer needs to render an error.
pub struct ErrorAttributes {
    pub status_code: u16,
}

/// The errors that the coordinators return to the request layer.
#[derive(Debug, Clone, Copy, PartialEq, Eq, Structural)]
pub enum Error {
    Unauthorized,
    FileTooLargeError,
    FileNotFoundError,
    StorageUnavailableError,
    InternalStorageError(StorageError),
    FileConvertError,
    DatabaseError,
    /// A metadata record exists but its blob is missing.
    OrphanedRecordError,
}

/// The status code of each error kind.
pub open spec fn status_code_of(e: Error) -> u16 {
    match e {
        Error::Unauthorized => 403,
        Error::FileTooLargeError => 403,
        Error::FileNotFoundError => 404,
        Error::StorageUnavailableError => 500,
        Error::InternalStorageError(_) => 500,
        Error::FileConvertError => 500,
        Error::DatabaseError => 500,
        Error::OrphanedRecordError => 500,
    }
}

impl Error {
    pub fn error_attr(&self) -> (r: ErrorAttributes)
        ensures
            r.status_code == status_code_of(*self),
    {
        let status_code: u16 = match self {
            Error::Unauthorized => 403,
            Error::FileTooLargeError => 403,
            Error::FileNotFoundError => 404,
            Error::StorageUnavailableError => 500,
            Error::InternalStorageError(_) => 500,
            Error::FileConvertError => 500,
            Error::DatabaseError => 500,
            Error::OrphanedRecordError => 500,
        };
        ErrorAttributes { status_code }
    }
}

impl From<StorageError> for Error {
    fn from(e: StorageError) -> (r: Error)
        ensures
            r == Error::InternalStorageError(e),
    {
        Error::InternalStorageError(e)
    }
}

impl vstd::std_specs::convert::FromSpecImpl<StorageError> for Error {
    open spec fn obeys_from_spec() -> bool {
        true
    }

    open spec fn from_spec(e: StorageError) -> Error {
        Error::InternalStorageError(e)
    }
}

/// The human-readable text of a storage error.
pub open spec fn storage_message(e: StorageError) -> Seq<char> {
    match e {
        StorageError::NotFound => "The stored file does not exist"@,
        StorageError::BackendUnavailable => "The storage backend failed"@,
        StorageError::CorruptRecord => "The stored file is corrupt"@,
        StorageError::ContentTypeTooLong => "The content type is too long to store"@,
    }
}

/// The human-readable text of an error.
pub open spec fn error_message(e: Error) -> Seq<char> {
    match e {
        Error::Unauthorized => "Invalid auth key"@,
        Error::FileTooLargeError => "The file is too large"@,
        Error::FileNotFoundError => "The file does not exist"@,
        Error::StorageUnavailableError => "Storage driver is not available"@,
        Error::InternalStorageError(se) => "Failed to access storage driver ("@ + storage_message(se)
            + ")"@,
        Error::FileConvertError => "Failed to convert file byte stream"@,
        Error::DatabaseError => "Failed to execute database operation"@,
        Error::OrphanedRecordError => "The file's record exists but its content is missing"@,
    }
}

impl StorageError {
    /// The error for a failed object storage call, by the HTTP status of its
    /// response, where one came: 404 means the object is missing.
    pub fn from_status(status: Option<u16>) -> (r: StorageError)
        ensures
            r == (if status == Some(404u16) {
                StorageError::NotFound
            } else {
                StorageError::BackendUnavailable
            }),
    {
        match status {
            Some(404u16) => StorageError::NotFound,
            _ => StorageError::BackendUnavailable,
        }
    }

    pub fn message(&self) -> (r: String)
        ensures
            r@ == storage_message(*self),
    {
        match self {
            StorageError::NotFound => String::from_str("The stored file does not exist"),
            StorageError::BackendUnavailable => String::from_str("The storage backend failed"),
            StorageError::CorruptRecord => String::from_str("The stored file is corrupt"),
            StorageError::ContentTypeTooLong => String::from_str(
                "The content type is too long to store",
            ),
        }
    }
}

impl Error {
    pub fn message(&self) -> (r: String)
        ensures
            r@ == error_message(*self),
    {
        match self {
            Error::Unauthorized => String::from_str("Invalid auth key"),
            Error::FileTooLargeError => String::from_str("The file is too large"),
            Error::FileNotFoundError => String::from_str("The file does not exist"),
            Error::StorageUnavailableError => String::from_str("Storage driver is not available"),
            Error::InternalStorageError(se) => {
                let inner = se.message();
                String::from_str("Failed to access storage driver (").concat(inner.as_str()).concat(
                    ")",
                )
            },
            Error::FileConvertError => String::from_str("Failed to convert file byte stream"),
            Error::DatabaseError => String::from_str("Failed to execute database operation"),
            Error::OrphanedRecordError => String::from_str(
                "The file's record exists but its content is missing",
            ),
        }
    }
}

} // verus!
