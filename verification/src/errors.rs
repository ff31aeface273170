//! The error taxonomy of the store-facing operations, and the fixed
//! user-facing message each error is converted to at the dispatcher
//! boundary.
use vstd::prelude::*;
use vstd::string::*;

verus! {

/// Failures of the backing stores and of input validation.
#[derive(Debug, Clone, Copy, PartialEq, Eq, Structural)]
pub enum StoreError {
    /// The entity vanished between read and write.
    NotFound,
    /// A duplicate-creation race; the caller should re-fetch.
    Conflict,
    /// The media list is already at its capacity.
    LimitExceeded,
    /// Malformed step input.
    Validation,
    /// The backing store is unreachable.
    StoreUnavailable,
}

impl StoreError {
    /// The fixed user-facing message for this error. Internal error text is
    /// never surfaced to the user.
    pub fn user_message(&self) -> (message: String)
        ensures
            *self == StoreError::NotFound ==> message@ == "Something went wrong. Please use /start to continue."@,
            *self == StoreError::Conflict ==> message@ == "Something went wrong. Please use /start to continue."@,
            *self == StoreError::LimitExceeded ==> message@ == "Media limit (5) reached."@,
            *self == StoreError::Validation ==> message@ == "Invalid input."@,
            *self == StoreError::StoreUnavailable ==> message@ == "Sorry, something is wrong on our side. Please try again later."@,
    {
        match self {
            StoreError::NotFound => String::from_str(
                "Something went wrong. Please use /start to continue.",
            ),
            StoreError::Conflict => String::from_str(
                "Something went wrong. Please use /start to continue.",
            ),
            StoreError::LimitExceeded => String::from_str("Media limit (5) reached."),
            StoreError::Validation => String::from_str("Invalid input."),
            StoreError::StoreUnavailable => String::from_str(
                "Sorry, something is wrong on our side. Please try again later.",
            ),
        }
    }
}

/// Failures of the blob-storage client. The upload and delete mechanics live
/// outside the library; the type is part of its public vocabulary.
#[derive(Debug, Clone, PartialEq, Eq)]
pub enum MediaServiceError {
    R2OperationFailed(String),
    InvalidFileName(String),
    UploadTooLarge,
    ConfigurationError(String),
}

impl MediaServiceError {
    /// A short description of the failure, with the offending detail.
    pub fn message(&self) -> (message: String)
        ensures
            (*self) matches MediaServiceError::R2OperationFailed(s) ==> message@
                == "R2 operation failed: "@ + s@,
            (*self) matches MediaServiceError::InvalidFileName(s) ==> message@
                == "Invalid file name: "@ + s@,
            *self == MediaServiceError::UploadTooLarge ==> message@
                == "Uploaded file is too large."@,
            (*self) matches MediaServiceError::ConfigurationError(s) ==> message@
                == "Configuration error: "@ + s@,
    {
        match self {
            MediaServiceError::R2OperationFailed(s) => {
                let mut m = String::from_str("R2 operation failed: ");
                m.append(s.as_str());
                m
            },
            MediaServiceError::InvalidFileName(s) => {
                let mut m = String::from_str("Invalid file name: ");
                m.append(s.as_str());
                m
            },
            MediaServiceError::UploadTooLarge => String::from_str("Uploaded file is too large."),
            MediaServiceError::ConfigurationError(s) => {
                let mut m = String::from_str("Configuration error: ");
                m.append(s.as_str());
                m
            },
        }
    }
}

} // verus!
