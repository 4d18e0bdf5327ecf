use vstd::prelude::*;

verus! {

/// The errors the storage layer reports to its callers.
pub enum AppError {
    /// The requested item does not exist.
    NotFound(String),
    /// The request itself is not acceptable.
    BadRequest(String),
    /// The underlying storage failed.
    Storage(String),
}

impl AppError {
    pub fn not_found(message: &str) -> (e: AppError)
        ensures
            e matches AppError::NotFound(m) && m@ == message@,
    {
        AppError::NotFound(String::from_str(message))
    }

    pub fn bad_request(message: &str) -> (e: AppError)
        ensures
            e matches AppError::BadRequest(m) && m@ == message@,
    {
        AppError::BadRequest(String::from_str(message))
    }

    pub fn storage(message: &str) -> (e: AppError)
        ensures
            e matches AppError::Storage(m) && m@ == message@,
    {
        AppError::Storage(String::from_str(message))
    }

    /// The message carried by the error, whatever its kind.
    pub fn message(&self) -> (m: String)
        ensures
            m@ == self.message_view(),
    {
        match self {
            AppError::NotFound(m) => m.clone(),
            AppError::BadRequest(m) => m.clone(),
            AppError::Storage(m) => m.clone(),
        }
    }

    pub open spec fn message_view(&self) -> Seq<char> {
        match self {
            AppError::NotFound(m) => m@,
            AppError::BadRequest(m) => m@,
            AppError::Storage(m) => m@,
        }
    }
}

} // verus!
