//! The answers of the admin API.

use vstd::prelude::*;
use vstd::string::StringExecFns;

verus! {

/// An answer that reports a failure.
#[derive(Debug, Clone, PartialEq, Eq)]
pub enum ApiError {
    /// A failure with the code and message it is reported with.
    Error { code: u16, msg: String },
    /// No API answers the path that was asked for.
    NotFound(String),
}

impl ApiError {
    /// The code an error is reported with: its own, or 404 where nothing
    /// was found.
    pub open spec fn spec_code(self) -> u16 {
        match self {
            ApiError::NotFound(_) => 404,
            ApiError::Error { code, .. } => code,
        }
    }

    /// The message an error is reported with: its own, or `Api not found: `
    /// and the path where nothing was found.
    pub open spec fn spec_message(self) -> Seq<char> {
        match self {
            ApiError::Error { msg, .. } => msg@,
            ApiError::NotFound(path) => "Api not found: "@ + path@,
        }
    }

    /// The code the error is reported with.
    pub fn code(&self) -> (code: u16)
        ensures
            code == self.spec_code(),
    {
        match self {
            ApiError::NotFound(_) => 404,
            ApiError::Error { code, .. } => *code,
        }
    }

    /// The message the error is reported with.
    pub fn message(&self) -> (msg: String)
        ensures
            msg@ == self.spec_message(),
    {
        match self {
            ApiError::Error { msg, .. } => msg.clone(),
            ApiError::NotFound(path) => "Api not found: ".to_owned().concat(path.as_str()),
        }
    }
}

/// An answer that reports success: code 0, with a message or with data.
#[derive(Debug, Clone, PartialEq, Eq)]
pub struct ApiOk<T> {
    pub code: u16,
    pub msg: Option<String>,
    pub data: Option<T>,
}

impl ApiOk<()> {
    /// Success with nothing to add.
    pub fn ok() -> (answer: ApiOk<()>)
        ensures
            answer.code == 0,
            answer.msg is None,
            answer.data is None,
    {
        ApiOk { code: 0, msg: None, data: None }
    }

    /// Success with a message.
    pub fn msg(msg: String) -> (answer: ApiOk<()>)
        ensures
            answer.code == 0,
            answer.msg == Some(msg),
            answer.data is None,
    {
        ApiOk { code: 0, msg: Some(msg), data: None }
    }
}

impl<T> ApiOk<T> {
    /// Success with data.
    pub fn data(data: T) -> (answer: ApiOk<T>)
        ensures
            answer.code == 0,
            answer.msg is None,
            answer.data == Some(data),
    {
        ApiOk { code: 0, msg: None, data: Some(data) }
    }
}

} // verus!
