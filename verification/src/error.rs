//! What can go wrong, by kind. Failures of the outside world come in as the
//! text that describes them.

use crate::text::concat;
use vstd::prelude::*;

verus! {

#[derive(Clone, Debug, PartialEq, Eq)]
pub enum AppError {
    /// The process was configured wrongly.
    Config(String),
    /// The file system refused: permissions, a full disk, a missing parent.
    Io(String),
    /// The account store failed.
    Database(String),
    /// A ledger operation failed: init, stage or commit.
    Git(String),
    /// Anything else.
    Other(String),
    /// The caller sent something unusable.
    BadRequest(String),
    /// The bytes of a document are there but cannot be decoded.
    Corrupt(String),
    /// A value cannot be encoded.
    Serialization(String),
    /// The document or tenant configuration asked for does not exist.
    NotFound,
    Unauthorized,
    Forbidden,
    NotImplemented,
}

pub enum AppErrorView {
    Config(Seq<char>),
    Io(Seq<char>),
    Database(Seq<char>),
    Git(Seq<char>),
    Other(Seq<char>),
    BadRequest(Seq<char>),
    Corrupt(Seq<char>),
    Serialization(Seq<char>),
    NotFound,
    Unauthorized,
    Forbidden,
    NotImplemented,
}

impl View for AppError {
    type V = AppErrorView;

    open spec fn view(&self) -> AppErrorView {
        match self {
            AppError::Config(m) => AppErrorView::Config(m@),
            AppError::Io(m) => AppErrorView::Io(m@),
            AppError::Database(m) => AppErrorView::Database(m@),
            AppError::Git(m) => AppErrorView::Git(m@),
            AppError::Other(m) => AppErrorView::Other(m@),
            AppError::BadRequest(m) => AppErrorView::BadRequest(m@),
            AppError::Corrupt(m) => AppErrorView::Corrupt(m@),
            AppError::Serialization(m) => AppErrorView::Serialization(m@),
            AppError::NotFound => AppErrorView::NotFound,
            AppError::Unauthorized => AppErrorView::Unauthorized,
            AppError::Forbidden => AppErrorView::Forbidden,
            AppError::NotImplemented => AppErrorView::NotImplemented,
        }
    }
}

impl AppErrorView {
    /// The HTTP status under which the error is reported: what is missing is
    /// 404, a refused caller 401 or 403, an unusable request 400, and every
    /// failure of the store or the ledger a plain 500.
    pub open spec fn status(self) -> int {
        match self {
            AppErrorView::NotFound => 404,
            AppErrorView::Unauthorized => 401,
            AppErrorView::Forbidden => 403,
            AppErrorView::NotImplemented => 501,
            AppErrorView::BadRequest(_) => 400,
            _ => 500,
        }
    }

    /// The error in words.
    pub open spec fn message(self) -> Seq<char> {
        match self {
            AppErrorView::Config(m) => "config error: "@ + m,
            AppErrorView::Io(m) => m,
            AppErrorView::Database(m) => m,
            AppErrorView::Git(m) => m,
            AppErrorView::Other(m) => m,
            AppErrorView::BadRequest(m) => m,
            AppErrorView::Corrupt(m) => "corrupt document: "@ + m,
            AppErrorView::Serialization(m) => "serialization error: "@ + m,
            AppErrorView::NotFound => "not found"@,
            AppErrorView::Unauthorized => "unauthorized"@,
            AppErrorView::Forbidden => "forbidden"@,
            AppErrorView::NotImplemented => "not implemented"@,
        }
    }
}

impl AppError {
    /// The HTTP status under which the error is reported.
    pub fn status_code(&self) -> (code: u16)
        ensures
            code == self@.status(),
    {
        match self {
            AppError::NotFound => 404,
            AppError::Unauthorized => 401,
            AppError::Forbidden => 403,
            AppError::NotImplemented => 501,
            AppError::BadRequest(_) => 400,
            _ => 500,
        }
    }

    /// The error in words.
    pub fn message(&self) -> (m: String)
        ensures
            m@ == self@.message(),
    {
        match self {
            AppError::Config(m) => concat("config error: ", m.as_str()),
            AppError::Io(m) => m.clone(),
            AppError::Database(m) => m.clone(),
            AppError::Git(m) => m.clone(),
            AppError::Other(m) => m.clone(),
            AppError::BadRequest(m) => m.clone(),
            AppError::Corrupt(m) => concat("corrupt document: ", m.as_str()),
            AppError::Serialization(m) => concat("serialization error: ", m.as_str()),
            AppError::NotFound => "not found".to_owned(),
            AppError::Unauthorized => "unauthorized".to_owned(),
            AppError::Forbidden => "forbidden".to_owned(),
            AppError::NotImplemented => "not implemented".to_owned(),
        }
    }
}

} // verus!
