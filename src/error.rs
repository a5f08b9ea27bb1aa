//! The library's error type.

use vstd::prelude::*;

verus! {

#[verifier::external_type_specification]
#[verifier::external_body]
pub struct ExReqwestError(reqwest::Error);

#[verifier::external_type_specification]
#[verifier::external_body]
pub struct ExIoError(std::io::Error);

#[verifier::external_type_specification]
#[verifier::external_body]
pub struct ExJsonError(serde_json::Error);

#[verifier::external_type_specification]
#[verifier::external_body]
pub struct ExUrlParseError(url::ParseError);

#[derive(Debug)]
pub enum AppError {
    /// The transport failed: connect, TLS or timeout.
    Http(reqwest::Error),
    Io(std::io::Error),
    Json(serde_json::Error),
    UrlParse(url::ParseError),
    CollectionNotFound { name: String },
    InvalidHeader { header: String },
    Config(String),
    Other(String),
}

/// What an error says, without the outside error values it carries.
pub enum ErrorView {
    Http,
    Io,
    Json,
    UrlParse,
    CollectionNotFound(Seq<char>),
    InvalidHeader(Seq<char>),
    Config(Seq<char>),
    Other(Seq<char>),
}

impl View for AppError {
    type V = ErrorView;

    open spec fn view(&self) -> ErrorView {
        match self {
            AppError::Http(_) => ErrorView::Http,
            AppError::Io(_) => ErrorView::Io,
            AppError::Json(_) => ErrorView::Json,
            AppError::UrlParse(_) => ErrorView::UrlParse,
            AppError::CollectionNotFound { name } => ErrorView::CollectionNotFound(name@),
            AppError::InvalidHeader { header } => ErrorView::InvalidHeader(header@),
            AppError::Config(m) => ErrorView::Config(m@),
            AppError::Other(m) => ErrorView::Other(m@),
        }
    }
}

} // verus!
