//! The errors that header validation and routing report.

use crate::routers::{RouterError, RouterErrorView};
use vstd::prelude::*;

verus! {

/// A failure that the storage backend reported.
#[derive(Debug, Clone, PartialEq, Eq)]
pub enum DbError {
    /// An error that consists of a message only.
    Msg(String),
    /// Any other failure of the backend, with its description.
    Backend(String),
}

/// A [`DbError`] as plain values.
pub enum DbErrorView {
    Msg(Seq<char>),
    Backend(Seq<char>),
}

impl View for DbError {
    type V = DbErrorView;

    open spec fn view(&self) -> DbErrorView {
        match *self {
            DbError::Msg(m) => DbErrorView::Msg(m@),
            DbError::Backend(m) => DbErrorView::Backend(m@),
        }
    }
}

impl DbErrorView {
    /// The error with which storage says that it holds no record of a user.
    pub open spec fn is_user_not_found(self) -> bool {
        self == DbErrorView::Msg("No user record found"@)
    }
}

impl DbError {
    /// Whether storage said that it holds no record of the user.
    pub fn is_user_not_found(&self) -> (r: bool)
        ensures
            r == self@.is_user_not_found(),
    {
        match self {
            DbError::Msg(m) => crate::text::same_text(m.as_str(), "No user record found"),
            DbError::Backend(_) => false,
        }
    }
}

/// One violated constraint of a header field.
#[derive(Debug, Clone, PartialEq, Eq)]
pub enum ValidationError {
    /// The TTL is below `min`.
    TtlRange { min: i64, ttl: i64 },
    /// The topic has more than `max` characters.
    TopicLength { max: u64, topic: String },
    /// The topic is not URL-safe Base64 text.
    TopicAlphabet { topic: String },
}

/// A [`ValidationError`] as plain values.
pub enum ValidationErrorView {
    TtlRange { min: i64, ttl: i64 },
    TopicLength { max: u64, topic: Seq<char> },
    TopicAlphabet { topic: Seq<char> },
}

impl View for ValidationError {
    type V = ValidationErrorView;

    open spec fn view(&self) -> ValidationErrorView {
        match *self {
            ValidationError::TtlRange { min, ttl } => ValidationErrorView::TtlRange { min, ttl },
            ValidationError::TopicLength { max, topic } => ValidationErrorView::TopicLength {
                max,
                topic: topic@,
            },
            ValidationError::TopicAlphabet { topic } => ValidationErrorView::TopicAlphabet {
                topic: topic@,
            },
        }
    }
}

impl DeepView for ValidationError {
    type V = ValidationErrorView;

    open spec fn deep_view(&self) -> ValidationErrorView {
        self@
    }
}

impl ValidationErrorView {
    /// The name of the field that the error is about.
    pub open spec fn field(self) -> Seq<char> {
        match self {
            ValidationErrorView::TtlRange { .. } => "ttl"@,
            _ => "topic"@,
        }
    }

    /// The stable code of the error.
    pub open spec fn code(self) -> Seq<char> {
        match self {
            ValidationErrorView::TtlRange { .. } => "114"@,
            _ => "113"@,
        }
    }

    /// The text that describes the error.
    pub open spec fn message(self) -> Seq<char> {
        match self {
            ValidationErrorView::TtlRange { .. } => "TTL must be greater than 0"@,
            ValidationErrorView::TopicLength { .. } => "Topic must be no greater than 32 characters"@,
            ValidationErrorView::TopicAlphabet { .. } => "Topic must be URL and Filename safe Base64 alphabet"@,
        }
    }
}

impl ValidationError {
    /// The name of the field that the error is about: `ttl` or `topic`.
    pub fn field(&self) -> (r: &'static str)
        ensures
            r@ == self@.field(),
    {
        match self {
            ValidationError::TtlRange { .. } => "ttl",
            _ => "topic",
        }
    }

    /// The stable code of the error: `114` for the TTL, `113` for the topic.
    pub fn code(&self) -> (r: &'static str)
        ensures
            r@ == self@.code(),
    {
        match self {
            ValidationError::TtlRange { .. } => "114",
            _ => "113",
        }
    }

    /// The text that describes the error.
    pub fn message(&self) -> (r: &'static str)
        ensures
            r@ == self@.message(),
    {
        match self {
            ValidationError::TtlRange { .. } => "TTL must be greater than 0",
            ValidationError::TopicLength { .. } => "Topic must be no greater than 32 characters",
            ValidationError::TopicAlphabet { .. } => "Topic must be URL and Filename safe Base64 alphabet",
        }
    }
}

/// The violated constraints of a header set, in the order in which the
/// fields are checked.
#[derive(Debug, Clone, PartialEq, Eq)]
pub struct ValidationErrors {
    pub errors: Vec<ValidationError>,
}

impl View for ValidationErrors {
    type V = Seq<ValidationErrorView>;

    open spec fn view(&self) -> Seq<ValidationErrorView> {
        self.errors.deep_view()
    }
}

/// What went wrong with a request.
#[derive(Debug, Clone, PartialEq, Eq)]
pub enum ApiErrorKind {
    /// A header field is out of its bounds.
    Validation(ValidationErrors),
    /// The encryption headers do not fit the content encoding.
    InvalidEncryption(String),
    /// Routing failed.
    Router(RouterError),
    /// Storage failed.
    Database(DbError),
}

/// An [`ApiErrorKind`] as plain values.
pub enum ApiErrorView {
    Validation(Seq<ValidationErrorView>),
    InvalidEncryption(Seq<char>),
    Router(RouterErrorView),
    Database(DbErrorView),
}

impl View for ApiErrorKind {
    type V = ApiErrorView;

    open spec fn view(&self) -> ApiErrorView {
        match *self {
            ApiErrorKind::Validation(e) => ApiErrorView::Validation(e@),
            ApiErrorKind::InvalidEncryption(m) => ApiErrorView::InvalidEncryption(m@),
            ApiErrorKind::Router(e) => ApiErrorView::Router(e@),
            ApiErrorKind::Database(e) => ApiErrorView::Database(e@),
        }
    }
}

/// The error of every fallible operation of this library.
#[derive(Debug, Clone, PartialEq, Eq)]
pub struct ApiError {
    pub kind: ApiErrorKind,
}

impl View for ApiError {
    type V = ApiErrorView;

    open spec fn view(&self) -> ApiErrorView {
        self.kind@
    }
}

impl ApiError {
    /// An invalid-encryption error with the given message.
    pub fn invalid_encryption(message: String) -> (e: ApiError)
        ensures
            e@ == ApiErrorView::InvalidEncryption(message@),
    {
        ApiError { kind: ApiErrorKind::InvalidEncryption(message) }
    }
}

pub type ApiResult<T> = Result<T, ApiError>;

/// A result as plain values.
pub open spec fn result_view<T: View, E: View>(r: Result<T, E>) -> Result<T::V, E::V> {
    match r {
        Ok(t) => Ok(t@),
        Err(e) => Err(e@),
    }
}

} // verus!
