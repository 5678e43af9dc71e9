//! Server error categories, the client error type, and their rendering.

use vstd::prelude::*;
use vstd::std_specs::cmp::PartialEqSpecImpl;
use vstd::std_specs::convert::FromSpecImpl;
use vstd::string::StringExecFns;

verus! {

/// A failure reported by the FCM server, classified by HTTP status code.
/// Every variant carries the detail text of the failing response.
#[derive(Debug)]
pub enum FCMError {
    /// Any status code without a category of its own.
    UnspecifiedError(String),
    /// Status 400: the request parameters were invalid.
    InvalidArgument(String),
    /// Status 404: the app instance is no longer registered.
    Unregistered(String),
    /// Status 403: the sender is not the one the registration token belongs to.
    SenderIdMismatch(String),
    /// Status 429: the sending limit was exceeded.
    QuotaExceeded(String),
    /// Status 503: the server is overloaded.
    Unavailable(String),
    /// Status 500: an unknown internal error occurred.
    Internal(String),
    /// Status 401: the APNs certificate or web push auth key was invalid or missing.
    ThirdPartyAuthError(String),
}

/// Mathematical model of an [`FCMError`]: the category together with the
/// detail text as a sequence of characters.
pub enum FCMErrorView {
    UnspecifiedError(Seq<char>),
    InvalidArgument(Seq<char>),
    Unregistered(Seq<char>),
    SenderIdMismatch(Seq<char>),
    QuotaExceeded(Seq<char>),
    Unavailable(Seq<char>),
    Internal(Seq<char>),
    ThirdPartyAuthError(Seq<char>),
}

impl View for FCMError {
    type V = FCMErrorView;

    open spec fn view(&self) -> FCMErrorView {
        match self {
            FCMError::UnspecifiedError(d) => FCMErrorView::UnspecifiedError(d@),
            FCMError::InvalidArgument(d) => FCMErrorView::InvalidArgument(d@),
            FCMError::Unregistered(d) => FCMErrorView::Unregistered(d@),
            FCMError::SenderIdMismatch(d) => FCMErrorView::SenderIdMismatch(d@),
            FCMError::QuotaExceeded(d) => FCMErrorView::QuotaExceeded(d@),
            FCMError::Unavailable(d) => FCMErrorView::Unavailable(d@),
            FCMError::Internal(d) => FCMErrorView::Internal(d@),
            FCMError::ThirdPartyAuthError(d) => FCMErrorView::ThirdPartyAuthError(d@),
        }
    }
}

impl FCMErrorView {
    /// The detail text carried by the error.
    pub open spec fn details(self) -> Seq<char> {
        match self {
            FCMErrorView::UnspecifiedError(d) => d,
            FCMErrorView::InvalidArgument(d) => d,
            FCMErrorView::Unregistered(d) => d,
            FCMErrorView::SenderIdMismatch(d) => d,
            FCMErrorView::QuotaExceeded(d) => d,
            FCMErrorView::Unavailable(d) => d,
            FCMErrorView::Internal(d) => d,
            FCMErrorView::ThirdPartyAuthError(d) => d,
        }
    }

    /// The fixed text that precedes the detail in the rendered message,
    /// separator included.
    pub open spec fn prefix(self) -> Seq<char> {
        match self {
            FCMErrorView::UnspecifiedError(_) => "UnspecifiedError: "@,
            FCMErrorView::InvalidArgument(_) => "Invalid Argument: "@,
            FCMErrorView::Unregistered(_) => "Unregistered: "@,
            FCMErrorView::SenderIdMismatch(_) => "Sender Id Mismatch: "@,
            FCMErrorView::QuotaExceeded(_) => "Quota Exceeded: "@,
            FCMErrorView::Unavailable(_) => "Unavailable: "@,
            FCMErrorView::Internal(_) => "Internal : "@,
            FCMErrorView::ThirdPartyAuthError(_) => "Third Party Auth Error: "@,
        }
    }

    /// The rendered message: the category's prefix followed by the detail,
    /// character for character.
    pub open spec fn render(self) -> Seq<char> {
        self.prefix() + self.details()
    }

    /// Whether both errors belong to the same category, whatever their
    /// details.
    pub open spec fn same_category(self, other: FCMErrorView) -> bool {
        ||| self is UnspecifiedError && other is UnspecifiedError
        ||| self is InvalidArgument && other is InvalidArgument
        ||| self is Unregistered && other is Unregistered
        ||| self is SenderIdMismatch && other is SenderIdMismatch
        ||| self is QuotaExceeded && other is QuotaExceeded
        ||| self is Unavailable && other is Unavailable
        ||| self is Internal && other is Internal
        ||| self is ThirdPartyAuthError && other is ThirdPartyAuthError
    }
}

/// Builds the string made of `prefix` followed by `details`.
fn prefixed(prefix: &str, details: &String) -> (s: String)
    ensures
        s@ == prefix@ + details@,
{
    String::from_str(prefix).concat(details.as_str())
}

impl FCMError {
    /// The category that the server's contract assigns to an HTTP status
    /// code, carrying `details`. The lookup is by exact match; every code
    /// outside the table is `UnspecifiedError`.
    pub open spec fn classify_spec(code: int, details: String) -> FCMError {
        if code == 400 {
            FCMError::InvalidArgument(details)
        } else if code == 401 {
            FCMError::ThirdPartyAuthError(details)
        } else if code == 403 {
            FCMError::SenderIdMismatch(details)
        } else if code == 404 {
            FCMError::Unregistered(details)
        } else if code == 429 {
            FCMError::QuotaExceeded(details)
        } else if code == 500 {
            FCMError::Internal(details)
        } else if code == 503 {
            FCMError::Unavailable(details)
        } else {
            FCMError::UnspecifiedError(details)
        }
    }

    /// Classifies the status code of a rejected request. Every code is
    /// accepted, negative ones and those outside the HTTP range included.
    pub fn classify(code: i64, details: String) -> (e: FCMError)
        ensures
            e == Self::classify_spec(code as int, details),
    {
        match code {
            400 => FCMError::InvalidArgument(details),
            404 => FCMError::Unregistered(details),
            403 => FCMError::SenderIdMismatch(details),
            429 => FCMError::QuotaExceeded(details),
            503 => FCMError::Unavailable(details),
            500 => FCMError::Internal(details),
            401 => FCMError::ThirdPartyAuthError(details),
            _ => FCMError::UnspecifiedError(details),
        }
    }

    /// Renders the error as its message.
    pub fn to_string(&self) -> (s: String)
        ensures
            s@ == self@.render(),
    {
        match self {
            FCMError::UnspecifiedError(details) => prefixed("UnspecifiedError: ", details),
            FCMError::InvalidArgument(details) => prefixed("Invalid Argument: ", details),
            FCMError::Unregistered(details) => prefixed("Unregistered: ", details),
            FCMError::SenderIdMismatch(details) => prefixed("Sender Id Mismatch: ", details),
            FCMError::QuotaExceeded(details) => prefixed("Quota Exceeded: ", details),
            FCMError::Unavailable(details) => prefixed("Unavailable: ", details),
            FCMError::Internal(details) => prefixed("Internal : ", details),
            FCMError::ThirdPartyAuthError(details) => prefixed("Third Party Auth Error: ", details),
        }
    }
}

impl From<(u16, String)> for FCMError {
    /// Classifies a status code as [`FCMError::classify`] does.
    fn from(v: (u16, String)) -> (e: FCMError)
        ensures
            e == FCMError::classify_spec(v.0 as int, v.1),
    {
        let (code, details) = v;
        FCMError::classify(code as i64, details)
    }
}

impl FromSpecImpl<(u16, String)> for FCMError {
    open spec fn obeys_from_spec() -> bool {
        true
    }

    open spec fn from_spec(v: (u16, String)) -> FCMError {
        FCMError::classify_spec(v.0 as int, v.1)
    }
}

impl PartialEq for FCMError {
    /// Two errors are equal when they have the same category and the same
    /// detail text.
    fn eq(&self, other: &FCMError) -> (r: bool)
        ensures
            r == (self@ == other@),
    {
        match (self, other) {
            (FCMError::UnspecifiedError(a), FCMError::UnspecifiedError(b)) => *a == *b,
            (FCMError::InvalidArgument(a), FCMError::InvalidArgument(b)) => *a == *b,
            (FCMError::Unregistered(a), FCMError::Unregistered(b)) => *a == *b,
            (FCMError::SenderIdMismatch(a), FCMError::SenderIdMismatch(b)) => *a == *b,
            (FCMError::QuotaExceeded(a), FCMError::QuotaExceeded(b)) => *a == *b,
            (FCMError::Unavailable(a), FCMError::Unavailable(b)) => *a == *b,
            (FCMError::Internal(a), FCMError::Internal(b)) => *a == *b,
            (FCMError::ThirdPartyAuthError(a), FCMError::ThirdPartyAuthError(b)) => *a == *b,
            _ => false,
        }
    }
}

impl PartialEqSpecImpl for FCMError {
    open spec fn obeys_eq_spec() -> bool {
        true
    }

    open spec fn eq_spec(&self, other: &FCMError) -> bool {
        self@ == other@
    }
}

impl Eq for FCMError {}

impl Clone for FCMError {
    /// The copy is the same value, detail text included.
    fn clone(&self) -> (e: FCMError)
        ensures
            e == *self,
    {
        match self {
            FCMError::UnspecifiedError(d) => FCMError::UnspecifiedError(d.clone()),
            FCMError::InvalidArgument(d) => FCMError::InvalidArgument(d.clone()),
            FCMError::Unregistered(d) => FCMError::Unregistered(d.clone()),
            FCMError::SenderIdMismatch(d) => FCMError::SenderIdMismatch(d.clone()),
            FCMError::QuotaExceeded(d) => FCMError::QuotaExceeded(d.clone()),
            FCMError::Unavailable(d) => FCMError::Unavailable(d.clone()),
            FCMError::Internal(d) => FCMError::Internal(d.clone()),
            FCMError::ThirdPartyAuthError(d) => FCMError::ThirdPartyAuthError(d.clone()),
        }
    }
}

/// An error of an FCM API call.
#[derive(Debug)]
pub enum Error {
    /// OAuth2 authentication error.
    Auth,
    /// Arbitrary configuration error (e.g. unable to initialize TLS backend).
    Config,
    /// Deserialization error (i.e. unexpected result format received from server).
    Deserialization,
    /// FCM server error (returned directly to caller).
    FCM(FCMError),
    /// Timed out while waiting for server. Callers are expected to retry
    /// with exponential back-off.
    Timeout,
}

/// Result of an FCM API call.
pub type Result<T> = std::result::Result<T, Error>;

/// Mathematical model of an [`Error`].
pub enum ErrorView {
    Auth,
    Config,
    Deserialization,
    FCM(FCMErrorView),
    Timeout,
}

impl View for Error {
    type V = ErrorView;

    open spec fn view(&self) -> ErrorView {
        match self {
            Error::Auth => ErrorView::Auth,
            Error::Config => ErrorView::Config,
            Error::Deserialization => ErrorView::Deserialization,
            Error::FCM(e) => ErrorView::FCM(e@),
            Error::Timeout => ErrorView::Timeout,
        }
    }
}

impl ErrorView {
    /// The rendered message: a fixed text for the local failures, and the
    /// server error's own message behind `firebase error: ` otherwise.
    pub open spec fn render(self) -> Seq<char> {
        match self {
            ErrorView::Auth => "authentication error"@,
            ErrorView::Config => "configuration error"@,
            ErrorView::Deserialization => "deserialization error"@,
            ErrorView::FCM(e) => "firebase error: "@ + e.render(),
            ErrorView::Timeout => "timeout"@,
        }
    }
}

impl Error {
    /// Renders the error as its message.
    pub fn to_string(&self) -> (s: String)
        ensures
            s@ == self@.render(),
    {
        match self {
            Error::Auth => String::from_str("authentication error"),
            Error::Config => String::from_str("configuration error"),
            Error::Deserialization => String::from_str("deserialization error"),
            Error::FCM(e) => prefixed("firebase error: ", &e.to_string()),
            Error::Timeout => String::from_str("timeout"),
        }
    }
}

impl PartialEq for Error {
    /// Two errors are equal when they are the same kind of failure and, for
    /// server errors, the wrapped errors are equal.
    fn eq(&self, other: &Error) -> (r: bool)
        ensures
            r == (self@ == other@),
    {
        match (self, other) {
            (Error::Auth, Error::Auth) => true,
            (Error::Config, Error::Config) => true,
            (Error::Deserialization, Error::Deserialization) => true,
            (Error::FCM(a), Error::FCM(b)) => *a == *b,
            (Error::Timeout, Error::Timeout) => true,
            _ => false,
        }
    }
}

impl PartialEqSpecImpl for Error {
    open spec fn obeys_eq_spec() -> bool {
        true
    }

    open spec fn eq_spec(&self, other: &Error) -> bool {
        self@ == other@
    }
}

impl Eq for Error {}

impl Clone for Error {
    /// The copy is the same value.
    fn clone(&self) -> (e: Error)
        ensures
            e == *self,
    {
        match self {
            Error::Auth => Error::Auth,
            Error::Config => Error::Config,
            Error::Deserialization => Error::Deserialization,
            Error::FCM(e) => Error::FCM(e.clone()),
            Error::Timeout => Error::Timeout,
        }
    }
}

} // verus!
