//! What holds of classification, equality and rendering on every input.

use crate::result::{Error, FCMError};
use vstd::prelude::*;
use vstd::std_specs::cmp::PartialEqSpec;

verus! {

/// Classification is total: `classify` may be called with every status code
/// and every detail text, and the inputs determine its result.
pub proof fn lemma_classify_total(code: i64, details: String)
    ensures
        call_requires(FCMError::classify, (code, details)),
        forall|e: FCMError| #[trigger]
            call_ensures(FCMError::classify, (code, details), e)
                ==> e == FCMError::classify_spec(code as int, details),
{
}

/// Classification follows the status table by exact match: each of the
/// seven listed codes gives its own category, and every other integer,
/// negative or beyond the HTTP range, gives `UnspecifiedError`.
pub proof fn lemma_classify_table(code: int, details: String)
    ensures
        FCMError::classify_spec(400, details) == FCMError::InvalidArgument(details),
        FCMError::classify_spec(401, details) == FCMError::ThirdPartyAuthError(details),
        FCMError::classify_spec(403, details) == FCMError::SenderIdMismatch(details),
        FCMError::classify_spec(404, details) == FCMError::Unregistered(details),
        FCMError::classify_spec(429, details) == FCMError::QuotaExceeded(details),
        FCMError::classify_spec(500, details) == FCMError::Internal(details),
        FCMError::classify_spec(503, details) == FCMError::Unavailable(details),
        code != 400 && code != 401 && code != 403 && code != 404 && code != 429 && code != 500
            && code != 503
            ==> FCMError::classify_spec(code, details) == FCMError::UnspecifiedError(details),
{
}

/// Classification keeps the detail text as it was given: the classified
/// error carries the same characters in the same order, whatever the code.
pub proof fn lemma_classify_preserves_details(code: int, details: String)
    ensures
        FCMError::classify_spec(code, details)@.details() == details@,
{
}

/// Two server errors are equal exactly when they belong to the same
/// category and carry the same detail text. In particular, differing
/// details make errors of one category unequal.
pub proof fn lemma_equal_iff_same_category_and_details(a: FCMError, b: FCMError)
    ensures
        a.eq_spec(&b) <==> a@.same_category(b@) && a@.details() == b@.details(),
{
}

/// Rendering a server error twice gives the same text both times.
pub proof fn lemma_server_error_renders_alike(e: FCMError, first: String, second: String)
    requires
        call_ensures(FCMError::to_string, (&e,), first),
        call_ensures(FCMError::to_string, (&e,), second),
    ensures
        first@ == second@,
{
}

/// Rendering an error twice gives the same text both times.
pub proof fn lemma_error_renders_alike(e: Error, first: String, second: String)
    requires
        call_ensures(Error::to_string, (&e,), first),
        call_ensures(Error::to_string, (&e,), second),
    ensures
        first@ == second@,
{
}

} // verus!
