//! The error taxonomy of the client, and the error body of the service.

use crate::json::{FromJson, Json, JsonView};
use vstd::prelude::*;

verus! {

/// What a call can fail with.
#[derive(Debug)]
pub enum OpenAIError {
    /// The exchange did not complete: connection, TLS or timeout faults.
    Reqwest(String),
    /// The service answered with a failure status and a well-formed error body.
    ApiError(ApiErrorResponse),
    /// A body, of either kind, that is not the JSON that was expected.
    JSONDeserialize(String),
    /// A fault in an incremental response.
    StreamError(String),
    /// A request that a builder refused to finish.
    InvalidArgument(String),
}

/// The `error` member of an error body. `kind` is the member named `type`;
/// `param` and `code` have no fixed shape and are kept as documents.
#[derive(Debug)]
pub struct ApiErrorDetail {
    pub message: String,
    pub kind: String,
    pub param: Option<Json>,
    pub code: Option<Json>,
}

/// The body that the service sends with a failure status.
#[derive(Debug)]
pub struct ApiErrorResponse {
    pub error: ApiErrorDetail,
}

pub type OpenAIResponse<T> = Result<T, OpenAIError>;

/// Whether an optional field holds what the optional member `key` of `doc`
/// says: nothing where the member is absent or `null`, else its value.
pub open spec fn optional_agrees(field: Option<Json>, doc: JsonView, key: Seq<char>) -> bool {
    match doc.optional_member(key) {
        Some(value) => field matches Some(held) && held@ == value,
        None => field is None,
    }
}

impl FromJson for ApiErrorDetail {
    open spec fn accepts(doc: JsonView) -> bool {
        &&& doc.text_member("message"@) is Some
        &&& doc.text_member("type"@) is Some
    }

    open spec fn agrees_with(&self, doc: JsonView) -> bool {
        &&& doc.text_member("message"@) == Some(self.message@)
        &&& doc.text_member("type"@) == Some(self.kind@)
        &&& optional_agrees(self.param, doc, "param"@)
        &&& optional_agrees(self.code, doc, "code"@)
    }

    fn from_json(doc: &Json) -> (r: Option<Self>) {
        let message = match doc.text_member("message") {
            Some(message) => message,
            None => {
                return None;
            },
        };
        let kind = match doc.text_member("type") {
            Some(kind) => kind,
            None => {
                return None;
            },
        };
        let param = doc.optional_member("param");
        let code = doc.optional_member("code");
        Some(ApiErrorDetail { message, kind, param, code })
    }
}

impl FromJson for ApiErrorResponse {
    open spec fn accepts(doc: JsonView) -> bool {
        match doc.member("error"@) {
            Some(error) => ApiErrorDetail::accepts(error),
            None => false,
        }
    }

    open spec fn agrees_with(&self, doc: JsonView) -> bool {
        match doc.member("error"@) {
            Some(error) => self.error.agrees_with(error),
            None => false,
        }
    }

    fn from_json(doc: &Json) -> (r: Option<Self>) {
        match doc.get("error") {
            Some(error) => match ApiErrorDetail::from_json(error) {
                Some(error) => Some(ApiErrorResponse { error }),
                None => None,
            },
            None => None,
        }
    }
}

} // verus!
