use crate::text::{decimal, decimal_text};
use vstd::prelude::*;
use vstd::string::*;

verus! {

/// `serde_json::Error`, carried through as an opaque value.
#[verifier::external_type_specification]
#[verifier::external_body]
pub struct ExJsonError(serde_json::Error);

/// Everything that can go wrong with one call.
#[derive(Debug)]
pub enum BestbuyError {
    /// The server answered with a status outside 200..=299.
    Request { path: String, status: u16, body: String },
    /// The status was a success but the body is not the expected JSON.
    Deserialize { msg: String, body: String },
    /// The transport failed before a response arrived; holds its message.
    Http(String),
    /// JSON could not be written for a request body.
    Json(serde_json::Error),
}

/// Calls `Display` of `serde_json::Error` through `to_string`. Nothing is
/// claimed of the text.
#[verifier::external_body]
fn json_error_text(e: &serde_json::Error) -> (r: String) {
    e.to_string()
}

pub type BestbuyResult<T> = Result<T, BestbuyError>;

/// The statuses after which the same call may be issued again: too many
/// requests, internal server error, service unavailable.
pub open spec fn transient_status(status: u16) -> bool {
    status == 429 || status == 500 || status == 503
}

impl BestbuyError {
    /// Whether this is a `Request` failure with exactly these fields.
    pub open spec fn is_request(self, path: Seq<char>, status: u16, body: Seq<char>) -> bool {
        match self {
            BestbuyError::Request { path: p, status: s, body: b } => p@ == path && s == status
                && b@ == body,
            _ => false,
        }
    }

    /// Whether this is a `Deserialize` failure with exactly these fields.
    pub open spec fn is_deserialize(self, msg: Seq<char>, body: Seq<char>) -> bool {
        match self {
            BestbuyError::Deserialize { msg: m, body: b } => m@ == msg && b@ == body,
            _ => false,
        }
    }

    /// Whether this is a transport failure with this message.
    pub open spec fn is_http(self, msg: Seq<char>) -> bool {
        match self {
            BestbuyError::Http(m) => m@ == msg,
            _ => false,
        }
    }

    /// Whether issuing the same call again is worth it.
    pub open spec fn retryable(self) -> bool {
        match self {
            BestbuyError::Request { status, .. } => transient_status(status),
            _ => false,
        }
    }

    /// Advisory only: nothing here retries. True exactly for a `Request`
    /// failure whose status is 429, 500 or 503.
    pub fn should_try_again(&self) -> (again: bool)
        ensures
            again == self.retryable(),
            again <==> (*self is Request && (self->status == 429 || self->status == 500
                || self->status == 503)),
    {
        match self {
            BestbuyError::Request { status, .. } => {
                let code: u16 = *status;
                code == 429 || code == 500 || code == 503
            },
            _ => false,
        }
    }

    /// The failure in words, for every kind but `Json`, whose words are the
    /// encoder's own.
    pub open spec fn message_text(self) -> Seq<char> {
        match self {
            BestbuyError::Request { path, status, body } => "request error: path = '"@ + path@
                + "', status = '"@ + decimal_text(status as nat) + "', body = '"@ + body@ + "'"@,
            BestbuyError::Deserialize { msg, body } => "deserialize body error: msg = '"@ + msg@
                + "', body = '"@ + body@ + "'"@,
            BestbuyError::Http(msg) => "http error: "@ + msg@,
            BestbuyError::Json(_) => "json error: "@,
        }
    }

    /// A one-line description for people. For a `Json` failure it is
    /// `json error: ` followed by the encoder's message.
    pub fn message(&self) -> (r: String)
        ensures
            !(*self is Json) ==> r@ == self.message_text(),
            *self is Json ==> self.message_text().is_prefix_of(r@),
    {
        match self {
            BestbuyError::Request { path, status, body } => {
                let code: u32 = *status as u32;
                let mut out = String::from_str("request error: path = '");
                out.append(path.as_str());
                out.append("', status = '");
                out.append(decimal(code).as_str());
                out.append("', body = '");
                out.append(body.as_str());
                out.append("'");
                out
            },
            BestbuyError::Deserialize { msg, body } => {
                let mut out = String::from_str("deserialize body error: msg = '");
                out.append(msg.as_str());
                out.append("', body = '");
                out.append(body.as_str());
                out.append("'");
                out
            },
            BestbuyError::Http(msg) => {
                let mut out = String::from_str("http error: ");
                out.append(msg.as_str());
                out
            },
            BestbuyError::Json(e) => {
                let mut out = String::from_str("json error: ");
                out.append(json_error_text(e).as_str());
                out
            },
        }
    }

    /// A transport failure with the transport's own message.
    pub fn transport(msg: String) -> (e: BestbuyError)
        ensures
            e.is_http(msg@),
            !e.retryable(),
    {
        BestbuyError::Http(msg)
    }
}

/// Only `Request` failures are ever worth a second attempt.
pub proof fn lemma_only_request_failures_retry(e: BestbuyError)
    ensures
        e.retryable() ==> e is Request,
        e is Deserialize || e is Http || e is Json ==> !e.retryable(),
{
}

/// Among `Request` failures the status alone decides.
pub proof fn lemma_retry_by_status(path: String, status: u16, body: String)
    ensures
        (BestbuyError::Request { path, status, body }).retryable() <==> (status == 429 || status
            == 500 || status == 503),
{
}

} // verus!
