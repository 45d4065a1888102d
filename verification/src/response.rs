use crate::result::BestbuyError;
use vstd::prelude::*;

verus! {

/// `serde_json::Value`, a parsed JSON document; opaque here and handed on as
/// it came.
#[verifier::external_type_specification]
#[verifier::external_body]
pub struct ExJsonValue(serde_json::Value);

/// A document as compact JSON text: what `Display` of `serde_json::Value`
/// writes for it.
pub uninterp spec fn document_text(doc: serde_json::Value) -> Seq<char>;

/// What `serde_json::from_str::<serde_json::Value>` makes of a text: the
/// document it reads, given by its compact text, or the message of the error
/// it returns.
pub uninterp spec fn json_parsed(text: Seq<char>) -> Result<Seq<char>, Seq<char>>;

/// Calls `serde_json::from_str` for a `serde_json::Value`. The document comes
/// back as it is; an error comes back as its `Display` text. Which of the two,
/// and which document or message, depends on the text alone: that is all the
/// contract claims.
#[verifier::external_body]
fn parse_json(text: &str) -> (parsed: Result<serde_json::Value, String>)
    ensures
        match parsed {
            Ok(doc) => json_parsed(text@) == Ok::<Seq<char>, Seq<char>>(document_text(doc)),
            Err(msg) => json_parsed(text@) == Err::<Seq<char>, Seq<char>>(msg@),
        },
{
    match serde_json::from_str::<serde_json::Value>(text) {
        Ok(value) => Ok(value),
        Err(err) => Err(err.to_string()),
    }
}

/// The conventional success range: 200 to 299. Redirects are no success.
pub open spec fn is_success(status: u16) -> bool {
    200 <= status <= 299
}

pub fn status_is_success(status: u16) -> (ok: bool)
    ensures
        ok == is_success(status),
{
    200 <= status && status < 300
}

/// A response whose body has been read in full: the status code, the body
/// text and the URL that answered.
#[derive(Debug)]
pub struct BestbuyResponse {
    pub status: u16,
    pub body: String,
    pub url: String,
}

impl BestbuyResponse {
    pub fn new(status: u16, url: String, body: String) -> (r: BestbuyResponse)
        ensures
            r.status == status,
            r.url == url,
            r.body == body,
    {
        BestbuyResponse { status, body, url }
    }

    /// The status policy shared by every endpoint: a success hands the body
    /// on, anything else is a `Request` failure that keeps URL, status and
    /// body.
    pub fn check_status(self) -> (r: Result<String, BestbuyError>)
        ensures
            is_success(self.status) ==> r == Ok::<String, BestbuyError>(self.body),
            !is_success(self.status) ==> r is Err && r->Err_0 == (BestbuyError::Request {
                path: self.url,
                status: self.status,
                body: self.body,
            }),
    {
        if !status_is_success(self.status) {
            return Err(BestbuyError::Request { path: self.url, status: self.status, body: self.body });
        }
        Ok(self.body)
    }

    /// Decodes the body as a JSON document. Outside the success range the
    /// body is never parsed and the result is the `Request` failure. Inside
    /// it the parser decides: the document it reads from the body, or a
    /// `Deserialize` failure with its message and the body verbatim.
    pub fn decode(self) -> (r: Result<serde_json::Value, BestbuyError>)
        ensures
            !is_success(self.status) ==> r is Err && r->Err_0.is_request(
                self.url@,
                self.status,
                self.body@,
            ),
            is_success(self.status) ==> match json_parsed(self.body@) {
                Ok(doc) => r is Ok && document_text(r->Ok_0) == doc,
                Err(msg) => r is Err && r->Err_0.is_deserialize(msg, self.body@),
            },
    {
        let body = match self.check_status() {
            Ok(body) => body,
            Err(e) => { return Err(e); },
        };
        match parse_json(body.as_str()) {
            Ok(value) => Ok(value),
            Err(msg) => Err(BestbuyError::Deserialize { msg, body }),
        }
    }

    /// For endpoints whose success carries no payload: the same status
    /// policy, and on success the body is dropped unread, whatever it holds.
    pub fn decode_empty(self) -> (r: Result<(), BestbuyError>)
        ensures
            is_success(self.status) <==> r is Ok,
            !is_success(self.status) ==> r->Err_0.is_request(self.url@, self.status, self.body@),
    {
        match self.check_status() {
            Ok(_) => Ok(()),
            Err(e) => Err(e),
        }
    }
}

/// Finishes a typed decode. The caller has checked the status and run its
/// own parser for `T` over `body`; a parser message becomes a `Deserialize`
/// failure that keeps the body, a value passes through.
pub fn deserialized<T>(parsed: Result<T, String>, body: String) -> (r: Result<T, BestbuyError>)
    ensures
        match parsed {
            Ok(value) => r == Ok::<T, BestbuyError>(value),
            Err(msg) => r is Err && r->Err_0 == (BestbuyError::Deserialize { msg, body }),
        },
{
    match parsed {
        Ok(value) => Ok(value),
        Err(msg) => Err(BestbuyError::Deserialize { msg, body }),
    }
}

/// A failure produced by decoding is retried only on its status: never
/// after a parse, and never for a status outside 429, 500 and 503.
pub proof fn lemma_decode_failure_retry(e: BestbuyError, url: Seq<char>, status: u16, body: Seq<char>, msg: Seq<char>)
    ensures
        e.is_deserialize(msg, body) ==> !e.retryable(),
        e.is_request(url, status, body) ==> (e.retryable() <==> (status == 429 || status == 500
            || status == 503)),
{
}

} // verus!
