//! Actions on one order: accepting lines, setting the tracking, shipping.

use crate::client::{bare_request, opt_text, BestbuyClient, Method, Request, RequestView};
use crate::order::vocabulary::CarrierCode;
use crate::result::BestbuyError;
use crate::text::{bool_text, bool_token, join, joined, texts};
use vstd::prelude::*;
use vstd::string::*;

verus! {

/// A hexadecimal digit, in lower case.
pub open spec fn hex_digit(d: nat) -> char
    recommends
        d < 16,
{
    seq!['0', '1', '2', '3', '4', '5', '6', '7', '8', '9', 'a', 'b', 'c', 'd', 'e', 'f'][d as int]
}

/// One character inside a JSON string: the quote and the backslash behind a
/// backslash, the control characters below U+0020 as their short escape or
/// as `\u00` and two hexadecimal digits, every other character as it is.
pub open spec fn escaped_char(c: char) -> Seq<char> {
    let code = c as u32;
    if code == 0x22 {
        seq!['\\', '"']
    } else if code == 0x5c {
        seq!['\\', '\\']
    } else if code == 0x08 {
        seq!['\\', 'b']
    } else if code == 0x09 {
        seq!['\\', 't']
    } else if code == 0x0a {
        seq!['\\', 'n']
    } else if code == 0x0c {
        seq!['\\', 'f']
    } else if code == 0x0d {
        seq!['\\', 'r']
    } else if code < 0x20 {
        seq!['\\', 'u', '0', '0', hex_digit((code / 16) as nat), hex_digit((code % 16) as nat)]
    } else {
        seq![c]
    }
}

pub open spec fn escaped(text: Seq<char>) -> Seq<char>
    decreases text.len(),
{
    if text.len() == 0 {
        Seq::empty()
    } else {
        escaped(text.drop_last()) + escaped_char(text.last())
    }
}

/// A text as a JSON string literal: its characters escaped, between quotes.
pub open spec fn quoted(text: Seq<char>) -> Seq<char> {
    seq!['"'] + escaped(text) + seq!['"']
}

/// Whether `serde_json::to_string` returns a text for this string rather
/// than an error.
pub uninterp spec fn json_string_written(text: Seq<char>) -> bool;

/// Calls `serde_json::to_string` on a `str`. Whether it answers with a text
/// depends on the string alone; the text is the string as a JSON string
/// literal, escaped as the serializer's escape table has it.
#[verifier::external_body]
fn json_quote(text: &str) -> (r: Result<String, serde_json::Error>)
    ensures
        r is Ok <==> json_string_written(text@),
        r is Ok ==> r->Ok_0@ == quoted(text@),
{
    serde_json::to_string(text)
}

/// Whether an optional text can be written as a JSON value; a missing one
/// always can.
pub open spec fn opt_written(value: Option<Seq<char>>) -> bool {
    match value {
        Some(s) => json_string_written(s),
        None => true,
    }
}

/// An optional text as a JSON value: `null` where there is none.
pub open spec fn opt_json(value: Option<Seq<char>>) -> Seq<char> {
    match value {
        Some(s) => quoted(s),
        None => "null"@,
    }
}

fn json_opt(value: &Option<String>) -> (r: Result<String, serde_json::Error>)
    ensures
        r is Ok <==> opt_written(opt_text(*value)),
        r is Ok ==> r->Ok_0@ == opt_json(opt_text(*value)),
{
    match value {
        Some(s) => json_quote(s.as_str()),
        None => Ok(String::from_str("null")),
    }
}

/// The decision on one line of an order.
#[derive(Clone, Debug)]
pub struct OrderAcceptLine {
    pub accepted: bool,
    pub id: String,
}

/// The decisions on the lines of an order.
#[derive(Clone, Debug)]
pub struct OrderAccept {
    pub order_lines: Vec<OrderAcceptLine>,
}

/// One line decision as a JSON object; `id` is already a JSON string.
pub open spec fn line_json(accepted: bool, id: Seq<char>) -> Seq<char> {
    "{\"accepted\":"@ + bool_text(accepted) + ",\"id\":"@ + id + "}"@
}

impl OrderAccept {
    /// Whether every line id can be written as a JSON string.
    pub open spec fn encodable(self) -> bool {
        forall|i: int|
            0 <= i < self.order_lines@.len() ==> json_string_written(
                (#[trigger] self.order_lines@[i]).id@,
            )
    }

    pub open spec fn line_texts(self) -> Seq<Seq<char>> {
        Seq::new(
            self.order_lines@.len(),
            |i: int|
                line_json(self.order_lines@[i].accepted, quoted(self.order_lines@[i].id@)),
        )
    }

    /// The payload on the wire: one object whose `order_lines` holds the
    /// line objects in order.
    pub open spec fn json_text(self) -> Seq<char> {
        "{\"order_lines\":["@ + joined(self.line_texts(), ","@) + "]}"@
    }

    /// Writes the payload as compact JSON, fields in declaration order.
    pub fn encode(&self) -> (r: Result<String, BestbuyError>)
        ensures
            r is Ok <==> self.encodable(),
            r is Ok ==> r->Ok_0@ == self.json_text(),
            r is Err ==> r->Err_0 is Json,
    {
        let mut lines: Vec<String> = Vec::new();
        let mut i: usize = 0;
        while i < self.order_lines.len()
            invariant
                i <= self.order_lines.len(),
                forall|j: int|
                    0 <= j < i ==> json_string_written((#[trigger] self.order_lines@[j]).id@),
                texts(lines@) =~= self.line_texts().take(i as int),
            decreases self.order_lines.len() - i,
        {
            let line = &self.order_lines[i];
            let quoted = match json_quote(line.id.as_str()) {
                Ok(q) => q,
                Err(e) => {
                    proof {
                        assert(!json_string_written(self.order_lines@[i as int].id@));
                    }
                    return Err(BestbuyError::Json(e));
                },
            };
            let mut text = String::from_str("{\"accepted\":");
            text.append(bool_token(line.accepted).as_str());
            text.append(",\"id\":");
            text.append(quoted.as_str());
            text.append("}");
            let ghost before = lines@;
            lines.push(text);
            proof {
                assert(texts(lines@) =~= texts(before).push(text@));
                assert(self.line_texts().take(i + 1) =~= self.line_texts().take(i as int).push(
                    self.line_texts()[i as int],
                ));
            }
            i = i + 1;
        }
        proof {
            assert(self.line_texts().take(i as int) =~= self.line_texts());
        }
        let mut out = String::from_str("{\"order_lines\":[");
        out.append(join(&lines, ",").as_str());
        out.append("]}");
        Ok(out)
    }
}

/// Where a shipment is and who carries it; every field is optional.
#[derive(Clone, Debug)]
pub struct OrderTracking {
    pub carrier_code: Option<CarrierCode>,
    pub carrier_name: Option<String>,
    pub carrier_url: Option<String>,
    pub tracking_number: Option<String>,
}

impl OrderTracking {
    pub open spec fn code_text(self) -> Option<Seq<char>> {
        match self.carrier_code {
            Some(c) => Some(c.token_text()),
            None => None,
        }
    }

    /// Whether every field that is set can be written as a JSON string.
    pub open spec fn encodable(self) -> bool {
        opt_written(self.code_text()) && opt_written(opt_text(self.carrier_name)) && opt_written(
            opt_text(self.carrier_url),
        ) && opt_written(opt_text(self.tracking_number))
    }

    /// The payload on the wire: one object with the four fields in
    /// declaration order, `null` for a field that is not set.
    pub open spec fn json_text(self) -> Seq<char> {
        "{\"carrier_code\":"@ + opt_json(self.code_text()) + ",\"carrier_name\":"@ + opt_json(
            opt_text(self.carrier_name),
        ) + ",\"carrier_url\":"@ + opt_json(opt_text(self.carrier_url))
            + ",\"tracking_number\":"@ + opt_json(opt_text(self.tracking_number)) + "}"@
    }

    /// Writes the payload as compact JSON.
    pub fn encode(&self) -> (r: Result<String, BestbuyError>)
        ensures
            r is Ok <==> self.encodable(),
            r is Ok ==> r->Ok_0@ == self.json_text(),
            r is Err ==> r->Err_0 is Json,
    {
        let token = match self.carrier_code {
            Some(c) => Some(c.token()),
            None => None,
        };
        let code = match json_opt(&token) {
            Ok(q) => q,
            Err(e) => { return Err(BestbuyError::Json(e)); },
        };
        let name = match json_opt(&self.carrier_name) {
            Ok(q) => q,
            Err(e) => { return Err(BestbuyError::Json(e)); },
        };
        let url = match json_opt(&self.carrier_url) {
            Ok(q) => q,
            Err(e) => { return Err(BestbuyError::Json(e)); },
        };
        let number = match json_opt(&self.tracking_number) {
            Ok(q) => q,
            Err(e) => { return Err(BestbuyError::Json(e)); },
        };
        let mut out = String::from_str("{\"carrier_code\":");
        out.append(code.as_str());
        out.append(",\"carrier_name\":");
        out.append(name.as_str());
        out.append(",\"carrier_url\":");
        out.append(url.as_str());
        out.append(",\"tracking_number\":");
        out.append(number.as_str());
        out.append("}");
        Ok(out)
    }
}

/// The path of an action on one order: the collection, the id as given, the
/// action.
pub open spec fn action_path(order_id: Seq<char>, action: Seq<char>) -> Seq<char> {
    "/api/orders/"@ + order_id + "/"@ + action
}

impl BestbuyClient {
    /// A PUT on `/api/orders/{order_id}/{action}` with nothing attached.
    pub fn action_request(&self, order_id: &str, action: &str) -> (r: Request)
        ensures
            r@ == bare_request(Method::Put, self.token(), action_path(order_id@, action@)),
    {
        let mut path = String::from_str("/api/orders/");
        path.append(order_id);
        path.append("/");
        path.append(action);
        self.request(Method::Put, path.as_str())
    }

    /// The request that accepts or refuses the lines of an order; its body is
    /// the encoded decisions. It fails only where they cannot be encoded.
    pub fn accept_request(&self, order_id: &str, accept: &OrderAccept) -> (r: Result<
        Request,
        BestbuyError,
    >)
        ensures
            r is Ok <==> accept.encodable(),
            r is Ok ==> r->Ok_0@ == (RequestView {
                body: Some(accept.json_text()),
                ..bare_request(Method::Put, self.token(), action_path(order_id@, "accept"@))
            }),
            r is Err ==> r->Err_0 is Json,
    {
        let body = match accept.encode() {
            Ok(b) => b,
            Err(e) => { return Err(e); },
        };
        Ok(self.action_request(order_id, "accept").json(body))
    }

    /// The request that sets the tracking of an order; its body is the
    /// encoded tracking.
    pub fn update_tracking_request(&self, order_id: &str, tracking: &OrderTracking) -> (r: Result<
        Request,
        BestbuyError,
    >)
        ensures
            r is Ok <==> tracking.encodable(),
            r is Ok ==> r->Ok_0@ == (RequestView {
                body: Some(tracking.json_text()),
                ..bare_request(Method::Put, self.token(), action_path(order_id@, "tracking"@))
            }),
            r is Err ==> r->Err_0 is Json,
    {
        let body = match tracking.encode() {
            Ok(b) => b,
            Err(e) => { return Err(e); },
        };
        Ok(self.action_request(order_id, "tracking").json(body))
    }

    /// The request that moves an order from shipping to shipped; it has no
    /// body.
    pub fn ship_request(&self, order_id: &str) -> (r: Request)
        ensures
            r@ == bare_request(Method::Put, self.token(), action_path(order_id@, "ship"@)),
    {
        self.action_request(order_id, "ship")
    }
}

} // verus!
