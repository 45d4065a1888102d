//! Listing orders: filters, sort and page as a query, and the page that
//! comes back.

use crate::client::{bare_request, opt_text, BestbuyClient, Method, Request, RequestView};
use crate::order::vocabulary::{OrderSort, OrderState, SortOrder};
use crate::text::{bool_text, bool_token, decimal, decimal_text, join, joined, texts};
use vstd::prelude::*;
use vstd::string::*;

verus! {

/// A sort key with an optional direction.
#[derive(Clone, Copy, Debug, PartialEq, Eq, Structural)]
pub struct Sort {
    pub sort: OrderSort,
    pub order: Option<SortOrder>,
}

pub type ListOrdersSort = Sort;

/// Which slice of the full result a page is.
#[derive(Clone, Copy, Debug, PartialEq, Eq, Structural)]
pub struct Pagination {
    pub max: Option<u32>,
    pub offset: Option<u32>,
}

/// An instant in UTC: seconds since the Unix epoch and the nanoseconds
/// within that second.
#[derive(Clone, Copy, Debug, PartialEq, Eq, Structural)]
pub struct Timestamp {
    pub secs: i64,
    pub nanos: u32,
}

/// What chrono writes for the instant `secs`, `nanos`: `None` where
/// `DateTime::from_timestamp` has no date for it, otherwise the text of
/// `to_rfc3339_opts` with `SecondsFormat::AutoSi` and `Z` for UTC, which is
/// also what chrono's serde support writes for a `DateTime<Utc>`.
pub uninterp spec fn timestamp_text(secs: i64, nanos: u32) -> Option<Seq<char>>;

/// Calls `chrono::DateTime::from_timestamp` and, on the date it returns,
/// `to_rfc3339_opts`. Both depend on the two numbers alone.
#[verifier::external_body]
fn format_timestamp(secs: i64, nanos: u32) -> (r: Option<String>)
    ensures
        opt_text(r) == timestamp_text(secs, nanos),
{
    match chrono::DateTime::<chrono::Utc>::from_timestamp(secs, nanos) {
        Some(t) => Some(t.to_rfc3339_opts(chrono::SecondsFormat::AutoSi, true)),
        None => None,
    }
}

/// The filters of a listing; each is optional.
#[derive(Clone, Debug)]
pub struct ListOrdersParams {
    pub order_ids: Option<Vec<String>>,
    pub order_state_codes: Option<Vec<OrderState>>,
    pub channel_codes: Option<Vec<String>>,
    pub start_date: Option<Timestamp>,
    pub end_date: Option<Timestamp>,
    pub start_update_date: Option<Timestamp>,
    pub end_update_date: Option<Timestamp>,
    pub paginate: Option<bool>,
}

/// The wire codes of a list of states, in order.
pub open spec fn state_texts(codes: Seq<OrderState>) -> Seq<Seq<char>> {
    codes.map_values(|c: OrderState| c.token_text())
}

/// A list of strings as one query value: its elements joined by commas.
pub open spec fn list_text(items: Option<Vec<String>>) -> Option<Seq<char>> {
    match items {
        Some(v) => Some(joined(texts(v@), ","@)),
        None => None,
    }
}

pub open spec fn states_text(codes: Option<Vec<OrderState>>) -> Option<Seq<char>> {
    match codes {
        Some(v) => Some(joined(state_texts(v@), ","@)),
        None => None,
    }
}

/// Whether a date filter, if set, is an instant that has a calendar date.
pub open spec fn date_ok(t: Option<Timestamp>) -> bool {
    t is Some ==> timestamp_text(t->0.secs, t->0.nanos) is Some
}

pub open spec fn date_text(t: Option<Timestamp>) -> Option<Seq<char>> {
    match t {
        Some(ts) => timestamp_text(ts.secs, ts.nanos),
        None => None,
    }
}

pub open spec fn flag_text(b: Option<bool>) -> Option<Seq<char>> {
    match b {
        Some(v) => Some(bool_text(v)),
        None => None,
    }
}

pub open spec fn number_text(n: Option<u32>) -> Option<Seq<char>> {
    match n {
        Some(v) => Some(decimal_text(v as nat)),
        None => None,
    }
}

/// One query parameter where the value is present, none where it is not.
pub open spec fn opt_param(name: Seq<char>, value: Option<Seq<char>>) -> Seq<
    (Seq<char>, Seq<char>),
> {
    match value {
        Some(v) => seq![(name, v)],
        None => Seq::empty(),
    }
}

pub open spec fn sort_query(sort: Option<Sort>) -> Seq<(Seq<char>, Seq<char>)> {
    match sort {
        Some(s) => seq![("sort"@, s.sort.token_text())] + opt_param(
            "order"@,
            match s.order {
                Some(o) => Some(o.token_text()),
                None => None,
            },
        ),
        None => Seq::empty(),
    }
}

pub open spec fn page_query(page: Option<Pagination>) -> Seq<(Seq<char>, Seq<char>)> {
    match page {
        Some(p) => opt_param("max"@, number_text(p.max)) + opt_param(
            "offset"@,
            number_text(p.offset),
        ),
        None => Seq::empty(),
    }
}

impl ListOrdersParams {
    /// No filter at all.
    pub fn new() -> (p: ListOrdersParams)
        ensures
            p.order_ids is None,
            p.order_state_codes is None,
            p.channel_codes is None,
            p.start_date is None,
            p.end_date is None,
            p.start_update_date is None,
            p.end_update_date is None,
            p.paginate is None,
    {
        ListOrdersParams {
            order_ids: None,
            order_state_codes: None,
            channel_codes: None,
            start_date: None,
            end_date: None,
            start_update_date: None,
            end_update_date: None,
            paginate: None,
        }
    }

    /// Whether every date filter that is set can be written as a date.
    pub open spec fn dates_ok(self) -> bool {
        date_ok(self.start_date) && date_ok(self.end_date) && date_ok(self.start_update_date)
            && date_ok(self.end_update_date)
    }

    /// The filters as query parameters: each filter that is set gives exactly
    /// one parameter under its own name, a list as its elements joined by
    /// commas in their order; a filter that is not set gives none.
    pub open spec fn query(self) -> Seq<(Seq<char>, Seq<char>)> {
        opt_param("order_ids"@, list_text(self.order_ids)) + opt_param(
            "order_state_codes"@,
            states_text(self.order_state_codes),
        ) + opt_param("channel_codes"@, list_text(self.channel_codes)) + opt_param(
            "start_date"@,
            date_text(self.start_date),
        ) + opt_param("end_date"@, date_text(self.end_date)) + opt_param(
            "start_update_date"@,
            date_text(self.start_update_date),
        ) + opt_param("end_update_date"@, date_text(self.end_update_date)) + opt_param(
            "paginate"@,
            flag_text(self.paginate),
        )
    }
}

/// The whole query of a listing: the filters, then the sort, then the page.
pub open spec fn list_orders_query(
    params: ListOrdersParams,
    sort: Option<Sort>,
    page: Option<Pagination>,
) -> Seq<(Seq<char>, Seq<char>)> {
    params.query() + sort_query(sort) + page_query(page)
}

/// Attaches the parameter if there is a value and leaves the request as it
/// is if there is none.
pub fn attach(req: Request, name: &str, value: Option<String>) -> (r: Request)
    ensures
        r@ == (RequestView { query: req@.query + opt_param(name@, opt_text(value)), ..req@ }),
{
    match value {
        Some(v) => req.query(name, v),
        None => {
            proof {
                assert(req@.query + Seq::<(Seq<char>, Seq<char>)>::empty() =~= req@.query);
            }
            req
        },
    }
}

/// The wire codes of the states, joined by commas.
pub fn join_states(codes: &Vec<OrderState>) -> (r: String)
    ensures
        r@ == joined(state_texts(codes@), ","@),
{
    let mut tokens: Vec<String> = Vec::new();
    let mut i: usize = 0;
    while i < codes.len()
        invariant
            i <= codes.len(),
            texts(tokens@) =~= state_texts(codes@.take(i as int)),
        decreases codes.len() - i,
    {
        let ghost before = tokens@;
        tokens.push(codes[i].token());
        proof {
            assert(codes@.take(i + 1) =~= codes@.take(i as int).push(codes@[i as int]));
            assert(texts(tokens@) =~= texts(before).push(codes@[i as int].token_text()));
        }
        i = i + 1;
    }
    proof {
        assert(codes@.take(i as int) =~= codes@);
    }
    join(&tokens, ",")
}

fn list_value(items: &Option<Vec<String>>) -> (r: Option<String>)
    ensures
        opt_text(r) == list_text(*items),
{
    match items {
        Some(v) => Some(join(v, ",")),
        None => None,
    }
}

fn date_value(t: Option<Timestamp>) -> (r: Option<Option<String>>)
    ensures
        r is Some <==> date_ok(t),
        r is Some ==> opt_text(r->0) == date_text(t),
{
    match t {
        Some(ts) => match format_timestamp(ts.secs, ts.nanos) {
            Some(s) => Some(Some(s)),
            None => None,
        },
        None => Some(None),
    }
}

fn number_value(n: Option<u32>) -> (r: Option<String>)
    ensures
        opt_text(r) == number_text(n),
{
    match n {
        Some(v) => Some(decimal(v)),
        None => None,
    }
}

impl BestbuyClient {
    /// The request that lists orders: a GET on the collection with the
    /// filters, the sort and the page as its query, each attached only if
    /// present. There is no request exactly when a date filter is an instant
    /// without a calendar date.
    pub fn list_orders_request(
        &self,
        params: &ListOrdersParams,
        sort: Option<Sort>,
        page: Option<Pagination>,
    ) -> (r: Option<Request>)
        ensures
            r is Some <==> params.dates_ok(),
            r is Some ==> r->0@ == (RequestView {
                query: list_orders_query(*params, sort, page),
                ..bare_request(Method::Get, self.token(), "/api/orders"@)
            }),
    {
        let start = match date_value(params.start_date) {
            Some(v) => v,
            None => { return None; },
        };
        let end = match date_value(params.end_date) {
            Some(v) => v,
            None => { return None; },
        };
        let start_update = match date_value(params.start_update_date) {
            Some(v) => v,
            None => { return None; },
        };
        let end_update = match date_value(params.end_update_date) {
            Some(v) => v,
            None => { return None; },
        };
        let states = match &params.order_state_codes {
            Some(v) => Some(join_states(v)),
            None => None,
        };
        let paginate = match params.paginate {
            Some(b) => Some(bool_token(b)),
            None => None,
        };
        let req = self.request(Method::Get, "/api/orders");
        let req = attach(req, "order_ids", list_value(&params.order_ids));
        let req = attach(req, "order_state_codes", states);
        let req = attach(req, "channel_codes", list_value(&params.channel_codes));
        let req = attach(req, "start_date", start);
        let req = attach(req, "end_date", end);
        let req = attach(req, "start_update_date", start_update);
        let req = attach(req, "end_update_date", end_update);
        let req = attach(req, "paginate", paginate);
        proof {
            assert(req@.query =~= params.query());
        }
        let req = match sort {
            Some(s) => {
                let req = req.query("sort", s.sort.token());
                let order = match s.order {
                    Some(o) => Some(o.token()),
                    None => None,
                };
                attach(req, "order", order)
            },
            None => req,
        };
        proof {
            assert(req@.query =~= params.query() + sort_query(sort));
        }
        let req = match page {
            Some(p) => {
                let req = attach(req, "max", number_value(p.max));
                attach(req, "offset", number_value(p.offset))
            },
            None => req,
        };
        proof {
            assert(req@.query =~= list_orders_query(*params, sort, page));
        }
        Some(req)
    }
}

/// With no other filter set, a list of order ids is the whole query: one
/// parameter, whose value is the ids joined by commas in their order.
pub proof fn lemma_order_ids_one_param(params: ListOrdersParams)
    requires
        params.order_ids is Some,
        params.order_state_codes is None,
        params.channel_codes is None,
        params.start_date is None,
        params.end_date is None,
        params.start_update_date is None,
        params.end_update_date is None,
        params.paginate is None,
    ensures
        params.query() == seq![("order_ids"@, joined(texts(params.order_ids->0@), ","@))],
        list_orders_query(params, None, None) == params.query(),
{
    assert(params.query() =~= seq![("order_ids"@, joined(texts(params.order_ids->0@), ","@))]);
    assert(list_orders_query(params, None, None) =~= params.query());
}

/// How many filters are set.
pub open spec fn filters_set(params: ListOrdersParams) -> nat {
    let a: nat = if params.order_ids is Some { 1 } else { 0 };
    let b: nat = if params.order_state_codes is Some { 1 } else { 0 };
    let c: nat = if params.channel_codes is Some { 1 } else { 0 };
    let d: nat = if date_text(params.start_date) is Some { 1 } else { 0 };
    let e: nat = if date_text(params.end_date) is Some { 1 } else { 0 };
    let f: nat = if date_text(params.start_update_date) is Some { 1 } else { 0 };
    let g: nat = if date_text(params.end_update_date) is Some { 1 } else { 0 };
    let h: nat = if params.paginate is Some { 1 } else { 0 };
    a + b + c + d + e + f + g + h
}

/// Every filter gives one parameter or none, however many elements a list
/// filter holds: the query is as long as the number of filters that are set.
pub proof fn lemma_one_param_per_filter(params: ListOrdersParams)
    ensures
        params.query().len() == filters_set(params),
        params.order_ids is Some ==> params.query()[0] == (
            "order_ids"@,
            joined(texts(params.order_ids->0@), ","@),
        ),
{
}

/// One line of an order.
#[derive(Clone, Debug)]
pub struct OrderLine {
    pub order_line_id: String,
    pub order_line_state: OrderState,
    pub offer_sku: String,
    pub price_unit: String,
    pub quantity: u32,
}

/// An order as the listing returns it.
#[derive(Clone, Debug)]
pub struct Order {
    pub order_id: String,
    pub order_state: OrderState,
    pub order_lines: Vec<OrderLine>,
}

/// One page of a listing: the orders of the page, in the server's order, and
/// the size of the full result across all pages.
#[derive(Clone, Debug)]
pub struct ListOrdersResponse {
    pub orders: Vec<Order>,
    pub total_count: i32,
}

/// One order line as a row: id, state, SKU, unit price and quantity,
/// separated by tabs.
pub open spec fn line_row(line: OrderLine) -> Seq<char> {
    "\t#"@ + line.order_line_id@ + "\t"@ + line.order_line_state.token_text() + "\t"@
        + line.offer_sku@ + "\t"@ + line.price_unit@ + "\t"@ + decimal_text(line.quantity as nat)
}

/// An order as a table: id, status, a heading, then one row per line in the
/// order's own order.
pub open spec fn order_table(order: Order) -> Seq<Seq<char>> {
    seq!["id: "@ + order.order_id@, "status: "@ + order.order_state.token_text(), "lines:\n"@]
        + Seq::new(order.order_lines@.len(), |i: int| line_row(order.order_lines@[i]))
}

/// The lines that show an order to a person.
pub fn inspect_order(order: &Order) -> (rows: Vec<String>)
    ensures
        texts(rows@) == order_table(*order),
{
    let mut rows: Vec<String> = Vec::new();
    let mut id = String::from_str("id: ");
    id.append(order.order_id.as_str());
    rows.push(id);
    let mut status = String::from_str("status: ");
    status.append(order.order_state.token().as_str());
    rows.push(status);
    rows.push(String::from_str("lines:\n"));
    let ghost head = texts(rows@);
    let ghost table = order_table(*order);
    proof {
        assert(head =~= table.take(3));
    }
    let mut i: usize = 0;
    while i < order.order_lines.len()
        invariant
            i <= order.order_lines.len(),
            table == order_table(*order),
            texts(rows@) =~= table.take(3 + i),
        decreases order.order_lines.len() - i,
    {
        let line = &order.order_lines[i];
        let mut row = String::from_str("\t#");
        row.append(line.order_line_id.as_str());
        row.append("\t");
        row.append(line.order_line_state.token().as_str());
        row.append("\t");
        row.append(line.offer_sku.as_str());
        row.append("\t");
        row.append(line.price_unit.as_str());
        row.append("\t");
        row.append(decimal(line.quantity).as_str());
        let ghost before = rows@;
        rows.push(row);
        proof {
            assert(texts(rows@) =~= texts(before).push(row@));
            assert(table[3 + i] == line_row(order.order_lines@[i as int]));
            assert(table.take(3 + i + 1) =~= table.take(3 + i).push(table[3 + i]));
        }
        i = i + 1;
    }
    proof {
        assert(table.take(3 + i) =~= table);
    }
    rows
}

} // verus!
