use bestbuy::client::{BestbuyClient, Method, Request};
use bestbuy::order::{
    attach, join_states, CarrierCode, ListOrdersParams, OrderAccept, OrderAcceptLine, OrderSort,
    OrderState, OrderTracking, Pagination, Sort, SortOrder, Timestamp,
};
use bestbuy::text::{bool_token, join};

fn pair(name: &str, value: &str) -> (String, String) {
    (name.to_string(), value.to_string())
}

fn mandated(token: &str) -> Vec<(String, String)> {
    vec![
        pair("Authorization", token),
        pair("Cache-Control", "no-cache"),
        pair("Accept", "application/json"),
    ]
}

fn strings(items: &[&str]) -> Vec<String> {
    items.iter().map(|s| s.to_string()).collect()
}

#[test]
fn request_has_origin_and_mandated_headers() {
    let client = BestbuyClient::new("secret-token");
    let req = client.request(Method::Get, "/api/offers");
    assert_eq!(req.method, Method::Get);
    assert_eq!(req.url, "https://marketplace.bestbuy.ca/api/offers");
    assert_eq!(req.headers, mandated("secret-token"));
    assert!(req.query.is_empty());
    assert!(req.body.is_none());
}

#[test]
fn request_does_not_validate_the_path() {
    let client = BestbuyClient::new("t");
    let req = client.request(Method::Post, "no slash");
    assert_eq!(req.url, "https://marketplace.bestbuy.cano slash");
    assert_eq!(req.method, Method::Post);
}

#[test]
fn query_and_body_are_attached_in_order() {
    let client = BestbuyClient::new("t");
    let req: Request = client
        .request(Method::Get, "/api/offers")
        .query("max", "100".to_string())
        .query("offset", "0".to_string())
        .json("{}".to_string());
    assert_eq!(req.query, vec![pair("max", "100"), pair("offset", "0")]);
    assert_eq!(req.body.as_deref(), Some("{}"));
    assert_eq!(req.headers, mandated("t"));
    let req = attach(req, "skipped", None);
    let req = attach(req, "kept", Some("1".to_string()));
    assert_eq!(req.query.len(), 3);
    assert_eq!(req.query[2], pair("kept", "1"));
}

#[test]
fn join_keeps_order_and_puts_separators_between() {
    assert_eq!(join(&strings(&[]), ","), "");
    assert_eq!(join(&strings(&["A"]), ","), "A");
    assert_eq!(join(&strings(&["A", "B"]), ","), "A,B");
    assert_eq!(join(&strings(&["b", "", "a"]), ", "), "b, , a");
}

#[test]
fn list_orders_order_ids_are_one_parameter() {
    let client = BestbuyClient::new("t");
    let mut params = ListOrdersParams::new();
    params.order_ids = Some(strings(&["A", "B"]));
    let req = client.list_orders_request(&params, None, None).unwrap();
    assert_eq!(req.method, Method::Get);
    assert_eq!(req.url, "https://marketplace.bestbuy.ca/api/orders");
    assert_eq!(req.query, vec![pair("order_ids", "A,B")]);
    assert_eq!(req.headers, mandated("t"));
    assert!(req.body.is_none());
}

#[test]
fn list_orders_without_filters_has_no_query() {
    let client = BestbuyClient::new("t");
    let req = client.list_orders_request(&ListOrdersParams::new(), None, None).unwrap();
    assert!(req.query.is_empty());
}

#[test]
fn list_orders_all_filters_sort_and_page() {
    let client = BestbuyClient::new("t");
    let params = ListOrdersParams {
        order_ids: Some(strings(&["1", "2", "3"])),
        order_state_codes: Some(vec![OrderState::SHIPPING, OrderState::WAITING_ACCEPTANCE]),
        channel_codes: Some(strings(&["web"])),
        start_date: Some(Timestamp { secs: 1431648000, nanos: 0 }),
        end_date: Some(Timestamp { secs: 1431648001, nanos: 500_000_000 }),
        start_update_date: Some(Timestamp { secs: 0, nanos: 0 }),
        end_update_date: Some(Timestamp { secs: -1, nanos: 0 }),
        paginate: Some(false),
    };
    let sort = Sort { sort: OrderSort::DateCreated, order: Some(SortOrder::Desc) };
    let page = Pagination { max: Some(100), offset: Some(0) };
    let req = client.list_orders_request(&params, Some(sort), Some(page)).unwrap();
    assert_eq!(
        req.query,
        vec![
            pair("order_ids", "1,2,3"),
            pair("order_state_codes", "SHIPPING,WAITING_ACCEPTANCE"),
            pair("channel_codes", "web"),
            pair("start_date", "2015-05-15T00:00:00Z"),
            pair("end_date", "2015-05-15T00:00:01.500Z"),
            pair("start_update_date", "1970-01-01T00:00:00Z"),
            pair("end_update_date", "1969-12-31T23:59:59Z"),
            pair("paginate", "false"),
            pair("sort", "dateCreated"),
            pair("order", "desc"),
            pair("max", "100"),
            pair("offset", "0"),
        ]
    );
}

#[test]
fn list_orders_dates_match_the_serialized_form() {
    let client = BestbuyClient::new("t");
    let mut params = ListOrdersParams::new();
    params.start_date = Some(Timestamp { secs: 1_700_000_000, nanos: 123_456_789 });
    let req = client.list_orders_request(&params, None, None).unwrap();
    let date = chrono::DateTime::<chrono::Utc>::from_timestamp(1_700_000_000, 123_456_789).unwrap();
    let wire = serde_json::to_value(&date).unwrap();
    assert_eq!(wire.as_str(), Some(req.query[0].1.as_str()));
    assert_eq!(req.query[0].1, "2023-11-14T22:13:20.123456789Z");
}

#[test]
fn list_orders_rejects_an_instant_without_a_date() {
    let client = BestbuyClient::new("t");
    let mut params = ListOrdersParams::new();
    params.end_update_date = Some(Timestamp { secs: i64::MAX, nanos: 0 });
    assert!(client.list_orders_request(&params, None, None).is_none());
    params.end_update_date = Some(Timestamp { secs: 0, nanos: 2_000_000_000 });
    assert!(client.list_orders_request(&params, None, None).is_none());
}

#[test]
fn sort_and_page_are_attached_only_if_present() {
    let client = BestbuyClient::new("t");
    let params = ListOrdersParams::new();
    let sort = Sort { sort: OrderSort::DateCreated, order: None };
    let req = client.list_orders_request(&params, Some(sort), None).unwrap();
    assert_eq!(req.query, vec![pair("sort", "dateCreated")]);
    let page = Pagination { max: None, offset: Some(4_294_967_295) };
    let req = client.list_orders_request(&params, None, Some(page)).unwrap();
    assert_eq!(req.query, vec![pair("offset", "4294967295")]);
    let page = Pagination { max: Some(10), offset: None };
    let req = client.list_orders_request(&params, None, Some(page)).unwrap();
    assert_eq!(req.query, vec![pair("max", "10")]);
}

#[test]
fn tokens_are_the_wire_vocabulary() {
    assert_eq!(OrderState::WAITING_DEBIT_PAYMENT.token(), "WAITING_DEBIT_PAYMENT");
    assert_eq!(OrderState::CANCELED.token(), "CANCELED");
    assert_eq!(OrderSort::DateCreated.token(), "dateCreated");
    assert_eq!(SortOrder::Asc.token(), "asc");
    assert_eq!(CarrierCode::FEDX.token(), "FEDX");
    assert_eq!(CarrierCode::LTL.token(), "LTL");
    assert_eq!(bool_token(true), "true");
    assert_eq!(bool_token(false), "false");
    assert_eq!(join_states(&vec![]), "");
    assert_eq!(join_states(&vec![OrderState::CLOSED, OrderState::REFUSED]), "CLOSED,REFUSED");
}

#[test]
fn ship_is_a_put_without_body() {
    let client = BestbuyClient::new("t");
    let req = client.ship_request("ORD-1");
    assert_eq!(req.method, Method::Put);
    assert_eq!(req.url, "https://marketplace.bestbuy.ca/api/orders/ORD-1/ship");
    assert_eq!(req.headers, mandated("t"));
    assert!(req.query.is_empty());
    assert!(req.body.is_none());
}

#[test]
fn accept_carries_the_line_decisions() {
    let client = BestbuyClient::new("t");
    let accept = OrderAccept {
        order_lines: vec![
            OrderAcceptLine { accepted: true, id: "L-1".to_string() },
            OrderAcceptLine { accepted: false, id: "a\"b\\c\n".to_string() },
        ],
    };
    let req = client.accept_request("ORD-1", &accept).unwrap();
    assert_eq!(req.method, Method::Put);
    assert_eq!(req.url, "https://marketplace.bestbuy.ca/api/orders/ORD-1/accept");
    assert_eq!(
        req.body.as_deref(),
        Some(
            "{\"order_lines\":[{\"accepted\":true,\"id\":\"L-1\"},{\"accepted\":false,\"id\":\"a\\\"b\\\\c\\n\"}]}"
        )
    );
    let value: serde_json::Value = serde_json::from_str(req.body.as_deref().unwrap()).unwrap();
    assert_eq!(value["order_lines"][1]["id"].as_str(), Some("a\"b\\c\n"));
    assert_eq!(value["order_lines"][0]["accepted"].as_bool(), Some(true));
}

#[test]
fn accept_without_lines_is_an_empty_list() {
    let accept = OrderAccept { order_lines: vec![] };
    assert_eq!(accept.encode().unwrap(), "{\"order_lines\":[]}");
}

#[test]
fn tracking_writes_null_for_missing_fields() {
    let client = BestbuyClient::new("t");
    let tracking = OrderTracking {
        carrier_code: Some(CarrierCode::UPSN),
        carrier_name: None,
        carrier_url: Some("https://ups.example/t?n=1".to_string()),
        tracking_number: Some("1Z999".to_string()),
    };
    let req = client.update_tracking_request("42", &tracking).unwrap();
    assert_eq!(req.method, Method::Put);
    assert_eq!(req.url, "https://marketplace.bestbuy.ca/api/orders/42/tracking");
    assert_eq!(
        req.body.as_deref(),
        Some(
            "{\"carrier_code\":\"UPSN\",\"carrier_name\":null,\"carrier_url\":\"https://ups.example/t?n=1\",\"tracking_number\":\"1Z999\"}"
        )
    );
    let empty = OrderTracking {
        carrier_code: None,
        carrier_name: None,
        carrier_url: None,
        tracking_number: None,
    };
    assert_eq!(
        empty.encode().unwrap(),
        "{\"carrier_code\":null,\"carrier_name\":null,\"carrier_url\":null,\"tracking_number\":null}"
    );
}

#[test]
fn action_request_builds_collection_id_action() {
    let client = BestbuyClient::new("t");
    let req = client.action_request("7", "refund");
    assert_eq!(req.url, "https://marketplace.bestbuy.ca/api/orders/7/refund");
    assert_eq!(req.method, Method::Put);
}

#[test]
fn accept_escapes_ids_as_json_strings() {
    let accept = OrderAccept {
        order_lines: vec![OrderAcceptLine {
            accepted: true,
            id: "\u{0}\u{1f}\u{8}\u{c}\r\t\n\u{b}\u{7f}\u{e9}/\"\\".to_string(),
        }],
    };
    assert_eq!(
        accept.encode().unwrap(),
        "{\"order_lines\":[{\"accepted\":true,\"id\":\"\\u0000\\u001f\\b\\f\\r\\t\\n\\u000b\u{7f}\u{e9}/\\\"\\\\\"}]}"
    );
}

#[test]
fn tracking_escapes_its_texts() {
    let tracking = OrderTracking {
        carrier_code: None,
        carrier_name: Some("Poste \"Canada\"".to_string()),
        carrier_url: None,
        tracking_number: Some(String::new()),
    };
    assert_eq!(
        tracking.encode().unwrap(),
        "{\"carrier_code\":null,\"carrier_name\":\"Poste \\\"Canada\\\"\",\"carrier_url\":null,\"tracking_number\":\"\"}"
    );
}
