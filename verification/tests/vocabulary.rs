use bestbuy::client::{BestbuyClient, Method};
use bestbuy::order::{inspect_order, CarrierCode, Order, OrderLine, OrderState};
use bestbuy::result::BestbuyError;

const STATES: [OrderState; 11] = [
    OrderState::STAGING,
    OrderState::WAITING_ACCEPTANCE,
    OrderState::WAITING_DEBIT,
    OrderState::WAITING_DEBIT_PAYMENT,
    OrderState::SHIPPING,
    OrderState::SHIPPED,
    OrderState::TO_COLLECT,
    OrderState::RECEIVED,
    OrderState::CLOSED,
    OrderState::REFUSED,
    OrderState::CANCELED,
];

const CARRIERS: [CarrierCode; 9] = [
    CarrierCode::CPCL,
    CarrierCode::ASYN,
    CarrierCode::PRLA,
    CarrierCode::UPSN,
    CarrierCode::LTL,
    CarrierCode::FEDX,
    CarrierCode::LCSL,
    CarrierCode::DHL,
    CarrierCode::CPAR,
];

#[test]
fn state_tokens_round_trip() {
    for state in STATES {
        assert_eq!(OrderState::from_token(&state.token()), Some(state));
    }
    assert_eq!(OrderState::from_token("SHIPPING"), Some(OrderState::SHIPPING));
    assert_eq!(OrderState::from_token("shipping"), None);
    assert_eq!(OrderState::from_token("WAITING"), None);
    assert_eq!(OrderState::from_token(""), None);
}

#[test]
fn carrier_tokens_round_trip() {
    for code in CARRIERS {
        assert_eq!(CarrierCode::from_token(&code.token()), Some(code));
    }
    assert_eq!(CarrierCode::from_token("CPAR"), Some(CarrierCode::CPAR));
    assert_eq!(CarrierCode::from_token("UPS"), None);
}

#[test]
fn state_tokens_are_distinct() {
    for (i, a) in STATES.iter().enumerate() {
        for (j, b) in STATES.iter().enumerate() {
            assert_eq!(a.token() == b.token(), i == j);
        }
    }
}

#[test]
fn message_of_each_kind() {
    let request = BestbuyError::Request {
        path: "/api/orders".to_string(),
        status: 503,
        body: "busy".to_string(),
    };
    assert_eq!(
        request.message(),
        "request error: path = '/api/orders', status = '503', body = 'busy'"
    );
    let deserialize =
        BestbuyError::Deserialize { msg: "expected value".to_string(), body: "x".to_string() };
    assert_eq!(
        deserialize.message(),
        "deserialize body error: msg = 'expected value', body = 'x'"
    );
    assert_eq!(BestbuyError::transport("timed out".to_string()).message(), "http error: timed out");
    let json = serde_json::from_str::<serde_json::Value>("").unwrap_err();
    let text = json.to_string();
    assert_eq!(BestbuyError::Json(json).message(), format!("json error: {}", text));
}

#[test]
fn message_writes_small_and_large_statuses() {
    let with_status = |status: u16| BestbuyError::Request {
        path: String::new(),
        status,
        body: String::new(),
    };
    assert_eq!(with_status(0).message(), "request error: path = '', status = '0', body = ''");
    assert_eq!(
        with_status(65535).message(),
        "request error: path = '', status = '65535', body = ''"
    );
}

#[test]
fn inspect_order_rows() {
    let order = Order {
        order_id: "ORD-9".to_string(),
        order_state: OrderState::SHIPPING,
        order_lines: vec![
            OrderLine {
                order_line_id: "ORD-9-1".to_string(),
                order_line_state: OrderState::SHIPPING,
                offer_sku: "SKU1".to_string(),
                price_unit: "19.99".to_string(),
                quantity: 2,
            },
            OrderLine {
                order_line_id: "ORD-9-2".to_string(),
                order_line_state: OrderState::REFUSED,
                offer_sku: "SKU2".to_string(),
                price_unit: "5".to_string(),
                quantity: 10,
            },
        ],
    };
    assert_eq!(
        inspect_order(&order),
        vec![
            "id: ORD-9".to_string(),
            "status: SHIPPING".to_string(),
            "lines:\n".to_string(),
            "\t#ORD-9-1\tSHIPPING\tSKU1\t19.99\t2".to_string(),
            "\t#ORD-9-2\tREFUSED\tSKU2\t5\t10".to_string(),
        ]
    );
    let empty = Order {
        order_id: String::new(),
        order_state: OrderState::CLOSED,
        order_lines: vec![],
    };
    assert_eq!(inspect_order(&empty).len(), 3);
}

#[test]
fn header_is_attached_after_the_mandated_ones() {
    let client = BestbuyClient::new("t");
    let req = client.request(Method::Delete, "/api/x").header("X-Trace", "1".to_string());
    assert_eq!(req.headers.len(), 4);
    assert_eq!(req.headers[0], ("Authorization".to_string(), "t".to_string()));
    assert_eq!(req.headers[3], ("X-Trace".to_string(), "1".to_string()));
    assert_eq!(req.method, Method::Delete);
}
