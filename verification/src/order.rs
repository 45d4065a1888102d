//! The orders resource: its vocabulary, the listing and the actions on one
//! order.

pub mod actions;
pub mod listing;
pub mod vocabulary;

pub use self::actions::{
    action_path, escaped, escaped_char, hex_digit, json_string_written, line_json, opt_json,
    opt_written, quoted, OrderAccept, OrderAcceptLine, OrderTracking,
};
pub use self::listing::{
    attach, date_ok, date_text, filters_set, flag_text, inspect_order, join_states, line_row,
    list_orders_query, list_text, number_text, opt_param, order_table, page_query, sort_query,
    state_texts, states_text, timestamp_text, ListOrdersParams, ListOrdersResponse,
    ListOrdersSort, Order, OrderLine, Pagination, Sort, Timestamp,
};
pub use self::vocabulary::{carrier_of, state_of, CarrierCode, OrderSort, OrderState, SortOrder};
