use obird::decimal::{Dec, Price, Quantity};
use obird::types::error::ConnectorError;
use obird::types::event::Event;
use obird::types::instrument::{Exchange, InstrumentId, InstrumentKind};
use obird::types::order::{OrderRequest, OrderSide, OrderStatus, TimeInForce};
use obird::venues::binance::{
    batch_body, batch_failed, batch_outcomes, batch_plan, book_ticker_to_snapshot, book_ticker_url,
    build_order_params, cancel_params, listen_key_url, modify_params, on_user_data, open_order_from_rest,
    order_side, order_status, place_to_update_at, position_from_risk, sign, signed_body, signed_url,
    tif_str, urlencoding_simple, user_data_url, ws_fill_at, BatchOrderResult, BatchPlan, BinanceClient, BookTickerMsg,
    OpenOrderResponse, OrderTradeUpdate, OrderUpdateInner, PlaceOrderResponse, PositionRiskResponse,
};

fn d(m: i64, s: u32) -> Dec {
    Dec::new(m, s)
}

fn eth() -> InstrumentId {
    InstrumentId::new(Exchange::Binance, InstrumentKind::Perpetual, "ETHUSDT".to_string())
}

#[test]
fn status_and_side_texts() {
    assert_eq!(order_status("NEW"), OrderStatus::Acknowledged);
    assert_eq!(order_status("PARTIALLY_FILLED"), OrderStatus::PartiallyFilled);
    assert_eq!(order_status("FILLED"), OrderStatus::Filled);
    assert_eq!(order_status("EXPIRED_IN_MATCH"), OrderStatus::Cancelled);
    assert_eq!(order_status("CANCELED"), OrderStatus::Cancelled);
    assert_eq!(order_status("REJECTED"), OrderStatus::Rejected);
    assert_eq!(order_status("SOMETHING"), OrderStatus::Acknowledged);
    assert_eq!(order_side("BUY"), OrderSide::Buy);
    assert_eq!(order_side("buy"), OrderSide::Sell);
    assert_eq!(tif_str(TimeInForce::PostOnly), "GTX");
}

#[test]
fn ticker_snapshot_in_nanoseconds() {
    let msg = BookTickerMsg {
        best_bid: d(1000, 0),
        best_bid_qty: d(2, 0),
        best_ask: d(1001, 0),
        best_ask_qty: d(3, 0),
        trade_time: 1_700,
        event_time: 1_701,
    };
    let (snap, ts) = book_ticker_to_snapshot(&msg);
    assert_eq!(ts, 1_700_000_000);
    assert_eq!(snap.timestamp_ns, ts);
    assert_eq!(snap.best_bid().unwrap().1.inner(), d(2, 0));
    assert_eq!(snap.mid_price().unwrap().inner(), Dec::parse_str("1000.5").unwrap());
}

fn resp(orig: Dec, exec: Dec, avg: Dec, status: &str) -> PlaceOrderResponse {
    PlaceOrderResponse {
        order_id: 77,
        client_order_id: "c".to_string(),
        status: status.to_string(),
        avg_price: avg,
        executed_qty: exec,
        orig_qty: orig,
    }
}

#[test]
fn placement_reply_as_update() {
    let u = place_to_update_at(&eth(), &resp(d(5, 0), d(2, 0), d(0, 0), "NEW"), 9);
    assert_eq!(u.order_id, "77");
    assert_eq!(u.remaining_qty.inner(), d(3, 0));
    assert!(u.avg_fill_price.is_none());
    assert_eq!(u.timestamp_ns, 9);
    let u = place_to_update_at(&eth(), &resp(d(5, 0), d(7, 0), d(12, 1), "FILLED"), 9);
    assert_eq!(u.remaining_qty.inner(), Dec::zero());
    assert_eq!(u.avg_fill_price.unwrap().inner(), d(12, 1));
    assert_eq!(u.status, OrderStatus::Filled);
}

fn inner(last_qty: Dec) -> OrderUpdateInner {
    OrderUpdateInner {
        symbol: "ETHUSDT".to_string(),
        order_id: 5,
        side: "SELL".to_string(),
        order_status: "PARTIALLY_FILLED".to_string(),
        last_qty,
        last_price: d(2000, 0),
        cum_qty: d(1, 0),
        avg_price: d(2000, 0),
        orig_qty: d(4, 0),
        commission: d(1, 2),
    }
}

#[test]
fn user_data_publishes_update_and_fill() {
    let upd = OrderTradeUpdate { transaction_time: 1, order: inner(d(1, 0)) };
    let evs = on_user_data("ORDER_TRADE_UPDATE", Some(&upd), &eth(), 4);
    assert_eq!(evs.len(), 2);
    match &evs[0] {
        Event::OrderUpdate { update, .. } => {
            assert_eq!(update.status, OrderStatus::PartiallyFilled);
            assert_eq!(update.remaining_qty.inner(), d(3, 0));
        }
        _ => panic!(),
    }
    match &evs[1] {
        Event::Fill { fill, .. } => {
            assert_eq!(fill.side, OrderSide::Sell);
            assert_eq!(fill.fee.inner(), d(1, 2));
        }
        _ => panic!(),
    }
    let no_fill = OrderTradeUpdate { transaction_time: 1, order: inner(d(0, 0)) };
    assert_eq!(on_user_data("ORDER_TRADE_UPDATE", Some(&no_fill), &eth(), 4).len(), 1);
    assert!(on_user_data("ACCOUNT_UPDATE", Some(&upd), &eth(), 4).is_empty());
    assert!(on_user_data("ORDER_TRADE_UPDATE", None, &eth(), 4).is_empty());
    let f = ws_fill_at(&eth(), &inner(d(1, 0)), 3);
    assert_eq!(f.order_id, "5");
}

#[test]
fn positions_and_open_orders() {
    let zero = PositionRiskResponse {
        symbol: "ETHUSDT".to_string(),
        position_amt: Dec::parse_str("0.000").unwrap(),
        entry_price: d(0, 0),
        unrealized_profit: d(0, 0),
    };
    assert!(position_from_risk(&eth(), &zero).is_none());
    let short = PositionRiskResponse { position_amt: d(-2, 0), ..zero };
    assert_eq!(position_from_risk(&eth(), &short).unwrap().size.inner(), d(-2, 0));
    let o = open_order_from_rest(
        &eth(),
        &OpenOrderResponse {
            order_id: 31,
            symbol: "ETHUSDT".to_string(),
            side: "BUY".to_string(),
            price: d(10, 0),
            orig_qty: d(2, 0),
            executed_qty: d(1, 0),
        },
    );
    assert_eq!(o.order_id, "31");
    assert_eq!(o.side, OrderSide::Buy);
    assert_eq!(o.filled_qty.inner(), d(1, 0));
}

#[test]
fn signature_is_hmac_sha256_hex() {
    assert_eq!(
        sign("key", "The quick brown fox jumps over the lazy dog"),
        "f7bc83f430538424b13298e6aa6fb143ef4d59a14946175997479dbc2d1a3cd8"
    );
}

#[test]
fn signed_requests_carry_time_and_signature() {
    let url = signed_url("https://h", "fapi/v1/openOrders", "symbol=X", "s", 12, false);
    let q = "symbol=X&timestamp=12&recvWindow=5000";
    assert_eq!(url, format!("https://h/fapi/v1/openOrders?{q}&signature={}", sign("s", q)));
    let url = signed_url("https://h", "p", "", "s", 12, false);
    assert!(url.starts_with("https://h/p?timestamp=12&recvWindow=5000&signature="));
    let url = signed_url("https://h", "p", "", "s", 12, true);
    assert!(url.starts_with("https://h/p?&timestamp=12"));
    let body = signed_body("a=1", "s", 3);
    assert_eq!(body, format!("a=1&timestamp=3&recvWindow=5000&signature={}", sign("s", "a=1&timestamp=3&recvWindow=5000")));
}

fn req(side: OrderSide, tif: TimeInForce) -> OrderRequest {
    OrderRequest {
        instrument: eth(),
        side,
        price: Price::new(Dec::parse_str("2000.1").unwrap()),
        quantity: Quantity::new(Dec::parse_str("1.5").unwrap()),
        tif,
        client_order_id: None,
    }
}

#[test]
fn order_parameters() {
    assert_eq!(
        build_order_params("ETHUSDT", &req(OrderSide::Sell, TimeInForce::Ioc)),
        "symbol=ETHUSDT&side=SELL&type=LIMIT&timeInForce=IOC&quantity=1.5&price=2000.1"
    );
    assert_eq!(
        modify_params("ETHUSDT", Price::new(d(3, 0)), Quantity::new(d(4, 0))),
        "symbol=ETHUSDT&side=BUY&type=LIMIT&timeInForce=GTX&quantity=4&price=3"
    );
    assert_eq!(cancel_params("ETHUSDT", "9"), "symbol=ETHUSDT&orderId=9");
}

#[test]
fn percent_encoding() {
    assert_eq!(urlencoding_simple("a b&c=\"d\",:~._-"), "a%20b%26c%3D\"d\",:~._-");
    assert_eq!(urlencoding_simple("é"), "%C3%A9");
    assert_eq!(urlencoding_simple(""), "");
}

#[test]
fn batch_body_is_encoded_json() {
    let body = batch_body("ETHUSDT", &vec![req(OrderSide::Buy, TimeInForce::Gtc)]);
    assert_eq!(
        body,
        "batchOrders=%5B%7B\"price\":\"2000.1\",\"quantity\":\"1.5\",\"side\":\"BUY\",\"symbol\":\"ETHUSDT\",\"timeInForce\":\"GTC\",\"type\":\"LIMIT\"%7D%5D"
    );
    let two = batch_body("X", &vec![req(OrderSide::Buy, TimeInForce::Gtc), req(OrderSide::Sell, TimeInForce::PostOnly)]);
    assert!(two.contains("%7D,%7B"));
}

#[test]
fn up_to_five_in_one_batch_more_one_by_one() {
    assert_eq!(batch_plan(0), BatchPlan::Nothing);
    assert_eq!(batch_plan(1), BatchPlan::OneBatch);
    assert_eq!(batch_plan(5), BatchPlan::OneBatch);
    assert_eq!(batch_plan(6), BatchPlan::Sequential);
    assert_eq!(batch_plan(12), BatchPlan::Sequential);
}

#[test]
fn batch_reply_outcomes() {
    let results = vec![
        BatchOrderResult::Placed(resp(d(1, 0), d(0, 0), d(0, 0), "NEW")),
        BatchOrderResult::Refused { code: -2010, msg: "insufficient".to_string() },
    ];
    let (outs, updates) = batch_outcomes(&eth(), &results, 3, 1);
    assert_eq!(outs.len(), 2);
    assert_eq!(outs[0].as_ref().ok(), Some(&"77".to_string()));
    match &outs[1] {
        Err(ConnectorError::OrderRejected(m)) => assert_eq!(m, "code=-2010: insufficient"),
        _ => panic!(),
    }
    assert_eq!(updates.len(), 1);
    assert_eq!(batch_outcomes(&eth(), &results, 1, 1).0.len(), 1);
    let failed = batch_failed(2, "timeout");
    assert_eq!(failed.len(), 2);
    match &failed[1] {
        Err(ConnectorError::Other(m)) => assert_eq!(m, "batch place: timeout"),
        _ => panic!(),
    }
}

#[test]
fn client_and_stream_urls() {
    let c = BinanceClient::new(" k \n", "\tsecret ", "ETHUSDT", true);
    assert_eq!(c.api_key(), "k");
    assert_eq!(c.secret, "secret");
    assert!(c.testnet());
    assert_eq!(c.instrument(), eth());
    assert!(!BinanceClient::new("k", "s", "X", false).testnet());
    assert_eq!(book_ticker_url(false, "ETHUSDT"), "wss://fstream.binance.com/ws/ethusdt@bookTicker");
    assert_eq!(user_data_url(true, "lk"), "wss://stream.binancefuture.com/ws/lk");
    assert_eq!(listen_key_url(false), "https://fapi.binance.com/fapi/v1/listenKey");
}
