use gmo_coin::error::GmoCoinError;
use gmo_coin::json::JsonValue;
use gmo_coin::private::api::{
    self, ActiveOrders, Assets, Execution, ExecutionType, ExecutionsParam, Margin, OpenPositions,
    OrderInfo, PositionSummary, SettlePosition,
};
use gmo_coin::private::auth::{
    get_with_params, get_without_params, post_with_params, Credentials, API_KEY_VARIABLE,
    SECRET_KEY_VARIABLE,
};
use gmo_coin::request::{Method, Request};
use gmo_coin::response::read_body;
use gmo_coin::sign::sign_request;
use gmo_coin::{LeverageSymbol, Response, ResponseList, ResponsePage, Side, Symbol};

const NOW: u64 = 1609459200000;

fn credentials() -> Credentials {
    Credentials { api_key: String::from("test-key"), secret_key: String::from("test-secret") }
}

fn pair(name: &str, value: &str) -> (String, String) {
    (String::from(name), String::from(value))
}

fn assert_signed_get(request: &Request, path: &str, query: Vec<(String, String)>) {
    assert_eq!(request.method, Method::GET);
    assert_eq!(request.url, format!("https://api.coin.z.com/private{}", path));
    assert_eq!(request.query, query);
    assert_eq!(
        request.headers,
        vec![
            pair("API-KEY", "test-key"),
            pair("API-TIMESTAMP", "1609459200000"),
            pair("API-SIGN", &sign_request(NOW, "GET", path, "", "test-secret")),
        ]
    );
    assert_eq!(request.body, None);
}

fn assert_signed_post(request: &Request, path: &str, body: &str) {
    assert_eq!(request.method, Method::POST);
    assert_eq!(request.url, format!("https://api.coin.z.com/private{}", path));
    assert!(request.query.is_empty());
    assert_eq!(
        request.headers,
        vec![
            pair("content-type", "application/json"),
            pair("API-KEY", "test-key"),
            pair("API-TIMESTAMP", "1609459200000"),
            pair("API-SIGN", &sign_request(NOW, "POST", path, body, "test-secret")),
        ]
    );
    assert_eq!(request.body.as_deref(), Some(body));
}

#[test]
fn margin_is_a_signed_get() {
    let request = api::margin(&credentials(), NOW).unwrap();
    assert_signed_get(&request, "/v1/account/margin", vec![]);
    assert_eq!(
        request.headers[2].1,
        "1a9a254944351ea5b71b8a916c79403468ae1c12849993cfd7d0d2d885338ebf"
    );
}

#[test]
fn assets_and_trading_volume_are_signed_gets() {
    assert_signed_get(&api::assets(&credentials(), NOW).unwrap(), "/v1/account/assets", vec![]);
    assert_signed_get(
        &api::trading_volume(&credentials(), NOW).unwrap(),
        "/v1/account/tradingVolume",
        vec![],
    );
}

#[test]
fn orders_sends_the_order_id() {
    let request = api::orders(&credentials(), NOW, "123456789").unwrap();
    assert_signed_get(&request, "/v1/orders", vec![pair("orderId", "123456789")]);
    let several = api::orders(&credentials(), NOW, "1,2,3").unwrap();
    assert_signed_get(&several, "/v1/orders", vec![pair("orderId", "1,2,3")]);
}

#[test]
fn active_orders_sends_symbol_page_and_count() {
    let request = api::active_orders(&credentials(), NOW, Symbol::BTC, Some(2), Some(50)).unwrap();
    assert_signed_get(
        &request,
        "/v1/activeOrders",
        vec![pair("symbol", "BTC"), pair("page", "2"), pair("count", "50")],
    );
}

#[test]
fn listings_default_to_page_one_and_a_hundred_items() {
    assert_eq!(api::DEFAULT_PAGE, 1);
    assert_eq!(api::DEFAULT_COUNT, 100);
    let defaults = vec![pair("symbol", "BTC_JPY"), pair("page", "1"), pair("count", "100")];
    assert_signed_get(
        &api::active_orders(&credentials(), NOW, Symbol::BTC_JPY, None, None).unwrap(),
        "/v1/activeOrders",
        defaults.clone(),
    );
    assert_signed_get(
        &api::latest_executions(&credentials(), NOW, Symbol::BTC_JPY, None, None).unwrap(),
        "/v1/latestExecutions",
        defaults.clone(),
    );
    assert_signed_get(
        &api::open_positions(&credentials(), NOW, Symbol::BTC_JPY, None, None).unwrap(),
        "/v1/openPositions",
        defaults,
    );
}

#[test]
fn active_orders_with_a_count_of_zero() {
    let request = api::active_orders(&credentials(), NOW, Symbol::BTC, Some(1), Some(0)).unwrap();
    assert_signed_get(
        &request,
        "/v1/activeOrders",
        vec![pair("symbol", "BTC"), pair("page", "1"), pair("count", "0")],
    );

    let empty = "{\"status\":0,\"data\":{\"pagination\":{\"currentPage\":1,\"count\":0},\
                 \"list\":[]},\"responsetime\":\"2019-03-19T02:15:06.001Z\"}";
    let page: ResponsePage<ActiveOrders> = read_body(200, empty).unwrap();
    assert!(page.data.list.is_empty());
    assert_eq!(page.data.pagination.count, 0);

    let refused = "{\"status\":1,\"messages\":[{\"message_code\":\"ERR-5106\",\
                   \"message_string\":\"Invalid request parameter.\"}],\
                   \"responsetime\":\"2019-03-19T02:15:06.001Z\"}";
    assert_eq!(read_body::<ResponsePage<ActiveOrders>>(200, refused), Err(GmoCoinError::Json));
    assert_eq!(
        read_body::<ResponsePage<ActiveOrders>>(400, refused),
        Err(GmoCoinError::HttpStatus(400))
    );
}

#[test]
fn executions_names_the_kind_of_identifier() {
    assert_signed_get(
        &api::executions(&credentials(), NOW, ExecutionsParam::OrderId(42)).unwrap(),
        "/v1/executions",
        vec![pair("orderId", "42")],
    );
    assert_signed_get(
        &api::executions(&credentials(), NOW, ExecutionsParam::ExecutionId(7)).unwrap(),
        "/v1/executions",
        vec![pair("executionId", "7")],
    );
    assert_eq!(ExecutionsParam::OrderId(1).to_string(), "orderId");
    assert_eq!(ExecutionsParam::ExecutionId(1).to_string(), "executionId");
    assert_eq!(ExecutionsParam::ExecutionId(9).value(), 9);
}

#[test]
fn position_summary_sends_the_symbol() {
    assert_signed_get(
        &api::position_summary(&credentials(), NOW, Symbol::ETH_JPY).unwrap(),
        "/v1/positionSummary",
        vec![pair("symbol", "ETH_JPY")],
    );
}

#[test]
fn market_order_payload_has_no_price_key() {
    let payload = api::order_payload(
        Symbol::BTC,
        Side::BUY,
        ExecutionType::MARKET,
        None,
        String::from("0.01"),
    );
    assert!(payload.get("price").is_none());
    assert_eq!(payload.get("symbol"), Some(&JsonValue::String(String::from("BTC"))));
    assert_eq!(payload.get("side"), Some(&JsonValue::String(String::from("BUY"))));
    assert_eq!(payload.get("executionType"), Some(&JsonValue::String(String::from("MARKET"))));
    assert_eq!(payload.get("size"), Some(&JsonValue::String(String::from("0.01"))));
    let text = payload.to_string();
    assert!(!text.contains("price"));
    assert_eq!(
        text,
        "{\"executionType\":\"MARKET\",\"side\":\"BUY\",\"size\":\"0.01\",\"symbol\":\"BTC\"}"
    );
}

#[test]
fn limit_order_payload_has_its_price() {
    let payload = api::order_payload(
        Symbol::BTC_JPY,
        Side::SELL,
        ExecutionType::LIMIT,
        Some(String::from("430001")),
        String::from("0.02"),
    );
    assert_eq!(payload.get("price"), Some(&JsonValue::String(String::from("430001"))));
    assert_eq!(
        payload.to_string(),
        "{\"executionType\":\"LIMIT\",\"price\":\"430001\",\"side\":\"SELL\",\"size\":\"0.02\",\
         \"symbol\":\"BTC_JPY\"}"
    );
}

#[test]
fn order_signs_the_body_that_it_sends() {
    let request = api::order(
        &credentials(),
        NOW,
        Symbol::BTC,
        Side::BUY,
        ExecutionType::MARKET,
        None,
        String::from("0.01"),
    )
    .unwrap();
    assert_signed_post(
        &request,
        "/v1/order",
        "{\"executionType\":\"MARKET\",\"side\":\"BUY\",\"size\":\"0.01\",\"symbol\":\"BTC\"}",
    );
    assert_eq!(
        request.headers[3].1,
        "bb21185fa17a3a9cec1ff4bc48e0af026da590132c7bbcb27fbe2f084142e2ac"
    );
}

#[test]
fn change_order_sends_the_losscut_price_only_where_given() {
    assert_signed_post(
        &api::change_order(&credentials(), NOW, 2, String::from("1201"), None).unwrap(),
        "/v1/changeOrder",
        "{\"orderId\":2,\"price\":\"1201\"}",
    );
    assert_signed_post(
        &api::change_order(
            &credentials(),
            NOW,
            2,
            String::from("1201"),
            Some(String::from("1000")),
        )
        .unwrap(),
        "/v1/changeOrder",
        "{\"losscutPrice\":\"1000\",\"orderId\":2,\"price\":\"1201\"}",
    );
}

#[test]
fn cancel_operations_send_their_identifiers() {
    assert_signed_post(
        &api::cancel_order(&credentials(), NOW, 2).unwrap(),
        "/v1/cancelOrder",
        "{\"orderId\":2}",
    );
    assert_signed_post(
        &api::cancel_orders(&credentials(), NOW, vec![1, 2, 3, 4]).unwrap(),
        "/v1/cancelOrders",
        "{\"orderIds\":[1,2,3,4]}",
    );
    assert_signed_post(
        &api::cancel_orders(&credentials(), NOW, vec![]).unwrap(),
        "/v1/cancelOrders",
        "{\"orderIds\":[]}",
    );
    assert_signed_post(
        &api::cancel_bulk_order(&credentials(), NOW, vec![Symbol::BTC, Symbol::BTC_JPY]).unwrap(),
        "/v1/cancelBulkOrder",
        "{\"symbols\":[\"BTC\",\"BTC_JPY\"]}",
    );
}

#[test]
fn close_order_sends_exactly_one_settle_position() {
    let payload = api::close_order_payload(
        LeverageSymbol::BTC_JPY,
        Side::BUY,
        ExecutionType::MARKET,
        None,
        SettlePosition { position_id: 1182, size: String::from("0.01") },
    );
    assert!(payload.get("price").is_none());
    match payload.get("settlePosition") {
        Some(JsonValue::Array(positions)) => {
            assert_eq!(positions.len(), 1);
            assert_eq!(positions[0].get("positionId"), Some(&JsonValue::Number(1182)));
            assert_eq!(positions[0].get("size"), Some(&JsonValue::String(String::from("0.01"))));
        }
        other => panic!("unexpected settle position: {:?}", other),
    }

    let request = api::close_order(
        &credentials(),
        NOW,
        LeverageSymbol::BTC_JPY,
        Side::SELL,
        ExecutionType::LIMIT,
        Some(String::from("85201")),
        SettlePosition { position_id: 1182, size: String::from("0.01") },
    )
    .unwrap();
    assert_signed_post(
        &request,
        "/v1/closeOrder",
        "{\"executionType\":\"LIMIT\",\"price\":\"85201\",\
         \"settlePosition\":[{\"positionId\":1182,\"size\":\"0.01\"}],\"side\":\"SELL\",\
         \"symbol\":\"BTC_JPY\"}",
    );
}

#[test]
fn close_bulk_order_sends_the_size() {
    assert_signed_post(
        &api::close_bulk_order(
            &credentials(),
            NOW,
            LeverageSymbol::XRP_JPY,
            Side::SELL,
            ExecutionType::MARKET,
            None,
            String::from("10"),
        )
        .unwrap(),
        "/v1/closeBulkOrder",
        "{\"executionType\":\"MARKET\",\"side\":\"SELL\",\"size\":\"10\",\"symbol\":\"XRP_JPY\"}",
    );
    let with_price = api::close_bulk_order_payload(
        LeverageSymbol::XRP_JPY,
        Side::SELL,
        ExecutionType::STOP,
        Some(String::from("31")),
        String::from("10"),
    );
    assert_eq!(with_price.get("price"), Some(&JsonValue::String(String::from("31"))));
}

#[test]
fn change_losscut_price_sends_position_and_price() {
    assert_signed_post(
        &api::change_losscut_price(&credentials(), NOW, 305885, String::from("750000")).unwrap(),
        "/v1/changeLosscutPrice",
        "{\"losscutPrice\":\"750000\",\"positionId\":305885}",
    );
}

#[test]
fn execution_types_render_their_tokens() {
    assert_eq!(ExecutionType::MARKET.to_string(), "MARKET");
    assert_eq!(ExecutionType::LIMIT.to_string(), "LIMIT");
    assert_eq!(ExecutionType::STOP.as_str(), "STOP");
}

#[test]
fn a_key_that_cannot_stand_in_a_header_is_refused() {
    let bad = Credentials { api_key: String::from("key\nX: y"), secret_key: String::from("s") };
    assert_eq!(api::margin(&bad, NOW), Err(GmoCoinError::InvalidHeaderValue));
    assert_eq!(
        api::cancel_order(&bad, NOW, 1),
        Err(GmoCoinError::InvalidHeaderValue)
    );
    let delete = Credentials { api_key: String::from("key\u{7f}"), secret_key: String::from("s") };
    assert_eq!(get_without_params(&delete, NOW, "/v1/x"), Err(GmoCoinError::InvalidHeaderValue));
    let tab = Credentials { api_key: String::from("a\tb é"), secret_key: String::from("s") };
    assert!(get_without_params(&tab, NOW, "/v1/x").is_ok());
}

#[test]
fn credentials_name_the_missing_variable() {
    assert_eq!(API_KEY_VARIABLE, "GMO_COIN_API_KEY");
    assert_eq!(SECRET_KEY_VARIABLE, "GMO_COIN_SECRET_KEY");
    assert_eq!(
        Credentials::resolve(Some(String::from("k")), Some(String::from("s"))),
        Ok(Credentials { api_key: String::from("k"), secret_key: String::from("s") })
    );
    assert_eq!(
        Credentials::resolve(None, Some(String::from("s"))),
        Err(GmoCoinError::EnvVar(String::from("GMO_COIN_API_KEY")))
    );
    assert_eq!(
        Credentials::resolve(Some(String::from("k")), None),
        Err(GmoCoinError::EnvVar(String::from("GMO_COIN_SECRET_KEY")))
    );
    assert_eq!(
        Credentials::resolve(None, None),
        Err(GmoCoinError::EnvVar(String::from("GMO_COIN_API_KEY")))
    );
}

#[test]
fn get_with_params_does_not_sign_the_query() {
    let query = JsonValue::Object(vec![
        (String::from("symbol"), JsonValue::String(String::from("BTC"))),
        (String::from("skipped"), JsonValue::Null),
        (String::from("flag"), JsonValue::Bool(true)),
    ]);
    let request = get_with_params(&credentials(), NOW, "/v1/activeOrders", &query).unwrap();
    assert_signed_get(
        &request,
        "/v1/activeOrders",
        vec![pair("symbol", "BTC"), pair("flag", "true")],
    );
}

#[test]
fn post_with_params_sends_the_text_of_the_payload() {
    let payload = JsonValue::Object(vec![
        (String::from("b"), JsonValue::Number(2)),
        (String::from("a"), JsonValue::String(String::from("x\"y"))),
    ]);
    let request = post_with_params(&credentials(), NOW, "/v1/order", &payload).unwrap();
    assert_signed_post(&request, "/v1/order", "{\"a\":\"x\\\"y\",\"b\":2}");
}

#[test]
fn private_replies_are_read_into_records() {
    let margin: Response<Margin> = read_body(
        200,
        "{\"status\":0,\"data\":{\"actualProfitLoss\":\"68286188\",\
         \"availableAmount\":\"57262506\",\"margin\":\"1021682\",\"profitLoss\":\"8019\"},\
         \"responsetime\":\"2019-03-19T02:15:06.051Z\"}",
    )
    .unwrap();
    assert_eq!(margin.data.actual_profit_loss, "68286188");
    assert_eq!(margin.data.available_amount, "57262506");
    assert_eq!(margin.data.margin, "1021682");
    assert_eq!(margin.data.profit_loss, "8019");
    assert_eq!(margin.responsetime, "2019-03-19T02:15:06.051Z");

    let assets: Response<Vec<Assets>> = read_body(
        200,
        "{\"status\":0,\"data\":[{\"amount\":\"993982448\",\"available\":\"993982448\",\
         \"conversionRate\":\"1\",\"symbol\":\"JPY\"}],\
         \"responsetime\":\"2019-03-19T02:15:06.055Z\"}",
    )
    .unwrap();
    assert_eq!(assets.data.len(), 1);
    assert_eq!(assets.data[0].conversion_rate, "1");

    let orders: ResponseList<OrderInfo> = read_body(
        200,
        "{\"status\":0,\"data\":{\"list\":[{\"orderId\":223456789,\"rootOrderId\":223456789,\
         \"symbol\":\"BTC_JPY\",\"side\":\"BUY\",\"orderType\":\"NORMAL\",\
         \"executionType\":\"LIMIT\",\"settleType\":\"OPEN\",\"size\":\"0.02\",\
         \"executedSize\":\"0.02\",\"price\":\"1430001\",\"losscutPrice\":\"0\",\
         \"status\":\"EXECUTED\",\"timeInForce\":\"FAS\",\
         \"timestamp\":\"2020-10-14T20:18:59.343Z\"}]},\
         \"responsetime\":\"2019-03-19T02:15:06.059Z\"}",
    )
    .unwrap();
    assert_eq!(orders.data.list[0].order_id, 223456789);
    assert_eq!(orders.data.list[0].root_order_id, 223456789);
    assert_eq!(orders.data.list[0].time_in_force, "FAS");

    let executions: ResponseList<Execution> = read_body(
        200,
        "{\"status\":0,\"data\":{\"list\":[{\"executionId\":92123912,\"orderId\":223456789,\
         \"symbol\":\"BTC_JPY\",\"side\":\"BUY\",\"settleType\":\"OPEN\",\"size\":\"0.02\",\
         \"price\":\"1900000\",\"lossGain\":\"0\",\"fee\":\"223\",\
         \"timestamp\":\"2020-11-24T21:27:04.764Z\"}]},\
         \"responsetime\":\"2019-03-19T02:15:06.081Z\"}",
    )
    .unwrap();
    assert_eq!(executions.data.list[0].execution_id, 92123912);
    assert_eq!(executions.data.list[0].fee, "223");

    let positions: ResponsePage<OpenPositions> = read_body(
        200,
        "{\"status\":0,\"data\":{\"pagination\":{\"currentPage\":1,\"count\":30},\
         \"list\":[{\"positionId\":1234567,\"symbol\":\"BTC_JPY\",\"side\":\"BUY\",\
         \"size\":\"0.22\",\"orderSize\":\"0\",\"price\":\"876045\",\"lossGain\":\"14\",\
         \"leverage\":\"4\",\"losscutPrice\":\"766540\",\
         \"timestamp\":\"2019-03-19T02:15:06.094Z\"}]},\
         \"responsetime\":\"2019-03-19T02:15:06.095Z\"}",
    )
    .unwrap();
    assert_eq!(positions.data.pagination.count, 30);
    assert_eq!(positions.data.list[0].position_id, 1234567);
    assert_eq!(positions.data.list[0].leverage, "4");

    let summary: ResponseList<PositionSummary> = read_body(
        200,
        "{\"status\":0,\"data\":{\"list\":[{\"averagePositionRate\":\"715656\",\
         \"positionLossGain\":\"250675\",\"side\":\"BUY\",\"sumOrderQuantity\":\"2\",\
         \"sumPositionQuantity\":\"11.6999\",\"symbol\":\"BTC_JPY\"}]},\
         \"responsetime\":\"2019-03-19T02:15:06.102Z\"}",
    )
    .unwrap();
    assert_eq!(summary.data.list[0].sum_position_quantity, "11.6999");

    let order: Response<String> = read_body(
        200,
        "{\"status\":0,\"data\":\"637000\",\"responsetime\":\"2019-03-19T02:15:06.108Z\"}",
    )
    .unwrap();
    assert_eq!(order.data, "637000");

    let volume: Response<JsonValue> = read_body(
        200,
        "{\"status\":0,\"data\":{\"jpyVolume\":\"9988888\",\"tierLevel\":1},\
         \"responsetime\":\"2019-03-19T02:15:06.108Z\"}",
    )
    .unwrap();
    assert_eq!(volume.data.get("tierLevel"), Some(&JsonValue::Number(1)));
}
