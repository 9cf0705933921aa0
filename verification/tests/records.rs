use gmo_coin::error::GmoCoinError;
use gmo_coin::json::JsonValue;
use gmo_coin::private::api::{ActiveOrders, Margin, OrderInfo, SettlePosition};
use gmo_coin::public::api::{Ask, Bid, ExchangeStatus, LatestRate, Snapshot, Trade, TradesList};
use gmo_coin::record::{read_at, FromJson, ToJson};
use gmo_coin::response::{read_body, read_document, read_reply, write_record, Reply};
use gmo_coin::{DataPage, List, Pagenation, Response, ResponseList, ResponsePage};

fn status_envelope() -> Response<ExchangeStatus> {
    Response {
        status: 0,
        data: ExchangeStatus { status: String::from("OPEN") },
        responsetime: String::from("2021-01-01T00:00:00.000Z"),
    }
}

#[test]
fn envelope_round_trip() {
    let envelope = status_envelope();
    let text = write_record(&envelope);
    assert_eq!(
        text,
        "{\"data\":{\"status\":\"OPEN\"},\"responsetime\":\"2021-01-01T00:00:00.000Z\",\
         \"status\":0}"
    );
    assert_eq!(read_body::<Response<ExchangeStatus>>(200, &text), Ok(envelope));
}

#[test]
fn records_are_read_back_from_their_documents() {
    let page = ResponsePage {
        status: 0,
        data: DataPage {
            pagination: Pagenation { current_page: 3, count: 2 },
            list: vec![
                Trade {
                    price: String::from("750760"),
                    side: String::from("BUY"),
                    size: String::from("0.1"),
                    timestamp: String::from("2018-03-30T12:34:56.789Z"),
                },
                Trade {
                    price: String::from("750761"),
                    side: String::from("SELL"),
                    size: String::from("0.2"),
                    timestamp: String::from("2018-03-30T12:34:57.789Z"),
                },
            ],
        },
        responsetime: String::from("2021-01-01T00:00:00.000Z"),
    };
    assert_eq!(ResponsePage::<Trade>::from_json(&page.to_json()), Some(page.clone()));
    assert_eq!(read_body::<ResponsePage<Trade>>(200, &write_record(&page)), Ok(page));

    let list = ResponseList {
        status: 0,
        data: List { list: vec![SettlePosition { position_id: 7, size: String::from("1") }] },
        responsetime: String::from("t"),
    };
    assert_eq!(read_body::<ResponseList<SettlePosition>>(200, &write_record(&list)), Ok(list));

    let snapshot = Snapshot {
        asks: vec![Ask { price: String::from("2"), size: String::from("1") }],
        bids: vec![],
        symbol: String::from("BTC"),
    };
    assert_eq!(Snapshot::from_json(&snapshot.to_json()), Some(snapshot));

    let order = OrderInfo {
        root_order_id: 1,
        order_id: 2,
        symbol: String::from("BTC_JPY"),
        side: String::from("BUY"),
        order_type: String::from("NORMAL"),
        execution_type: String::from("LIMIT"),
        settle_type: String::from("OPEN"),
        size: String::from("0.02"),
        executed_size: String::from("0.01"),
        price: String::from("1430001"),
        losscut_price: String::from("0"),
        status: String::from("ORDERED"),
        time_in_force: String::from("FAS"),
        timestamp: String::from("2020-10-14T20:18:59.343Z"),
    };
    assert_eq!(
        write_record(&order),
        "{\"executedSize\":\"0.01\",\"executionType\":\"LIMIT\",\"losscutPrice\":\"0\",\
         \"orderId\":2,\"orderType\":\"NORMAL\",\"price\":\"1430001\",\"rootOrderId\":1,\
         \"settleType\":\"OPEN\",\"side\":\"BUY\",\"size\":\"0.02\",\"status\":\"ORDERED\",\
         \"symbol\":\"BTC_JPY\",\"timeInForce\":\"FAS\",\"timestamp\":\"2020-10-14T20:18:59.343Z\"}"
    );
    assert_eq!(OrderInfo::from_json(&order.to_json()), Some(order));
}

#[test]
fn a_status_outside_2xx_is_an_error_of_its_own() {
    let body = write_record(&status_envelope());
    for status in [0, 100, 199, 300, 301, 400, 401, 404, 429, 500, 503, u16::MAX] {
        assert_eq!(
            read_body::<Response<ExchangeStatus>>(status, &body),
            Err(GmoCoinError::HttpStatus(status))
        );
    }
    for status in [200, 201, 204, 299] {
        assert_eq!(read_body::<Response<ExchangeStatus>>(status, &body), Ok(status_envelope()));
    }
}

#[test]
fn a_body_that_is_no_json_is_a_json_error() {
    assert_eq!(read_body::<Response<ExchangeStatus>>(200, ""), Err(GmoCoinError::Json));
    assert_eq!(read_body::<Response<ExchangeStatus>>(200, "<html>"), Err(GmoCoinError::Json));
    assert_eq!(read_body::<Response<ExchangeStatus>>(200, "{\"status\":0"), Err(GmoCoinError::Json));
    assert_eq!(read_document::<Response<ExchangeStatus>>(None), Err(GmoCoinError::Json));
}

#[test]
fn a_body_of_another_shape_is_a_json_error() {
    let missing_data = "{\"status\":0,\"responsetime\":\"t\"}";
    assert_eq!(read_body::<Response<ExchangeStatus>>(200, missing_data), Err(GmoCoinError::Json));
    let missing_time = "{\"status\":0,\"data\":{\"status\":\"OPEN\"}}";
    assert_eq!(read_body::<Response<ExchangeStatus>>(200, missing_time), Err(GmoCoinError::Json));
    let text_status = "{\"status\":\"0\",\"data\":{\"status\":\"OPEN\"},\"responsetime\":\"t\"}";
    assert_eq!(read_body::<Response<ExchangeStatus>>(200, text_status), Err(GmoCoinError::Json));
    let number_field = "{\"status\":0,\"data\":{\"status\":1},\"responsetime\":\"t\"}";
    assert_eq!(read_body::<Response<ExchangeStatus>>(200, number_field), Err(GmoCoinError::Json));
    let no_object = "[0,{\"status\":\"OPEN\"},\"t\"]";
    assert_eq!(read_body::<Response<ExchangeStatus>>(200, no_object), Err(GmoCoinError::Json));
    let one_bad_item = "{\"status\":0,\"data\":[{\"price\":\"1\",\"size\":\"1\"},{\"price\":\"1\"}],\
                        \"responsetime\":\"t\"}";
    assert_eq!(read_body::<Response<Vec<Bid>>>(200, one_bad_item), Err(GmoCoinError::Json));
    let list_is_object = "{\"status\":0,\"data\":{\"list\":{}},\"responsetime\":\"t\"}";
    assert_eq!(read_body::<ResponseList<Bid>>(200, list_is_object), Err(GmoCoinError::Json));
    let page_without_pagination = "{\"status\":0,\"data\":{\"list\":[]},\"responsetime\":\"t\"}";
    assert_eq!(
        read_body::<ResponsePage<ActiveOrders>>(200, page_without_pagination),
        Err(GmoCoinError::Json)
    );
    assert_eq!(read_body::<Response<TradesList>>(200, page_without_pagination), Err(GmoCoinError::Json));
}

#[test]
fn fields_that_the_record_does_not_know_are_passed_over() {
    let body = "{\"status\":0,\"extra\":[1,2],\"data\":{\"status\":\"PREOPEN\",\"more\":null},\
                \"responsetime\":\"t\"}";
    let reply: Response<ExchangeStatus> = read_body(200, body).unwrap();
    assert_eq!(reply.data.status, "PREOPEN");
    assert_eq!(reply.responsetime, "t");
}

#[test]
fn a_nonzero_status_of_the_envelope_is_kept() {
    let body = "{\"status\":5,\"data\":{\"status\":\"MAINTENANCE\"},\"responsetime\":\"t\"}";
    let reply: Response<ExchangeStatus> = read_body(200, body).unwrap();
    assert_eq!(reply.status, 5);
}

#[test]
fn read_document_reads_a_document_of_the_right_shape() {
    let document = JsonValue::parse(
        "{\"actualProfitLoss\":\"1\",\"availableAmount\":\"2\",\"margin\":\"3\",\
         \"profitLoss\":\"4\"}",
    );
    assert_eq!(
        read_document::<Margin>(document),
        Ok(Margin {
            actual_profit_loss: String::from("1"),
            available_amount: String::from("2"),
            margin: String::from("3"),
            profit_loss: String::from("4"),
        })
    );
    assert_eq!(read_document::<Margin>(JsonValue::parse("{}")), Err(GmoCoinError::Json));
}

#[test]
fn plain_values_are_records_too() {
    assert_eq!(String::from_json(&JsonValue::String(String::from("x"))), Some(String::from("x")));
    assert_eq!(String::from_json(&JsonValue::Number(1)), None);
    assert_eq!(usize::from_json(&JsonValue::Number(9)), Some(9));
    assert_eq!(usize::from_json(&JsonValue::String(String::from("9"))), None);
    assert_eq!(String::from("x").to_json(), JsonValue::String(String::from("x")));
    assert_eq!(9usize.to_json(), JsonValue::Number(9));
    assert_eq!(
        Vec::<usize>::from_json(&JsonValue::Array(vec![JsonValue::Number(1), JsonValue::Number(2)])),
        Some(vec![1, 2])
    );
    assert_eq!(
        Vec::<usize>::from_json(&JsonValue::Array(vec![JsonValue::Number(1), JsonValue::Null])),
        None
    );
    assert_eq!(Vec::<usize>::from_json(&JsonValue::Null), None);
    assert_eq!(
        vec![String::from("a")].to_json(),
        JsonValue::Array(vec![JsonValue::String(String::from("a"))])
    );
    assert_eq!(JsonValue::from_json(&JsonValue::Bool(true)), Some(JsonValue::Bool(true)));
    let object = JsonValue::Object(vec![(String::from("n"), JsonValue::Number(3))]);
    assert_eq!(read_at::<usize>(&object, "n"), Some(3));
    assert_eq!(read_at::<String>(&object, "n"), None);
    assert_eq!(read_at::<usize>(&object, "m"), None);
    let big = JsonValue::Object(vec![(String::from("n"), JsonValue::Number(u64::MAX))]);
    assert_eq!(read_at::<usize>(&big, "n"), usize::try_from(u64::MAX).ok());
}

#[test]
fn ticker_reply_keeps_the_order_of_the_list() {
    let rate = |symbol: &str| LatestRate {
        ask: String::from("1"),
        bid: String::from("2"),
        high: String::from("3"),
        last: String::from("4"),
        low: String::from("5"),
        symbol: String::from(symbol),
        timestamp: String::from("t"),
        volume: String::from("6"),
    };
    let reply = Response {
        status: 0,
        data: vec![rate("BTC"), rate("ETH"), rate("XRP")],
        responsetime: String::from("t"),
    };
    let back: Response<Vec<LatestRate>> = read_body(200, &write_record(&reply)).unwrap();
    assert_eq!(back.data[0].symbol, "BTC");
    assert_eq!(back.data[1].symbol, "ETH");
    assert_eq!(back.data[2].symbol, "XRP");
    assert_eq!(back, reply);
}

#[test]
fn a_reply_is_read_by_what_came_of_the_request() {
    let received = Reply::Received { status: 200, body: write_record(&status_envelope()) };
    assert_eq!(read_reply::<Response<ExchangeStatus>>(&received), Ok(status_envelope()));
    let refused = Reply::Received { status: 503, body: String::from("busy") };
    assert_eq!(
        read_reply::<Response<ExchangeStatus>>(&refused),
        Err(GmoCoinError::HttpStatus(503))
    );
    let garbled = Reply::Received { status: 200, body: String::from("busy") };
    assert_eq!(read_reply::<Response<ExchangeStatus>>(&garbled), Err(GmoCoinError::Json));
    let failed = Reply::Failed(String::from("connection refused"));
    assert_eq!(
        read_reply::<Response<ExchangeStatus>>(&failed),
        Err(GmoCoinError::Transport(String::from("connection refused")))
    );
    let unreadable = Reply::Unreadable(String::from("unexpected end of file"));
    assert_eq!(
        read_reply::<Response<ExchangeStatus>>(&unreadable),
        Err(GmoCoinError::ResponseRead(String::from("unexpected end of file")))
    );
}

#[test]
fn errors_have_their_messages() {
    assert_eq!(
        GmoCoinError::EnvVar(String::from("GMO_COIN_API_KEY")).to_string(),
        "environment variable error: GMO_COIN_API_KEY"
    );
    assert_eq!(
        GmoCoinError::Transport(String::from("timeout")).to_string(),
        "http request error: timeout"
    );
    assert_eq!(GmoCoinError::HttpStatus(404).to_string(), "http status error: 404");
    assert_eq!(GmoCoinError::InvalidHeaderValue.to_string(), "invalid header value");
    assert_eq!(
        GmoCoinError::MissingRequestHeaders.to_string(),
        "request headers are not available"
    );
    assert_eq!(
        GmoCoinError::ResponseRead(String::from("eof")).to_string(),
        "response read error: eof"
    );
    assert_eq!(GmoCoinError::Json.to_string(), "json parse error");
    assert_eq!(GmoCoinError::SystemTime.to_string(), "system time error");
}
