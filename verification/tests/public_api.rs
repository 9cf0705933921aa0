use gmo_coin::public::api::{
    self, ExchangeStatus, Kline, KlineInterval, LatestRate, Snapshot, SymbolRule, TradesList,
};
use gmo_coin::request::{Method, Request};
use gmo_coin::response::read_body;
use gmo_coin::{Response, Symbol};

const TIME: &str = "2019-03-19T02:15:06.001Z";

fn envelope(data: &str) -> String {
    format!("{{\"status\":0,\"data\":{},\"responsetime\":\"{}\"}}", data, TIME)
}

fn assert_public_get(request: &Request, url: &str) {
    assert_eq!(request.method, Method::GET);
    assert_eq!(request.url, url);
    assert!(request.query.is_empty());
    assert!(request.headers.is_empty());
    assert_eq!(request.body, None);
}

#[test]
fn public_api_status_returns_known_exchange_status() {
    let request = api::status();
    assert_public_get(&request, "https://api.coin.z.com/public/v1/status");

    let body = envelope("{\"status\":\"OPEN\"}");
    let resp: Response<ExchangeStatus> = read_body(200, &body).unwrap();

    assert_eq!(resp.status, 0);
    assert!(
        matches!(
            resp.data.status.as_str(),
            "OPEN" | "PREOPEN" | "MAINTENANCE"
        ),
        "unexpected exchange status: {}",
        resp.data.status
    );
}

#[test]
fn public_api_ticker_returns_btc_when_symbol_is_btc() {
    let request = api::ticker(Some(Symbol::BTC));
    assert_public_get(&request, "https://api.coin.z.com/public/v1/ticker?symbol=BTC");

    let body = envelope(
        "[{\"ask\":\"750760\",\"bid\":\"750600\",\"high\":\"762302\",\"last\":\"756662\",\
         \"low\":\"704874\",\"symbol\":\"BTC\",\"timestamp\":\"2018-03-30T12:34:56.789Z\",\
         \"volume\":\"194785.8484\"}]",
    );
    let resp: Response<Vec<LatestRate>> = read_body(200, &body).unwrap();

    assert_eq!(resp.status, 0);
    assert!(!resp.data.is_empty(), "ticker response must not be empty");
    assert_eq!(resp.data[0].symbol, "BTC");
    assert_eq!(resp.data[0].ask, "750760");
    assert_eq!(resp.data[0].volume, "194785.8484");
}

#[test]
fn public_api_orderbooks_returns_asks_and_bids() {
    let request = api::orderbooks(Symbol::BTC);
    assert_public_get(&request, "https://api.coin.z.com/public/v1/orderbooks?symbol=BTC");

    let body = envelope(
        "{\"asks\":[{\"price\":\"455659\",\"size\":\"0.1\"}],\
         \"bids\":[{\"price\":\"455659\",\"size\":\"0.1\"},{\"price\":\"455000\",\"size\":\"2\"}],\
         \"symbol\":\"BTC\"}",
    );
    let resp: Response<Snapshot> = read_body(200, &body).unwrap();

    assert_eq!(resp.status, 0);
    assert_eq!(resp.data.symbol, "BTC");
    assert!(!resp.data.asks.is_empty(), "asks must not be empty");
    assert!(!resp.data.bids.is_empty(), "bids must not be empty");
    assert_eq!(resp.data.bids.len(), 2);
    assert_eq!(resp.data.bids[1].size, "2");
}

#[test]
fn public_api_trades_returns_non_empty_list() {
    let request = api::trades(Symbol::BTC, Some(1), Some(5));
    assert_public_get(
        &request,
        "https://api.coin.z.com/public/v1/trades?symbol=BTC&page=1&count=5",
    );

    let body = envelope(
        "{\"pagination\":{\"currentPage\":1,\"count\":5},\
         \"list\":[{\"price\":\"750760\",\"side\":\"BUY\",\"size\":\"0.1\",\
         \"timestamp\":\"2018-03-30T12:34:56.789Z\"}]}",
    );
    let resp: Response<TradesList> = read_body(200, &body).unwrap();

    assert_eq!(resp.status, 0);
    assert!(!resp.data.list.is_empty(), "trades list must not be empty");
    assert!(
        matches!(resp.data.list[0].side.as_str(), "BUY" | "SELL"),
        "unexpected trade side: {}",
        resp.data.list[0].side
    );
    assert_eq!(resp.data.pagination.current_page, 1);
    assert_eq!(resp.data.pagination.count, 5);
}

#[test]
fn public_api_symbols_contains_core_symbols() {
    let request = api::symbols();
    assert_public_get(&request, "https://api.coin.z.com/public/v1/symbols");

    let body = envelope(
        "[{\"symbol\":\"BTC\",\"minOrderSize\":\"0.0001\",\"maxOrderSize\":\"5\",\
         \"sizeStep\":\"0.0001\",\"tickSize\":\"1\",\"takerFee\":\"0.0005\",\
         \"makerFee\":\"-0.0001\"},\
         {\"symbol\":\"BTC_JPY\",\"minOrderSize\":\"0.01\",\"maxOrderSize\":\"5\",\
         \"sizeStep\":\"0.01\",\"tickSize\":\"1\",\"takerFee\":\"0\",\"makerFee\":\"0\"}]",
    );
    let resp: Response<Vec<SymbolRule>> = read_body(200, &body).unwrap();

    assert_eq!(resp.status, 0);
    assert!(!resp.data.is_empty(), "symbols must not be empty");

    let has_btc = resp.data.iter().any(|s| s.symbol == "BTC");
    let has_btc_jpy = resp.data.iter().any(|s| s.symbol == "BTC_JPY");

    assert!(has_btc, "symbols should include BTC");
    assert!(has_btc_jpy, "symbols should include BTC_JPY");
    assert_eq!(resp.data[0].maker_fee, "-0.0001");
}

#[test]
fn public_api_klines_returns_candles_for_sample_date() {
    let request = api::klines(Symbol::BTC, KlineInterval::OneMin, "20210417");
    assert_public_get(
        &request,
        "https://api.coin.z.com/public/v1/klines?symbol=BTC&interval=1min&date=20210417",
    );

    let body = envelope(
        "[{\"openTime\":\"1618588800000\",\"open\":\"6418255\",\"high\":\"6518250\",\
         \"low\":\"6318250\",\"close\":\"6418253\",\"volume\":\"0.0001\"}]",
    );
    let resp: Response<Vec<Kline>> = read_body(200, &body).unwrap();

    assert_eq!(resp.status, 0);
    assert!(!resp.data.is_empty(), "klines must not be empty");
    assert!(
        !resp.data[0].open_time.is_empty(),
        "open_time must not be empty"
    );
    assert_eq!(resp.data[0].close, "6418253");
}

#[test]
fn ticker_without_symbol_asks_for_all() {
    assert_public_get(&api::ticker(None), "https://api.coin.z.com/public/v1/ticker");
    assert_public_get(
        &api::ticker(Some(Symbol::XRP_JPY)),
        "https://api.coin.z.com/public/v1/ticker?symbol=XRP_JPY",
    );
}

#[test]
fn trades_leaves_out_what_is_not_given() {
    assert_public_get(
        &api::trades(Symbol::ETH, None, None),
        "https://api.coin.z.com/public/v1/trades?symbol=ETH",
    );
    assert_public_get(
        &api::trades(Symbol::ETH, Some(3), None),
        "https://api.coin.z.com/public/v1/trades?symbol=ETH&page=3",
    );
    assert_public_get(
        &api::trades(Symbol::ETH, None, Some(100)),
        "https://api.coin.z.com/public/v1/trades?symbol=ETH&count=100",
    );
    assert_public_get(
        &api::trades(Symbol::ETH, Some(0), Some(0)),
        "https://api.coin.z.com/public/v1/trades?symbol=ETH&page=0&count=0",
    );
}

#[test]
fn kline_intervals_render_their_tokens() {
    let all = [
        (KlineInterval::OneMin, "1min"),
        (KlineInterval::FiveMin, "5min"),
        (KlineInterval::TenMin, "10min"),
        (KlineInterval::FifteenMin, "15min"),
        (KlineInterval::ThirtyMin, "30min"),
        (KlineInterval::OneHour, "1hour"),
        (KlineInterval::FourHour, "4hour"),
        (KlineInterval::EightHour, "8hour"),
        (KlineInterval::TwelveHour, "12hour"),
        (KlineInterval::OneDay, "1day"),
        (KlineInterval::OneWeek, "1week"),
        (KlineInterval::OneMonth, "1month"),
    ];
    for (interval, token) in all {
        assert_eq!(interval.as_str(), token);
        assert_eq!(interval.to_string(), token);
    }
    assert_public_get(
        &api::klines(Symbol::BTC_JPY, KlineInterval::OneMonth, "2021"),
        "https://api.coin.z.com/public/v1/klines?symbol=BTC_JPY&interval=1month&date=2021",
    );
}
