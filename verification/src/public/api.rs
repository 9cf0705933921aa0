//! The operations of the public API and the records of their replies.
//!
//! Each operation builds the request that a transport has to send: a `GET`
//! without headers, whose address holds the query string as it is sent.

use crate::endpoint::PUBLIC_API;
use crate::json::{lemma_lookup_unique, put, JsonSpec, JsonValue};
use crate::request::{Method, Request, RequestView};
use crate::record::{decoded_at, read_at, FromJson, ToJson};
use crate::text::{decimal, push_decimal};
use crate::{Pagenation, Symbol};
use vstd::prelude::*;
use vstd::string::*;

verus! {

/// The length of the interval of a candlestick.
#[derive(Debug, Clone, Copy, PartialEq, Eq, Structural)]
pub enum KlineInterval {
    OneMin,
    FiveMin,
    TenMin,
    FifteenMin,
    ThirtyMin,
    OneHour,
    FourHour,
    EightHour,
    TwelveHour,
    OneDay,
    OneWeek,
    OneMonth,
}

impl KlineInterval {
    /// The token that stands for the interval on the wire.
    pub open spec fn token(self) -> Seq<char> {
        match self {
            KlineInterval::OneMin => "1min"@,
            KlineInterval::FiveMin => "5min"@,
            KlineInterval::TenMin => "10min"@,
            KlineInterval::FifteenMin => "15min"@,
            KlineInterval::ThirtyMin => "30min"@,
            KlineInterval::OneHour => "1hour"@,
            KlineInterval::FourHour => "4hour"@,
            KlineInterval::EightHour => "8hour"@,
            KlineInterval::TwelveHour => "12hour"@,
            KlineInterval::OneDay => "1day"@,
            KlineInterval::OneWeek => "1week"@,
            KlineInterval::OneMonth => "1month"@,
        }
    }

    /// The wire token of the interval.
    pub fn as_str(&self) -> (s: &'static str)
        ensures
            s@ == self.token(),
    {
        match self {
            KlineInterval::OneMin => "1min",
            KlineInterval::FiveMin => "5min",
            KlineInterval::TenMin => "10min",
            KlineInterval::FifteenMin => "15min",
            KlineInterval::ThirtyMin => "30min",
            KlineInterval::OneHour => "1hour",
            KlineInterval::FourHour => "4hour",
            KlineInterval::EightHour => "8hour",
            KlineInterval::TwelveHour => "12hour",
            KlineInterval::OneDay => "1day",
            KlineInterval::OneWeek => "1week",
            KlineInterval::OneMonth => "1month",
        }
    }

    /// The wire token of the interval, as an owned text.
    pub fn to_string(&self) -> (s: String)
        ensures
            s@ == self.token(),
    {
        String::from_str(self.as_str())
    }
}

/// The request of the public API for a path and a query string.
pub open spec fn public_get(path_and_query: Seq<char>) -> RequestView {
    RequestView {
        method: Method::GET,
        url: PUBLIC_API@ + path_and_query,
        query: Seq::empty(),
        headers: Seq::empty(),
        body: None,
    }
}

/// Builds the request of the public API for a path and a query string.
fn get(path_and_query: &str) -> (r: Request)
    ensures
        r.deep_view() == public_get(path_and_query@),
{
    let mut url = String::from_str(PUBLIC_API);
    url.append(path_and_query);
    let query: Vec<(String, String)> = Vec::new();
    let headers: Vec<(String, String)> = Vec::new();
    assert(query.deep_view() =~= Seq::empty());
    assert(headers.deep_view() =~= Seq::empty());
    Request { method: Method::GET, url, query, headers, body: None }
}

/// The state of the exchange: `GET /v1/status`.
pub fn status() -> (r: Request)
    ensures
        r.deep_view() == public_get("/v1/status"@),
{
    get("/v1/status")
}

/// The path and query of [`ticker`].
pub open spec fn ticker_path(symbol: Option<Symbol>) -> Seq<char> {
    match symbol {
        Some(symbol) => "/v1/ticker"@ + "?symbol="@ + symbol.token(),
        None => "/v1/ticker"@,
    }
}

/// The latest rates, of one symbol or, where none is named, of all:
/// `GET /v1/ticker`.
pub fn ticker(symbol: Option<Symbol>) -> (r: Request)
    ensures
        r.deep_view() == public_get(ticker_path(symbol)),
{
    let mut path = String::from_str("/v1/ticker");
    match symbol {
        Some(symbol) => {
            path.append("?symbol=");
            path.append(symbol.as_str());
        },
        None => {},
    }
    get(path.as_str())
}

/// The path and query of [`orderbooks`].
pub open spec fn orderbooks_path(symbol: Symbol) -> Seq<char> {
    "/v1/orderbooks"@ + "?symbol="@ + symbol.token()
}

/// The order book of a symbol: `GET /v1/orderbooks`.
pub fn orderbooks(symbol: Symbol) -> (r: Request)
    ensures
        r.deep_view() == public_get(orderbooks_path(symbol)),
{
    let mut path = String::from_str("/v1/orderbooks");
    path.append("?symbol=");
    path.append(symbol.as_str());
    get(path.as_str())
}

/// A parameter with a number for its value, where the number is given, as
/// it is appended to a query string.
pub open spec fn optional_number(name: Seq<char>, value: Option<usize>) -> Seq<char> {
    match value {
        Some(n) => "&"@ + name + "="@ + decimal(n as nat),
        None => Seq::empty(),
    }
}

/// The path and query of [`trades`]: the symbol, then the page and the
/// count where they are given. What is not given is left to the server.
pub open spec fn trades_path(symbol: Symbol, page: Option<usize>, count: Option<usize>) -> Seq<char> {
    "/v1/trades"@ + "?symbol="@ + symbol.token() + optional_number("page"@, page) + optional_number(
        "count"@,
        count,
    )
}

/// Appends a parameter with a number for its value, where the number is
/// given.
fn push_optional_number(path: &mut String, name: &str, value: Option<usize>)
    ensures
        final(path)@ == old(path)@ + optional_number(name@, value),
{
    match value {
        Some(n) => {
            path.append("&");
            path.append(name);
            path.append("=");
            push_decimal(path, n as u64);
        },
        None => {},
    }
}

/// The trade history of a symbol, by pages: `GET /v1/trades`.
pub fn trades(symbol: Symbol, page: Option<usize>, count: Option<usize>) -> (r: Request)
    ensures
        r.deep_view() == public_get(trades_path(symbol, page, count)),
{
    let mut path = String::from_str("/v1/trades");
    path.append("?symbol=");
    path.append(symbol.as_str());
    push_optional_number(&mut path, "page", page);
    push_optional_number(&mut path, "count", count);
    get(path.as_str())
}

/// The path and query of [`klines`].
pub open spec fn klines_path(symbol: Symbol, interval: KlineInterval, date: Seq<char>) -> Seq<char> {
    "/v1/klines"@ + "?symbol="@ + symbol.token() + "&interval="@ + interval.token() + "&date="@
        + date
}

/// The candlesticks of a symbol for an interval and a date, which is
/// written `YYYYMMDD`, or `YYYY` for the intervals of four hours and more:
/// `GET /v1/klines`. The date is sent as it is given.
pub fn klines(symbol: Symbol, interval: KlineInterval, date: &str) -> (r: Request)
    ensures
        r.deep_view() == public_get(klines_path(symbol, interval, date@)),
{
    let mut path = String::from_str("/v1/klines");
    path.append("?symbol=");
    path.append(symbol.as_str());
    path.append("&interval=");
    path.append(interval.as_str());
    path.append("&date=");
    path.append(date);
    get(path.as_str())
}

/// The trading rules of all symbols: `GET /v1/symbols`.
pub fn symbols() -> (r: Request)
    ensures
        r.deep_view() == public_get("/v1/symbols"@),
{
    get("/v1/symbols")
}

/// The state of the exchange: `MAINTENANCE`, `PREOPEN` or `OPEN`.
#[derive(Debug, Clone, PartialEq, Eq)]
pub struct ExchangeStatus {
    pub status: String,
}

/// The model of [`ExchangeStatus`].
pub struct ExchangeStatusView {
    pub status: Seq<char>,
}

impl DeepView for ExchangeStatus {
    type V = ExchangeStatusView;

    open spec fn deep_view(&self) -> ExchangeStatusView {
        ExchangeStatusView {
            status: self.status@,
        }
    }
}

impl FromJson for ExchangeStatus {
    open spec fn decoded(value: JsonSpec) -> Option<ExchangeStatusView> {
        if decoded_at::<String>(value, "status"@) is Some {
            Some(
                ExchangeStatusView {
                    status: decoded_at::<String>(value, "status"@)->0,
                },
            )
        } else {
            None
        }
    }

    fn from_json(value: &JsonValue) -> (r: Option<ExchangeStatus>) {
        let status = read_at::<String>(value, "status")?;
        Some(ExchangeStatus { status })
    }
}

impl ToJson for ExchangeStatus {
    open spec fn encoded(record: ExchangeStatusView) -> JsonSpec {
        JsonSpec::Object(
            seq![
                ("status"@, <String as ToJson>::encoded(record.status)),
            ],
        )
    }

    fn to_json(&self) -> (r: JsonValue) {
        let mut fields: Vec<(String, JsonValue)> = Vec::new();
        assert(fields.deep_view() =~= Seq::empty());
        put(&mut fields, "status", self.status.to_json());
        assert(fields.deep_view() =~= Self::encoded(self.deep_view())->Object_0);
        JsonValue::object(fields)
    }

    proof fn lemma_round_trip(record: ExchangeStatusView) {
        reveal_strlit("status");
        assert("status"@.len() == 6);
        let fields = Self::encoded(record)->Object_0;
        lemma_lookup_unique(fields, 0);
        <String as ToJson>::lemma_round_trip(record.status);
    }
}

/// The latest rate of one symbol.
#[derive(Debug, Clone, PartialEq, Eq)]
pub struct LatestRate {
    pub ask: String,
    pub bid: String,
    pub high: String,
    pub last: String,
    pub low: String,
    pub symbol: String,
    pub timestamp: String,
    pub volume: String,
}

/// The model of [`LatestRate`].
pub struct LatestRateView {
    pub ask: Seq<char>,
    pub bid: Seq<char>,
    pub high: Seq<char>,
    pub last: Seq<char>,
    pub low: Seq<char>,
    pub symbol: Seq<char>,
    pub timestamp: Seq<char>,
    pub volume: Seq<char>,
}

impl DeepView for LatestRate {
    type V = LatestRateView;

    open spec fn deep_view(&self) -> LatestRateView {
        LatestRateView {
            ask: self.ask@,
            bid: self.bid@,
            high: self.high@,
            last: self.last@,
            low: self.low@,
            symbol: self.symbol@,
            timestamp: self.timestamp@,
            volume: self.volume@,
        }
    }
}

impl FromJson for LatestRate {
    open spec fn decoded(value: JsonSpec) -> Option<LatestRateView> {
        if decoded_at::<String>(value, "ask"@) is Some
            && decoded_at::<String>(value, "bid"@) is Some
            && decoded_at::<String>(value, "high"@) is Some
            && decoded_at::<String>(value, "last"@) is Some
            && decoded_at::<String>(value, "low"@) is Some
            && decoded_at::<String>(value, "symbol"@) is Some
            && decoded_at::<String>(value, "timestamp"@) is Some
            && decoded_at::<String>(value, "volume"@) is Some {
            Some(
                LatestRateView {
                    ask: decoded_at::<String>(value, "ask"@)->0,
                    bid: decoded_at::<String>(value, "bid"@)->0,
                    high: decoded_at::<String>(value, "high"@)->0,
                    last: decoded_at::<String>(value, "last"@)->0,
                    low: decoded_at::<String>(value, "low"@)->0,
                    symbol: decoded_at::<String>(value, "symbol"@)->0,
                    timestamp: decoded_at::<String>(value, "timestamp"@)->0,
                    volume: decoded_at::<String>(value, "volume"@)->0,
                },
            )
        } else {
            None
        }
    }

    fn from_json(value: &JsonValue) -> (r: Option<LatestRate>) {
        let ask = read_at::<String>(value, "ask")?;
        let bid = read_at::<String>(value, "bid")?;
        let high = read_at::<String>(value, "high")?;
        let last = read_at::<String>(value, "last")?;
        let low = read_at::<String>(value, "low")?;
        let symbol = read_at::<String>(value, "symbol")?;
        let timestamp = read_at::<String>(value, "timestamp")?;
        let volume = read_at::<String>(value, "volume")?;
        Some(LatestRate { ask, bid, high, last, low, symbol, timestamp, volume })
    }
}

impl ToJson for LatestRate {
    open spec fn encoded(record: LatestRateView) -> JsonSpec {
        JsonSpec::Object(
            seq![
                ("ask"@, <String as ToJson>::encoded(record.ask)),
                ("bid"@, <String as ToJson>::encoded(record.bid)),
                ("high"@, <String as ToJson>::encoded(record.high)),
                ("last"@, <String as ToJson>::encoded(record.last)),
                ("low"@, <String as ToJson>::encoded(record.low)),
                ("symbol"@, <String as ToJson>::encoded(record.symbol)),
                ("timestamp"@, <String as ToJson>::encoded(record.timestamp)),
                ("volume"@, <String as ToJson>::encoded(record.volume)),
            ],
        )
    }

    fn to_json(&self) -> (r: JsonValue) {
        let mut fields: Vec<(String, JsonValue)> = Vec::new();
        assert(fields.deep_view() =~= Seq::empty());
        put(&mut fields, "ask", self.ask.to_json());
        put(&mut fields, "bid", self.bid.to_json());
        put(&mut fields, "high", self.high.to_json());
        put(&mut fields, "last", self.last.to_json());
        put(&mut fields, "low", self.low.to_json());
        put(&mut fields, "symbol", self.symbol.to_json());
        put(&mut fields, "timestamp", self.timestamp.to_json());
        put(&mut fields, "volume", self.volume.to_json());
        assert(fields.deep_view() =~= Self::encoded(self.deep_view())->Object_0);
        JsonValue::object(fields)
    }

    proof fn lemma_round_trip(record: LatestRateView) {
        reveal_strlit("ask");
        reveal_strlit("bid");
        reveal_strlit("high");
        reveal_strlit("last");
        reveal_strlit("low");
        reveal_strlit("symbol");
        reveal_strlit("timestamp");
        reveal_strlit("volume");
        assert("ask"@.len() == 3);
        assert("bid"@.len() == 3);
        assert("high"@.len() == 4);
        assert("last"@.len() == 4);
        assert("low"@.len() == 3);
        assert("symbol"@.len() == 6);
        assert("timestamp"@.len() == 9);
        assert("volume"@.len() == 6);
        assert("ask"@[0] != "bid"@[0]);
        assert("ask"@[0] != "low"@[0]);
        assert("bid"@[0] != "low"@[0]);
        assert("high"@[0] != "last"@[0]);
        assert("symbol"@[0] != "volume"@[0]);
        let fields = Self::encoded(record)->Object_0;
        lemma_lookup_unique(fields, 0);
        lemma_lookup_unique(fields, 1);
        lemma_lookup_unique(fields, 2);
        lemma_lookup_unique(fields, 3);
        lemma_lookup_unique(fields, 4);
        lemma_lookup_unique(fields, 5);
        lemma_lookup_unique(fields, 6);
        lemma_lookup_unique(fields, 7);
        <String as ToJson>::lemma_round_trip(record.ask);
        <String as ToJson>::lemma_round_trip(record.bid);
        <String as ToJson>::lemma_round_trip(record.high);
        <String as ToJson>::lemma_round_trip(record.last);
        <String as ToJson>::lemma_round_trip(record.low);
        <String as ToJson>::lemma_round_trip(record.symbol);
        <String as ToJson>::lemma_round_trip(record.timestamp);
        <String as ToJson>::lemma_round_trip(record.volume);
    }
}

/// One ask of an order book.
#[derive(Debug, Clone, PartialEq, Eq)]
pub struct Ask {
    pub price: String,
    pub size: String,
}

/// The model of [`Ask`].
pub struct AskView {
    pub price: Seq<char>,
    pub size: Seq<char>,
}

impl DeepView for Ask {
    type V = AskView;

    open spec fn deep_view(&self) -> AskView {
        AskView {
            price: self.price@,
            size: self.size@,
        }
    }
}

impl FromJson for Ask {
    open spec fn decoded(value: JsonSpec) -> Option<AskView> {
        if decoded_at::<String>(value, "price"@) is Some
            && decoded_at::<String>(value, "size"@) is Some {
            Some(
                AskView {
                    price: decoded_at::<String>(value, "price"@)->0,
                    size: decoded_at::<String>(value, "size"@)->0,
                },
            )
        } else {
            None
        }
    }

    fn from_json(value: &JsonValue) -> (r: Option<Ask>) {
        let price = read_at::<String>(value, "price")?;
        let size = read_at::<String>(value, "size")?;
        Some(Ask { price, size })
    }
}

impl ToJson for Ask {
    open spec fn encoded(record: AskView) -> JsonSpec {
        JsonSpec::Object(
            seq![
                ("price"@, <String as ToJson>::encoded(record.price)),
                ("size"@, <String as ToJson>::encoded(record.size)),
            ],
        )
    }

    fn to_json(&self) -> (r: JsonValue) {
        let mut fields: Vec<(String, JsonValue)> = Vec::new();
        assert(fields.deep_view() =~= Seq::empty());
        put(&mut fields, "price", self.price.to_json());
        put(&mut fields, "size", self.size.to_json());
        assert(fields.deep_view() =~= Self::encoded(self.deep_view())->Object_0);
        JsonValue::object(fields)
    }

    proof fn lemma_round_trip(record: AskView) {
        reveal_strlit("price");
        reveal_strlit("size");
        assert("price"@.len() == 5);
        assert("size"@.len() == 4);
        let fields = Self::encoded(record)->Object_0;
        lemma_lookup_unique(fields, 0);
        lemma_lookup_unique(fields, 1);
        <String as ToJson>::lemma_round_trip(record.price);
        <String as ToJson>::lemma_round_trip(record.size);
    }
}

/// One bid of an order book.
#[derive(Debug, Clone, PartialEq, Eq)]
pub struct Bid {
    pub price: String,
    pub size: String,
}

/// The model of [`Bid`].
pub struct BidView {
    pub price: Seq<char>,
    pub size: Seq<char>,
}

impl DeepView for Bid {
    type V = BidView;

    open spec fn deep_view(&self) -> BidView {
        BidView {
            price: self.price@,
            size: self.size@,
        }
    }
}

impl FromJson for Bid {
    open spec fn decoded(value: JsonSpec) -> Option<BidView> {
        if decoded_at::<String>(value, "price"@) is Some
            && decoded_at::<String>(value, "size"@) is Some {
            Some(
                BidView {
                    price: decoded_at::<String>(value, "price"@)->0,
                    size: decoded_at::<String>(value, "size"@)->0,
                },
            )
        } else {
            None
        }
    }

    fn from_json(value: &JsonValue) -> (r: Option<Bid>) {
        let price = read_at::<String>(value, "price")?;
        let size = read_at::<String>(value, "size")?;
        Some(Bid { price, size })
    }
}

impl ToJson for Bid {
    open spec fn encoded(record: BidView) -> JsonSpec {
        JsonSpec::Object(
            seq![
                ("price"@, <String as ToJson>::encoded(record.price)),
                ("size"@, <String as ToJson>::encoded(record.size)),
            ],
        )
    }

    fn to_json(&self) -> (r: JsonValue) {
        let mut fields: Vec<(String, JsonValue)> = Vec::new();
        assert(fields.deep_view() =~= Seq::empty());
        put(&mut fields, "price", self.price.to_json());
        put(&mut fields, "size", self.size.to_json());
        assert(fields.deep_view() =~= Self::encoded(self.deep_view())->Object_0);
        JsonValue::object(fields)
    }

    proof fn lemma_round_trip(record: BidView) {
        reveal_strlit("price");
        reveal_strlit("size");
        assert("price"@.len() == 5);
        assert("size"@.len() == 4);
        let fields = Self::encoded(record)->Object_0;
        lemma_lookup_unique(fields, 0);
        lemma_lookup_unique(fields, 1);
        <String as ToJson>::lemma_round_trip(record.price);
        <String as ToJson>::lemma_round_trip(record.size);
    }
}

/// The order book of one symbol.
#[derive(Debug, Clone, PartialEq, Eq)]
pub struct Snapshot {
    pub asks: Vec<Ask>,
    pub bids: Vec<Bid>,
    pub symbol: String,
}

/// The model of [`Snapshot`].
pub struct SnapshotView {
    pub asks: Seq<AskView>,
    pub bids: Seq<BidView>,
    pub symbol: Seq<char>,
}

impl DeepView for Snapshot {
    type V = SnapshotView;

    open spec fn deep_view(&self) -> SnapshotView {
        SnapshotView {
            asks: self.asks.deep_view(),
            bids: self.bids.deep_view(),
            symbol: self.symbol@,
        }
    }
}

impl FromJson for Snapshot {
    open spec fn decoded(value: JsonSpec) -> Option<SnapshotView> {
        if decoded_at::<Vec<Ask>>(value, "asks"@) is Some
            && decoded_at::<Vec<Bid>>(value, "bids"@) is Some
            && decoded_at::<String>(value, "symbol"@) is Some {
            Some(
                SnapshotView {
                    asks: decoded_at::<Vec<Ask>>(value, "asks"@)->0,
                    bids: decoded_at::<Vec<Bid>>(value, "bids"@)->0,
                    symbol: decoded_at::<String>(value, "symbol"@)->0,
                },
            )
        } else {
            None
        }
    }

    fn from_json(value: &JsonValue) -> (r: Option<Snapshot>) {
        let asks = read_at::<Vec<Ask>>(value, "asks")?;
        let bids = read_at::<Vec<Bid>>(value, "bids")?;
        let symbol = read_at::<String>(value, "symbol")?;
        Some(Snapshot { asks, bids, symbol })
    }
}

impl ToJson for Snapshot {
    open spec fn encoded(record: SnapshotView) -> JsonSpec {
        JsonSpec::Object(
            seq![
                ("asks"@, <Vec<Ask> as ToJson>::encoded(record.asks)),
                ("bids"@, <Vec<Bid> as ToJson>::encoded(record.bids)),
                ("symbol"@, <String as ToJson>::encoded(record.symbol)),
            ],
        )
    }

    fn to_json(&self) -> (r: JsonValue) {
        let mut fields: Vec<(String, JsonValue)> = Vec::new();
        assert(fields.deep_view() =~= Seq::empty());
        put(&mut fields, "asks", self.asks.to_json());
        put(&mut fields, "bids", self.bids.to_json());
        put(&mut fields, "symbol", self.symbol.to_json());
        assert(fields.deep_view() =~= Self::encoded(self.deep_view())->Object_0);
        JsonValue::object(fields)
    }

    proof fn lemma_round_trip(record: SnapshotView) {
        reveal_strlit("asks");
        reveal_strlit("bids");
        reveal_strlit("symbol");
        assert("asks"@.len() == 4);
        assert("bids"@.len() == 4);
        assert("symbol"@.len() == 6);
        assert("asks"@[0] != "bids"@[0]);
        let fields = Self::encoded(record)->Object_0;
        lemma_lookup_unique(fields, 0);
        lemma_lookup_unique(fields, 1);
        lemma_lookup_unique(fields, 2);
        <Vec<Ask> as ToJson>::lemma_round_trip(record.asks);
        <Vec<Bid> as ToJson>::lemma_round_trip(record.bids);
        <String as ToJson>::lemma_round_trip(record.symbol);
    }
}

/// One trade of the trade history.
#[derive(Debug, Clone, PartialEq, Eq)]
pub struct Trade {
    pub price: String,
    pub side: String,
    pub size: String,
    pub timestamp: String,
}

/// The model of [`Trade`].
pub struct TradeView {
    pub price: Seq<char>,
    pub side: Seq<char>,
    pub size: Seq<char>,
    pub timestamp: Seq<char>,
}

impl DeepView for Trade {
    type V = TradeView;

    open spec fn deep_view(&self) -> TradeView {
        TradeView {
            price: self.price@,
            side: self.side@,
            size: self.size@,
            timestamp: self.timestamp@,
        }
    }
}

impl FromJson for Trade {
    open spec fn decoded(value: JsonSpec) -> Option<TradeView> {
        if decoded_at::<String>(value, "price"@) is Some
            && decoded_at::<String>(value, "side"@) is Some
            && decoded_at::<String>(value, "size"@) is Some
            && decoded_at::<String>(value, "timestamp"@) is Some {
            Some(
                TradeView {
                    price: decoded_at::<String>(value, "price"@)->0,
                    side: decoded_at::<String>(value, "side"@)->0,
                    size: decoded_at::<String>(value, "size"@)->0,
                    timestamp: decoded_at::<String>(value, "timestamp"@)->0,
                },
            )
        } else {
            None
        }
    }

    fn from_json(value: &JsonValue) -> (r: Option<Trade>) {
        let price = read_at::<String>(value, "price")?;
        let side = read_at::<String>(value, "side")?;
        let size = read_at::<String>(value, "size")?;
        let timestamp = read_at::<String>(value, "timestamp")?;
        Some(Trade { price, side, size, timestamp })
    }
}

impl ToJson for Trade {
    open spec fn encoded(record: TradeView) -> JsonSpec {
        JsonSpec::Object(
            seq![
                ("price"@, <String as ToJson>::encoded(record.price)),
                ("side"@, <String as ToJson>::encoded(record.side)),
                ("size"@, <String as ToJson>::encoded(record.size)),
                ("timestamp"@, <String as ToJson>::encoded(record.timestamp)),
            ],
        )
    }

    fn to_json(&self) -> (r: JsonValue) {
        let mut fields: Vec<(String, JsonValue)> = Vec::new();
        assert(fields.deep_view() =~= Seq::empty());
        put(&mut fields, "price", self.price.to_json());
        put(&mut fields, "side", self.side.to_json());
        put(&mut fields, "size", self.size.to_json());
        put(&mut fields, "timestamp", self.timestamp.to_json());
        assert(fields.deep_view() =~= Self::encoded(self.deep_view())->Object_0);
        JsonValue::object(fields)
    }

    proof fn lemma_round_trip(record: TradeView) {
        reveal_strlit("price");
        reveal_strlit("side");
        reveal_strlit("size");
        reveal_strlit("timestamp");
        assert("price"@.len() == 5);
        assert("side"@.len() == 4);
        assert("size"@.len() == 4);
        assert("timestamp"@.len() == 9);
        assert("side"@[2] != "size"@[2]);
        let fields = Self::encoded(record)->Object_0;
        lemma_lookup_unique(fields, 0);
        lemma_lookup_unique(fields, 1);
        lemma_lookup_unique(fields, 2);
        lemma_lookup_unique(fields, 3);
        <String as ToJson>::lemma_round_trip(record.price);
        <String as ToJson>::lemma_round_trip(record.side);
        <String as ToJson>::lemma_round_trip(record.size);
        <String as ToJson>::lemma_round_trip(record.timestamp);
    }
}

/// One page of the trade history.
#[derive(Debug, Clone, PartialEq, Eq)]
pub struct TradesList {
    pub pagination: Pagenation,
    pub list: Vec<Trade>,
}

/// The model of [`TradesList`].
pub struct TradesListView {
    pub pagination: Pagenation,
    pub list: Seq<TradeView>,
}

impl DeepView for TradesList {
    type V = TradesListView;

    open spec fn deep_view(&self) -> TradesListView {
        TradesListView {
            pagination: self.pagination.deep_view(),
            list: self.list.deep_view(),
        }
    }
}

impl FromJson for TradesList {
    open spec fn decoded(value: JsonSpec) -> Option<TradesListView> {
        if decoded_at::<Pagenation>(value, "pagination"@) is Some
            && decoded_at::<Vec<Trade>>(value, "list"@) is Some {
            Some(
                TradesListView {
                    pagination: decoded_at::<Pagenation>(value, "pagination"@)->0,
                    list: decoded_at::<Vec<Trade>>(value, "list"@)->0,
                },
            )
        } else {
            None
        }
    }

    fn from_json(value: &JsonValue) -> (r: Option<TradesList>) {
        let pagination = read_at::<Pagenation>(value, "pagination")?;
        let list = read_at::<Vec<Trade>>(value, "list")?;
        Some(TradesList { pagination, list })
    }
}

impl ToJson for TradesList {
    open spec fn encoded(record: TradesListView) -> JsonSpec {
        JsonSpec::Object(
            seq![
                ("pagination"@, <Pagenation as ToJson>::encoded(record.pagination)),
                ("list"@, <Vec<Trade> as ToJson>::encoded(record.list)),
            ],
        )
    }

    fn to_json(&self) -> (r: JsonValue) {
        let mut fields: Vec<(String, JsonValue)> = Vec::new();
        assert(fields.deep_view() =~= Seq::empty());
        put(&mut fields, "pagination", self.pagination.to_json());
        put(&mut fields, "list", self.list.to_json());
        assert(fields.deep_view() =~= Self::encoded(self.deep_view())->Object_0);
        JsonValue::object(fields)
    }

    proof fn lemma_round_trip(record: TradesListView) {
        reveal_strlit("pagination");
        reveal_strlit("list");
        assert("pagination"@.len() == 10);
        assert("list"@.len() == 4);
        let fields = Self::encoded(record)->Object_0;
        lemma_lookup_unique(fields, 0);
        lemma_lookup_unique(fields, 1);
        <Pagenation as ToJson>::lemma_round_trip(record.pagination);
        <Vec<Trade> as ToJson>::lemma_round_trip(record.list);
    }
}

/// One candlestick: the opening time in milliseconds and the prices and volume of the interval, as texts.
#[derive(Debug, Clone, PartialEq, Eq)]
pub struct Kline {
    pub open_time: String,
    pub open: String,
    pub high: String,
    pub low: String,
    pub close: String,
    pub volume: String,
}

/// The model of [`Kline`].
pub struct KlineView {
    pub open_time: Seq<char>,
    pub open: Seq<char>,
    pub high: Seq<char>,
    pub low: Seq<char>,
    pub close: Seq<char>,
    pub volume: Seq<char>,
}

impl DeepView for Kline {
    type V = KlineView;

    open spec fn deep_view(&self) -> KlineView {
        KlineView {
            open_time: self.open_time@,
            open: self.open@,
            high: self.high@,
            low: self.low@,
            close: self.close@,
            volume: self.volume@,
        }
    }
}

impl FromJson for Kline {
    open spec fn decoded(value: JsonSpec) -> Option<KlineView> {
        if decoded_at::<String>(value, "openTime"@) is Some
            && decoded_at::<String>(value, "open"@) is Some
            && decoded_at::<String>(value, "high"@) is Some
            && decoded_at::<String>(value, "low"@) is Some
            && decoded_at::<String>(value, "close"@) is Some
            && decoded_at::<String>(value, "volume"@) is Some {
            Some(
                KlineView {
                    open_time: decoded_at::<String>(value, "openTime"@)->0,
                    open: decoded_at::<String>(value, "open"@)->0,
                    high: decoded_at::<String>(value, "high"@)->0,
                    low: decoded_at::<String>(value, "low"@)->0,
                    close: decoded_at::<String>(value, "close"@)->0,
                    volume: decoded_at::<String>(value, "volume"@)->0,
                },
            )
        } else {
            None
        }
    }

    fn from_json(value: &JsonValue) -> (r: Option<Kline>) {
        let open_time = read_at::<String>(value, "openTime")?;
        let open = read_at::<String>(value, "open")?;
        let high = read_at::<String>(value, "high")?;
        let low = read_at::<String>(value, "low")?;
        let close = read_at::<String>(value, "close")?;
        let volume = read_at::<String>(value, "volume")?;
        Some(Kline { open_time, open, high, low, close, volume })
    }
}

impl ToJson for Kline {
    open spec fn encoded(record: KlineView) -> JsonSpec {
        JsonSpec::Object(
            seq![
                ("openTime"@, <String as ToJson>::encoded(record.open_time)),
                ("open"@, <String as ToJson>::encoded(record.open)),
                ("high"@, <String as ToJson>::encoded(record.high)),
                ("low"@, <String as ToJson>::encoded(record.low)),
                ("close"@, <String as ToJson>::encoded(record.close)),
                ("volume"@, <String as ToJson>::encoded(record.volume)),
            ],
        )
    }

    fn to_json(&self) -> (r: JsonValue) {
        let mut fields: Vec<(String, JsonValue)> = Vec::new();
        assert(fields.deep_view() =~= Seq::empty());
        put(&mut fields, "openTime", self.open_time.to_json());
        put(&mut fields, "open", self.open.to_json());
        put(&mut fields, "high", self.high.to_json());
        put(&mut fields, "low", self.low.to_json());
        put(&mut fields, "close", self.close.to_json());
        put(&mut fields, "volume", self.volume.to_json());
        assert(fields.deep_view() =~= Self::encoded(self.deep_view())->Object_0);
        JsonValue::object(fields)
    }

    proof fn lemma_round_trip(record: KlineView) {
        reveal_strlit("openTime");
        reveal_strlit("open");
        reveal_strlit("high");
        reveal_strlit("low");
        reveal_strlit("close");
        reveal_strlit("volume");
        assert("openTime"@.len() == 8);
        assert("open"@.len() == 4);
        assert("high"@.len() == 4);
        assert("low"@.len() == 3);
        assert("close"@.len() == 5);
        assert("volume"@.len() == 6);
        assert("open"@[0] != "high"@[0]);
        let fields = Self::encoded(record)->Object_0;
        lemma_lookup_unique(fields, 0);
        lemma_lookup_unique(fields, 1);
        lemma_lookup_unique(fields, 2);
        lemma_lookup_unique(fields, 3);
        lemma_lookup_unique(fields, 4);
        lemma_lookup_unique(fields, 5);
        <String as ToJson>::lemma_round_trip(record.open_time);
        <String as ToJson>::lemma_round_trip(record.open);
        <String as ToJson>::lemma_round_trip(record.high);
        <String as ToJson>::lemma_round_trip(record.low);
        <String as ToJson>::lemma_round_trip(record.close);
        <String as ToJson>::lemma_round_trip(record.volume);
    }
}

/// The trading rules of one symbol.
#[derive(Debug, Clone, PartialEq, Eq)]
pub struct SymbolRule {
    pub symbol: String,
    pub min_order_size: String,
    pub max_order_size: String,
    pub size_step: String,
    pub tick_size: String,
    pub taker_fee: String,
    pub maker_fee: String,
}

/// The model of [`SymbolRule`].
pub struct SymbolRuleView {
    pub symbol: Seq<char>,
    pub min_order_size: Seq<char>,
    pub max_order_size: Seq<char>,
    pub size_step: Seq<char>,
    pub tick_size: Seq<char>,
    pub taker_fee: Seq<char>,
    pub maker_fee: Seq<char>,
}

impl DeepView for SymbolRule {
    type V = SymbolRuleView;

    open spec fn deep_view(&self) -> SymbolRuleView {
        SymbolRuleView {
            symbol: self.symbol@,
            min_order_size: self.min_order_size@,
            max_order_size: self.max_order_size@,
            size_step: self.size_step@,
            tick_size: self.tick_size@,
            taker_fee: self.taker_fee@,
            maker_fee: self.maker_fee@,
        }
    }
}

impl FromJson for SymbolRule {
    open spec fn decoded(value: JsonSpec) -> Option<SymbolRuleView> {
        if decoded_at::<String>(value, "symbol"@) is Some
            && decoded_at::<String>(value, "minOrderSize"@) is Some
            && decoded_at::<String>(value, "maxOrderSize"@) is Some
            && decoded_at::<String>(value, "sizeStep"@) is Some
            && decoded_at::<String>(value, "tickSize"@) is Some
            && decoded_at::<String>(value, "takerFee"@) is Some
            && decoded_at::<String>(value, "makerFee"@) is Some {
            Some(
                SymbolRuleView {
                    symbol: decoded_at::<String>(value, "symbol"@)->0,
                    min_order_size: decoded_at::<String>(value, "minOrderSize"@)->0,
                    max_order_size: decoded_at::<String>(value, "maxOrderSize"@)->0,
                    size_step: decoded_at::<String>(value, "sizeStep"@)->0,
                    tick_size: decoded_at::<String>(value, "tickSize"@)->0,
                    taker_fee: decoded_at::<String>(value, "takerFee"@)->0,
                    maker_fee: decoded_at::<String>(value, "makerFee"@)->0,
                },
            )
        } else {
            None
        }
    }

    fn from_json(value: &JsonValue) -> (r: Option<SymbolRule>) {
        let symbol = read_at::<String>(value, "symbol")?;
        let min_order_size = read_at::<String>(value, "minOrderSize")?;
        let max_order_size = read_at::<String>(value, "maxOrderSize")?;
        let size_step = read_at::<String>(value, "sizeStep")?;
        let tick_size = read_at::<String>(value, "tickSize")?;
        let taker_fee = read_at::<String>(value, "takerFee")?;
        let maker_fee = read_at::<String>(value, "makerFee")?;
        Some(SymbolRule { symbol, min_order_size, max_order_size, size_step, tick_size, taker_fee, maker_fee })
    }
}

impl ToJson for SymbolRule {
    open spec fn encoded(record: SymbolRuleView) -> JsonSpec {
        JsonSpec::Object(
            seq![
                ("symbol"@, <String as ToJson>::encoded(record.symbol)),
                ("minOrderSize"@, <String as ToJson>::encoded(record.min_order_size)),
                ("maxOrderSize"@, <String as ToJson>::encoded(record.max_order_size)),
                ("sizeStep"@, <String as ToJson>::encoded(record.size_step)),
                ("tickSize"@, <String as ToJson>::encoded(record.tick_size)),
                ("takerFee"@, <String as ToJson>::encoded(record.taker_fee)),
                ("makerFee"@, <String as ToJson>::encoded(record.maker_fee)),
            ],
        )
    }

    fn to_json(&self) -> (r: JsonValue) {
        let mut fields: Vec<(String, JsonValue)> = Vec::new();
        assert(fields.deep_view() =~= Seq::empty());
        put(&mut fields, "symbol", self.symbol.to_json());
        put(&mut fields, "minOrderSize", self.min_order_size.to_json());
        put(&mut fields, "maxOrderSize", self.max_order_size.to_json());
        put(&mut fields, "sizeStep", self.size_step.to_json());
        put(&mut fields, "tickSize", self.tick_size.to_json());
        put(&mut fields, "takerFee", self.taker_fee.to_json());
        put(&mut fields, "makerFee", self.maker_fee.to_json());
        assert(fields.deep_view() =~= Self::encoded(self.deep_view())->Object_0);
        JsonValue::object(fields)
    }

    proof fn lemma_round_trip(record: SymbolRuleView) {
        reveal_strlit("symbol");
        reveal_strlit("minOrderSize");
        reveal_strlit("maxOrderSize");
        reveal_strlit("sizeStep");
        reveal_strlit("tickSize");
        reveal_strlit("takerFee");
        reveal_strlit("makerFee");
        assert("symbol"@.len() == 6);
        assert("minOrderSize"@.len() == 12);
        assert("maxOrderSize"@.len() == 12);
        assert("sizeStep"@.len() == 8);
        assert("tickSize"@.len() == 8);
        assert("takerFee"@.len() == 8);
        assert("makerFee"@.len() == 8);
        assert("minOrderSize"@[1] != "maxOrderSize"@[1]);
        assert("sizeStep"@[0] != "tickSize"@[0]);
        assert("sizeStep"@[0] != "takerFee"@[0]);
        assert("sizeStep"@[0] != "makerFee"@[0]);
        assert("tickSize"@[1] != "takerFee"@[1]);
        assert("tickSize"@[0] != "makerFee"@[0]);
        assert("takerFee"@[0] != "makerFee"@[0]);
        let fields = Self::encoded(record)->Object_0;
        lemma_lookup_unique(fields, 0);
        lemma_lookup_unique(fields, 1);
        lemma_lookup_unique(fields, 2);
        lemma_lookup_unique(fields, 3);
        lemma_lookup_unique(fields, 4);
        lemma_lookup_unique(fields, 5);
        lemma_lookup_unique(fields, 6);
        <String as ToJson>::lemma_round_trip(record.symbol);
        <String as ToJson>::lemma_round_trip(record.min_order_size);
        <String as ToJson>::lemma_round_trip(record.max_order_size);
        <String as ToJson>::lemma_round_trip(record.size_step);
        <String as ToJson>::lemma_round_trip(record.tick_size);
        <String as ToJson>::lemma_round_trip(record.taker_fee);
        <String as ToJson>::lemma_round_trip(record.maker_fee);
    }
}

} // verus!
