//! The operations of the private API and the records of their replies.
//!
//! Each operation builds the signed request that a transport has to send.
//! The timestamp is read once, with [`crate::sign::timestamp`], and handed
//! in: it is signed and sent as it is.

use crate::error::GmoCoinError;
use crate::json::{
    has_key, json_text, lemma_lookup_has_key, lemma_lookup_push, lemma_lookup_unique, lookup, put,
    JsonSpec, JsonValue,
};
use crate::private::auth::{
    get_with_params, get_without_params, post_with_params, signed_request, Credentials,
};
use crate::request::{field_pairs, outcome, query_pairs_of, Method, Request};
use crate::record::{decoded_at, read_at, FromJson, ToJson};
use crate::text::decimal;
use crate::{LeverageSymbol, Symbol};
use vstd::prelude::*;

pub use crate::Side;

verus! {

/// The page that is asked for where the caller names none.
pub const DEFAULT_PAGE: usize = 1;

/// The number of items on a page that is asked for where the caller names
/// none.
pub const DEFAULT_COUNT: usize = 100;

/// How an order is executed. `LIMIT` and `STOP` orders need a price, which
/// the caller has to give: no operation checks it.
#[derive(Debug, Clone, Copy, PartialEq, Eq, Structural)]
pub enum ExecutionType {
    MARKET,
    LIMIT,
    STOP,
}

impl ExecutionType {
    /// The token that stands for the execution type on the wire.
    pub open spec fn token(self) -> Seq<char> {
        match self {
            ExecutionType::MARKET => "MARKET"@,
            ExecutionType::LIMIT => "LIMIT"@,
            ExecutionType::STOP => "STOP"@,
        }
    }

    /// The wire token of the execution type.
    pub fn as_str(&self) -> (s: &'static str)
        ensures
            s@ == self.token(),
    {
        match self {
            ExecutionType::MARKET => "MARKET",
            ExecutionType::LIMIT => "LIMIT",
            ExecutionType::STOP => "STOP",
        }
    }

    /// The wire token of the execution type, as an owned text.
    pub fn to_string(&self) -> (s: String)
        ensures
            s@ == self.token(),
    {
        String::from_str(self.as_str())
    }
}

/// What the executions are asked by: an order or one execution.
#[derive(Debug, Clone, Copy, PartialEq, Eq, Structural)]
pub enum ExecutionsParam {
    OrderId(usize),
    ExecutionId(usize),
}

impl ExecutionsParam {
    /// The name of the parameter in the query.
    pub open spec fn key(self) -> Seq<char> {
        match self {
            ExecutionsParam::OrderId(_) => "orderId"@,
            ExecutionsParam::ExecutionId(_) => "executionId"@,
        }
    }

    /// The identifier that is asked for.
    pub open spec fn id(self) -> usize {
        match self {
            ExecutionsParam::OrderId(n) => n,
            ExecutionsParam::ExecutionId(n) => n,
        }
    }

    /// The name of the parameter in the query.
    pub fn as_str(&self) -> (s: &'static str)
        ensures
            s@ == self.key(),
    {
        match self {
            ExecutionsParam::OrderId(_) => "orderId",
            ExecutionsParam::ExecutionId(_) => "executionId",
        }
    }

    /// The name of the parameter in the query, as an owned text.
    pub fn to_string(&self) -> (s: String)
        ensures
            s@ == self.key(),
    {
        String::from_str(self.as_str())
    }

    /// The identifier that is asked for.
    pub fn value(&self) -> (n: usize)
        ensures
            n == self.id(),
    {
        match self {
            ExecutionsParam::OrderId(n) => *n,
            ExecutionsParam::ExecutionId(n) => *n,
        }
    }
}

/// The margin of the account: `GET /v1/account/margin`.
pub fn margin(credentials: &Credentials, timestamp: u64) -> (r: Result<Request, GmoCoinError>)
    ensures
        outcome(r) == signed_request(
            credentials.deep_view(),
            timestamp,
            Method::GET,
            "/v1/account/margin"@,
            Seq::empty(),
            None,
        ),
{
    get_without_params(credentials, timestamp, "/v1/account/margin")
}

/// The balances of the account: `GET /v1/account/assets`.
pub fn assets(credentials: &Credentials, timestamp: u64) -> (r: Result<Request, GmoCoinError>)
    ensures
        outcome(r) == signed_request(
            credentials.deep_view(),
            timestamp,
            Method::GET,
            "/v1/account/assets"@,
            Seq::empty(),
            None,
        ),
{
    get_without_params(credentials, timestamp, "/v1/account/assets")
}

/// The trading volume of the account: `GET /v1/account/tradingVolume`.
pub fn trading_volume(credentials: &Credentials, timestamp: u64) -> (r: Result<
    Request,
    GmoCoinError,
>)
    ensures
        outcome(r) == signed_request(
            credentials.deep_view(),
            timestamp,
            Method::GET,
            "/v1/account/tradingVolume"@,
            Seq::empty(),
            None,
        ),
{
    get_without_params(credentials, timestamp, "/v1/account/tradingVolume")
}

/// The query of [`orders`]: the identifier of the order, or several of them
/// with commas between, under `orderId`.
pub open spec fn orders_query_model(order_id: Seq<char>) -> JsonSpec {
    JsonSpec::Object(seq![("orderId"@, JsonSpec::String(order_id))])
}

/// The query of [`orders`].
pub fn orders_query(order_id: &str) -> (query: JsonValue)
    ensures
        query.deep_view() == orders_query_model(order_id@),
{
    let mut fields: Vec<(String, JsonValue)> = Vec::new();
    assert(fields.deep_view() =~= Seq::empty());
    put(&mut fields, "orderId", JsonValue::text(order_id));
    JsonValue::object(fields)
}

/// The orders with the given identifiers: `GET /v1/orders`.
pub fn orders(credentials: &Credentials, timestamp: u64, order_id: &str) -> (r: Result<
    Request,
    GmoCoinError,
>)
    ensures
        outcome(r) == signed_request(
            credentials.deep_view(),
            timestamp,
            Method::GET,
            "/v1/orders"@,
            query_pairs_of(orders_query_model(order_id@)),
            None,
        ),
{
    get_with_params(credentials, timestamp, "/v1/orders", &orders_query(order_id))
}

/// The query of a listing by pages: the symbol, the page and the number of
/// items on a page, with [`DEFAULT_PAGE`] and [`DEFAULT_COUNT`] where the
/// caller names none. A number that the caller names is sent as it is, zero
/// too: whether the exchange then answers with an empty page or refuses the
/// request, its reply is read like any other.
pub open spec fn page_query_model(symbol: Symbol, page: Option<usize>, count: Option<usize>) -> JsonSpec {
    JsonSpec::Object(
        seq![
            ("symbol"@, JsonSpec::String(symbol.token())),
            (
                "page"@,
                JsonSpec::Number(
                    match page {
                        Some(p) => p as u64,
                        None => DEFAULT_PAGE as u64,
                    },
                ),
            ),
            (
                "count"@,
                JsonSpec::Number(
                    match count {
                        Some(c) => c as u64,
                        None => DEFAULT_COUNT as u64,
                    },
                ),
            ),
        ],
    )
}

/// The query of a listing by pages.
pub fn page_query(symbol: Symbol, page: Option<usize>, count: Option<usize>) -> (query: JsonValue)
    ensures
        query.deep_view() == page_query_model(symbol, page, count),
{
    let asked_page: usize = match page {
        Some(p) => p,
        None => DEFAULT_PAGE,
    };
    let asked_count: usize = match count {
        Some(c) => c,
        None => DEFAULT_COUNT,
    };
    let mut fields: Vec<(String, JsonValue)> = Vec::new();
    put(&mut fields, "symbol", JsonValue::text(symbol.as_str()));
    put(&mut fields, "page", JsonValue::number(asked_page as u64));
    put(&mut fields, "count", JsonValue::number(asked_count as u64));
    assert(fields.deep_view() =~= page_query_model(symbol, page, count)->Object_0);
    JsonValue::object(fields)
}

/// The parameters that a listing by pages sends: `symbol`, `page` and
/// `count`, each once and in this order, the numbers as decimal numerals.
pub proof fn lemma_page_query_pairs(symbol: Symbol, page: Option<usize>, count: Option<usize>)
    ensures
        query_pairs_of(page_query_model(symbol, page, count)) == seq![
            ("symbol"@, symbol.token()),
            (
                "page"@,
                decimal(
                    match page {
                        Some(p) => p as nat,
                        None => DEFAULT_PAGE as nat,
                    },
                ),
            ),
            (
                "count"@,
                decimal(
                    match count {
                        Some(c) => c as nat,
                        None => DEFAULT_COUNT as nat,
                    },
                ),
            ),
        ],
{
    reveal_with_fuel(field_pairs, 4);
}

/// The active orders of a symbol, by pages: `GET /v1/activeOrders`.
pub fn active_orders(
    credentials: &Credentials,
    timestamp: u64,
    symbol: Symbol,
    page: Option<usize>,
    count: Option<usize>,
) -> (r: Result<Request, GmoCoinError>)
    ensures
        outcome(r) == signed_request(
            credentials.deep_view(),
            timestamp,
            Method::GET,
            "/v1/activeOrders"@,
            query_pairs_of(page_query_model(symbol, page, count)),
            None,
        ),
{
    get_with_params(credentials, timestamp, "/v1/activeOrders", &page_query(symbol, page, count))
}

/// The query of [`executions`]: the identifier under the name of its kind.
pub open spec fn executions_query_model(param: ExecutionsParam) -> JsonSpec {
    JsonSpec::Object(seq![(param.key(), JsonSpec::Number(param.id() as u64))])
}

/// The query of [`executions`].
pub fn executions_query(param: ExecutionsParam) -> (query: JsonValue)
    ensures
        query.deep_view() == executions_query_model(param),
{
    let mut fields: Vec<(String, JsonValue)> = Vec::new();
    assert(fields.deep_view() =~= Seq::empty());
    put(&mut fields, param.as_str(), JsonValue::number(param.value() as u64));
    JsonValue::object(fields)
}

/// The executions of an order, or one execution: `GET /v1/executions`.
pub fn executions(credentials: &Credentials, timestamp: u64, param: ExecutionsParam) -> (r: Result<
    Request,
    GmoCoinError,
>)
    ensures
        outcome(r) == signed_request(
            credentials.deep_view(),
            timestamp,
            Method::GET,
            "/v1/executions"@,
            query_pairs_of(executions_query_model(param)),
            None,
        ),
{
    get_with_params(credentials, timestamp, "/v1/executions", &executions_query(param))
}

/// The latest executions of a symbol, by pages: `GET /v1/latestExecutions`.
pub fn latest_executions(
    credentials: &Credentials,
    timestamp: u64,
    symbol: Symbol,
    page: Option<usize>,
    count: Option<usize>,
) -> (r: Result<Request, GmoCoinError>)
    ensures
        outcome(r) == signed_request(
            credentials.deep_view(),
            timestamp,
            Method::GET,
            "/v1/latestExecutions"@,
            query_pairs_of(page_query_model(symbol, page, count)),
            None,
        ),
{
    get_with_params(
        credentials,
        timestamp,
        "/v1/latestExecutions",
        &page_query(symbol, page, count),
    )
}

/// The open positions of a symbol, by pages: `GET /v1/openPositions`.
pub fn open_positions(
    credentials: &Credentials,
    timestamp: u64,
    symbol: Symbol,
    page: Option<usize>,
    count: Option<usize>,
) -> (r: Result<Request, GmoCoinError>)
    ensures
        outcome(r) == signed_request(
            credentials.deep_view(),
            timestamp,
            Method::GET,
            "/v1/openPositions"@,
            query_pairs_of(page_query_model(symbol, page, count)),
            None,
        ),
{
    get_with_params(credentials, timestamp, "/v1/openPositions", &page_query(symbol, page, count))
}

/// The query of [`position_summary`]: the symbol.
pub open spec fn symbol_query_model(symbol: Symbol) -> JsonSpec {
    JsonSpec::Object(seq![("symbol"@, JsonSpec::String(symbol.token()))])
}

/// The query of [`position_summary`].
pub fn symbol_query(symbol: Symbol) -> (query: JsonValue)
    ensures
        query.deep_view() == symbol_query_model(symbol),
{
    let mut fields: Vec<(String, JsonValue)> = Vec::new();
    assert(fields.deep_view() =~= Seq::empty());
    put(&mut fields, "symbol", JsonValue::text(symbol.as_str()));
    JsonValue::object(fields)
}

/// The summary of the positions of a symbol: `GET /v1/positionSummary`.
pub fn position_summary(credentials: &Credentials, timestamp: u64, symbol: Symbol) -> (r: Result<
    Request,
    GmoCoinError,
>)
    ensures
        outcome(r) == signed_request(
            credentials.deep_view(),
            timestamp,
            Method::GET,
            "/v1/positionSummary"@,
            query_pairs_of(symbol_query_model(symbol)),
            None,
        ),
{
    get_with_params(credentials, timestamp, "/v1/positionSummary", &symbol_query(symbol))
}

/// The fields of an order without its price.
pub open spec fn order_fields(
    symbol: Seq<char>,
    side: Side,
    execution_type: ExecutionType,
) -> Seq<(Seq<char>, JsonSpec)> {
    seq![
        ("symbol"@, JsonSpec::String(symbol)),
        ("side"@, JsonSpec::String(side.token())),
        ("executionType"@, JsonSpec::String(execution_type.token())),
    ]
}

/// Fields with a price after them, where there is a price.
pub open spec fn with_price(
    fields: Seq<(Seq<char>, JsonSpec)>,
    price: Option<Seq<char>>,
) -> Seq<(Seq<char>, JsonSpec)> {
    match price {
        Some(p) => fields.push(("price"@, JsonSpec::String(p))),
        None => fields,
    }
}

/// Puts the symbol, the side and the execution type of an order.
fn put_order_fields(
    fields: &mut Vec<(String, JsonValue)>,
    symbol: &str,
    side: Side,
    execution_type: ExecutionType,
)
    requires
        old(fields).deep_view() == Seq::<(Seq<char>, JsonSpec)>::empty(),
    ensures
        final(fields).deep_view() == order_fields(symbol@, side, execution_type),
{
    put(fields, "symbol", JsonValue::text(symbol));
    put(fields, "side", JsonValue::text(side.as_str()));
    put(fields, "executionType", JsonValue::text(execution_type.as_str()));
}

/// Puts the price of an order, where there is one.
fn put_price(fields: &mut Vec<(String, JsonValue)>, price: &Option<String>)
    ensures
        final(fields).deep_view() == with_price(old(fields).deep_view(), price.deep_view()),
{
    match price {
        Some(p) => {
            put(fields, "price", JsonValue::text(p.as_str()));
        },
        None => {},
    }
}

/// The payload of [`order`]: the symbol, the side, the execution type and
/// the size, and the price where one is given. Without a price the payload
/// has no `price` key at all.
pub open spec fn order_payload_model(
    symbol: Symbol,
    side: Side,
    execution_type: ExecutionType,
    price: Option<Seq<char>>,
    size: Seq<char>,
) -> JsonSpec {
    JsonSpec::Object(
        with_price(
            order_fields(symbol.token(), side, execution_type).push(
                ("size"@, JsonSpec::String(size)),
            ),
            price,
        ),
    )
}

/// The payload of [`order`].
pub fn order_payload(
    symbol: Symbol,
    side: Side,
    execution_type: ExecutionType,
    price: Option<String>,
    size: String,
) -> (payload: JsonValue)
    ensures
        payload.deep_view() == order_payload_model(
            symbol,
            side,
            execution_type,
            price.deep_view(),
            size@,
        ),
{
    let mut fields: Vec<(String, JsonValue)> = Vec::new();
    assert(fields.deep_view() =~= Seq::empty());
    put_order_fields(&mut fields, symbol.as_str(), side, execution_type);
    put(&mut fields, "size", JsonValue::string(size));
    put_price(&mut fields, &price);
    JsonValue::object(fields)
}

/// A new order: `POST /v1/order`. A `LIMIT` or `STOP` order needs a price;
/// a `MARKET` order is placed without one.
pub fn order(
    credentials: &Credentials,
    timestamp: u64,
    symbol: Symbol,
    side: Side,
    execution_type: ExecutionType,
    price: Option<String>,
    size: String,
) -> (r: Result<Request, GmoCoinError>)
    ensures
        outcome(r) == signed_request(
            credentials.deep_view(),
            timestamp,
            Method::POST,
            "/v1/order"@,
            Seq::empty(),
            Some(
                json_text(
                    order_payload_model(symbol, side, execution_type, price.deep_view(), size@),
                ),
            ),
        ),
{
    let payload = order_payload(symbol, side, execution_type, price, size);
    post_with_params(credentials, timestamp, "/v1/order", &payload)
}

/// The payload of [`change_order`]: the order, its new price and, where
/// one is given, its new losscut price.
pub open spec fn change_order_payload_model(
    order_id: usize,
    price: Seq<char>,
    losscut_price: Option<Seq<char>>,
) -> JsonSpec {
    let fields = seq![
        ("orderId"@, JsonSpec::Number(order_id as u64)),
        ("price"@, JsonSpec::String(price)),
    ];
    JsonSpec::Object(
        match losscut_price {
            Some(p) => fields.push(("losscutPrice"@, JsonSpec::String(p))),
            None => fields,
        },
    )
}

/// The payload of [`change_order`].
pub fn change_order_payload(order_id: usize, price: String, losscut_price: Option<String>) -> (payload:
    JsonValue)
    ensures
        payload.deep_view() == change_order_payload_model(
            order_id,
            price@,
            losscut_price.deep_view(),
        ),
{
    let mut fields: Vec<(String, JsonValue)> = Vec::new();
    put(&mut fields, "orderId", JsonValue::number(order_id as u64));
    put(&mut fields, "price", JsonValue::string(price));
    match losscut_price {
        Some(p) => {
            put(&mut fields, "losscutPrice", JsonValue::string(p));
        },
        None => {},
    }
    assert(fields.deep_view() =~= change_order_payload_model(
        order_id,
        price@,
        losscut_price.deep_view(),
    )->Object_0);
    JsonValue::object(fields)
}

/// A change of the price of an order: `POST /v1/changeOrder`.
pub fn change_order(
    credentials: &Credentials,
    timestamp: u64,
    order_id: usize,
    price: String,
    losscut_price: Option<String>,
) -> (r: Result<Request, GmoCoinError>)
    ensures
        outcome(r) == signed_request(
            credentials.deep_view(),
            timestamp,
            Method::POST,
            "/v1/changeOrder"@,
            Seq::empty(),
            Some(
                json_text(
                    change_order_payload_model(order_id, price@, losscut_price.deep_view()),
                ),
            ),
        ),
{
    let payload = change_order_payload(order_id, price, losscut_price);
    post_with_params(credentials, timestamp, "/v1/changeOrder", &payload)
}

/// The payload of [`cancel_order`]: the order.
pub open spec fn cancel_order_payload_model(order_id: usize) -> JsonSpec {
    JsonSpec::Object(seq![("orderId"@, JsonSpec::Number(order_id as u64))])
}

/// The payload of [`cancel_order`].
pub fn cancel_order_payload(order_id: usize) -> (payload: JsonValue)
    ensures
        payload.deep_view() == cancel_order_payload_model(order_id),
{
    let mut fields: Vec<(String, JsonValue)> = Vec::new();
    assert(fields.deep_view() =~= Seq::empty());
    put(&mut fields, "orderId", JsonValue::number(order_id as u64));
    JsonValue::object(fields)
}

/// The cancellation of an order: `POST /v1/cancelOrder`.
pub fn cancel_order(credentials: &Credentials, timestamp: u64, order_id: usize) -> (r: Result<
    Request,
    GmoCoinError,
>)
    ensures
        outcome(r) == signed_request(
            credentials.deep_view(),
            timestamp,
            Method::POST,
            "/v1/cancelOrder"@,
            Seq::empty(),
            Some(json_text(cancel_order_payload_model(order_id))),
        ),
{
    post_with_params(credentials, timestamp, "/v1/cancelOrder", &cancel_order_payload(order_id))
}

/// The payload of [`cancel_orders`]: the orders, as an array of numbers in
/// the order given.
pub open spec fn cancel_orders_payload_model(order_ids: Seq<usize>) -> JsonSpec {
    JsonSpec::Object(
        seq![
            (
                "orderIds"@,
                JsonSpec::Array(
                    Seq::new(order_ids.len(), |i: int| JsonSpec::Number(order_ids[i] as u64)),
                ),
            ),
        ],
    )
}

/// The payload of [`cancel_orders`].
pub fn cancel_orders_payload(order_ids: &Vec<usize>) -> (payload: JsonValue)
    ensures
        payload.deep_view() == cancel_orders_payload_model(order_ids@),
{
    let mut items: Vec<JsonValue> = Vec::new();
    let mut i: usize = 0;
    while i < order_ids.len()
        invariant
            i <= order_ids@.len(),
            items@.len() == i,
            forall|j: int|
                0 <= j < i ==> (#[trigger] items@[j]).deep_view() == JsonSpec::Number(
                    order_ids@[j] as u64,
                ),
        decreases order_ids@.len() - i,
    {
        items.push(JsonValue::number(order_ids[i] as u64));
        i = i + 1;
    }
    assert(items.deep_view() =~= Seq::new(
        order_ids@.len(),
        |i: int| JsonSpec::Number(order_ids@[i] as u64),
    ));
    let mut fields: Vec<(String, JsonValue)> = Vec::new();
    assert(fields.deep_view() =~= Seq::empty());
    put(&mut fields, "orderIds", JsonValue::array(items));
    JsonValue::object(fields)
}

/// The cancellation of several orders: `POST /v1/cancelOrders`.
pub fn cancel_orders(credentials: &Credentials, timestamp: u64, order_ids: Vec<usize>) -> (r: Result<
    Request,
    GmoCoinError,
>)
    ensures
        outcome(r) == signed_request(
            credentials.deep_view(),
            timestamp,
            Method::POST,
            "/v1/cancelOrders"@,
            Seq::empty(),
            Some(json_text(cancel_orders_payload_model(order_ids@))),
        ),
{
    post_with_params(
        credentials,
        timestamp,
        "/v1/cancelOrders",
        &cancel_orders_payload(&order_ids),
    )
}

/// The payload of [`cancel_bulk_order`]: the tokens of the symbols, as an
/// array of strings in the order given.
pub open spec fn cancel_bulk_order_payload_model(symbols: Seq<Symbol>) -> JsonSpec {
    JsonSpec::Object(
        seq![
            (
                "symbols"@,
                JsonSpec::Array(
                    Seq::new(symbols.len(), |i: int| JsonSpec::String(symbols[i].token())),
                ),
            ),
        ],
    )
}

/// The payload of [`cancel_bulk_order`].
pub fn cancel_bulk_order_payload(symbols: &Vec<Symbol>) -> (payload: JsonValue)
    ensures
        payload.deep_view() == cancel_bulk_order_payload_model(symbols@),
{
    let mut items: Vec<JsonValue> = Vec::new();
    let mut i: usize = 0;
    while i < symbols.len()
        invariant
            i <= symbols@.len(),
            items@.len() == i,
            forall|j: int|
                0 <= j < i ==> (#[trigger] items@[j]).deep_view() == JsonSpec::String(
                    symbols@[j].token(),
                ),
        decreases symbols@.len() - i,
    {
        items.push(JsonValue::text(symbols[i].as_str()));
        i = i + 1;
    }
    assert(items.deep_view() =~= Seq::new(
        symbols@.len(),
        |i: int| JsonSpec::String(symbols@[i].token()),
    ));
    let mut fields: Vec<(String, JsonValue)> = Vec::new();
    assert(fields.deep_view() =~= Seq::empty());
    put(&mut fields, "symbols", JsonValue::array(items));
    JsonValue::object(fields)
}

/// The cancellation of all orders of some symbols:
/// `POST /v1/cancelBulkOrder`.
pub fn cancel_bulk_order(credentials: &Credentials, timestamp: u64, symbols: Vec<Symbol>) -> (r:
    Result<Request, GmoCoinError>)
    ensures
        outcome(r) == signed_request(
            credentials.deep_view(),
            timestamp,
            Method::POST,
            "/v1/cancelBulkOrder"@,
            Seq::empty(),
            Some(json_text(cancel_bulk_order_payload_model(symbols@))),
        ),
{
    post_with_params(
        credentials,
        timestamp,
        "/v1/cancelBulkOrder",
        &cancel_bulk_order_payload(&symbols),
    )
}

/// The position that a close order settles, as the payload holds it.
pub open spec fn settle_position_model(settle_position: SettlePositionView) -> JsonSpec {
    JsonSpec::Object(
        seq![
            ("positionId"@, JsonSpec::Number(settle_position.position_id as u64)),
            ("size"@, JsonSpec::String(settle_position.size)),
        ],
    )
}

/// The payload of [`close_order`]: the symbol, the side, the execution
/// type, under `settlePosition` an array of exactly one position, and the
/// price where one is given.
pub open spec fn close_order_payload_model(
    symbol: LeverageSymbol,
    side: Side,
    execution_type: ExecutionType,
    price: Option<Seq<char>>,
    settle_position: SettlePositionView,
) -> JsonSpec {
    JsonSpec::Object(
        with_price(
            order_fields(symbol.token(), side, execution_type).push(
                ("settlePosition"@, JsonSpec::Array(seq![settle_position_model(settle_position)])),
            ),
            price,
        ),
    )
}

/// The payload of [`close_order`].
pub fn close_order_payload(
    symbol: LeverageSymbol,
    side: Side,
    execution_type: ExecutionType,
    price: Option<String>,
    settle_position: SettlePosition,
) -> (payload: JsonValue)
    ensures
        payload.deep_view() == close_order_payload_model(
            symbol,
            side,
            execution_type,
            price.deep_view(),
            settle_position.deep_view(),
        ),
{
    let mut position: Vec<(String, JsonValue)> = Vec::new();
    assert(position.deep_view() =~= Seq::empty());
    put(&mut position, "positionId", JsonValue::number(settle_position.position_id as u64));
    put(&mut position, "size", JsonValue::string(settle_position.size));
    assert(position.deep_view() =~= settle_position_model(
        settle_position.deep_view(),
    )->Object_0);
    let mut positions: Vec<JsonValue> = Vec::new();
    positions.push(JsonValue::object(position));
    assert(positions.deep_view() =~= seq![settle_position_model(settle_position.deep_view())]);
    let mut fields: Vec<(String, JsonValue)> = Vec::new();
    put_order_fields(&mut fields, symbol.as_str(), side, execution_type);
    put(&mut fields, "settlePosition", JsonValue::array(positions));
    put_price(&mut fields, &price);
    JsonValue::object(fields)
}

/// An order that settles a leverage position: `POST /v1/closeOrder`.
pub fn close_order(
    credentials: &Credentials,
    timestamp: u64,
    symbol: LeverageSymbol,
    side: Side,
    execution_type: ExecutionType,
    price: Option<String>,
    settle_position: SettlePosition,
) -> (r: Result<Request, GmoCoinError>)
    ensures
        outcome(r) == signed_request(
            credentials.deep_view(),
            timestamp,
            Method::POST,
            "/v1/closeOrder"@,
            Seq::empty(),
            Some(
                json_text(
                    close_order_payload_model(
                        symbol,
                        side,
                        execution_type,
                        price.deep_view(),
                        settle_position.deep_view(),
                    ),
                ),
            ),
        ),
{
    let payload = close_order_payload(symbol, side, execution_type, price, settle_position);
    post_with_params(credentials, timestamp, "/v1/closeOrder", &payload)
}

/// The payload of [`close_bulk_order`]: the symbol, the side, the execution
/// type and the size, and the price where one is given.
pub open spec fn close_bulk_order_payload_model(
    symbol: LeverageSymbol,
    side: Side,
    execution_type: ExecutionType,
    price: Option<Seq<char>>,
    size: Seq<char>,
) -> JsonSpec {
    JsonSpec::Object(
        with_price(
            order_fields(symbol.token(), side, execution_type).push(
                ("size"@, JsonSpec::String(size)),
            ),
            price,
        ),
    )
}

/// The payload of [`close_bulk_order`].
pub fn close_bulk_order_payload(
    symbol: LeverageSymbol,
    side: Side,
    execution_type: ExecutionType,
    price: Option<String>,
    size: String,
) -> (payload: JsonValue)
    ensures
        payload.deep_view() == close_bulk_order_payload_model(
            symbol,
            side,
            execution_type,
            price.deep_view(),
            size@,
        ),
{
    let mut fields: Vec<(String, JsonValue)> = Vec::new();
    assert(fields.deep_view() =~= Seq::empty());
    put_order_fields(&mut fields, symbol.as_str(), side, execution_type);
    put(&mut fields, "size", JsonValue::string(size));
    put_price(&mut fields, &price);
    JsonValue::object(fields)
}

/// An order that settles the positions of a symbol and side in bulk:
/// `POST /v1/closeBulkOrder`.
pub fn close_bulk_order(
    credentials: &Credentials,
    timestamp: u64,
    symbol: LeverageSymbol,
    side: Side,
    execution_type: ExecutionType,
    price: Option<String>,
    size: String,
) -> (r: Result<Request, GmoCoinError>)
    ensures
        outcome(r) == signed_request(
            credentials.deep_view(),
            timestamp,
            Method::POST,
            "/v1/closeBulkOrder"@,
            Seq::empty(),
            Some(
                json_text(
                    close_bulk_order_payload_model(
                        symbol,
                        side,
                        execution_type,
                        price.deep_view(),
                        size@,
                    ),
                ),
            ),
        ),
{
    let payload = close_bulk_order_payload(symbol, side, execution_type, price, size);
    post_with_params(credentials, timestamp, "/v1/closeBulkOrder", &payload)
}

/// The payload of [`change_losscut_price`]: the position and its new
/// losscut price.
pub open spec fn change_losscut_price_payload_model(
    position_id: usize,
    losscut_price: Seq<char>,
) -> JsonSpec {
    JsonSpec::Object(
        seq![
            ("positionId"@, JsonSpec::Number(position_id as u64)),
            ("losscutPrice"@, JsonSpec::String(losscut_price)),
        ],
    )
}

/// The payload of [`change_losscut_price`].
pub fn change_losscut_price_payload(position_id: usize, losscut_price: String) -> (payload:
    JsonValue)
    ensures
        payload.deep_view() == change_losscut_price_payload_model(position_id, losscut_price@),
{
    let mut fields: Vec<(String, JsonValue)> = Vec::new();
    put(&mut fields, "positionId", JsonValue::number(position_id as u64));
    put(&mut fields, "losscutPrice", JsonValue::string(losscut_price));
    assert(fields.deep_view() =~= change_losscut_price_payload_model(
        position_id,
        losscut_price@,
    )->Object_0);
    JsonValue::object(fields)
}

/// A change of the losscut price of a position:
/// `POST /v1/changeLosscutPrice`.
pub fn change_losscut_price(
    credentials: &Credentials,
    timestamp: u64,
    position_id: usize,
    losscut_price: String,
) -> (r: Result<Request, GmoCoinError>)
    ensures
        outcome(r) == signed_request(
            credentials.deep_view(),
            timestamp,
            Method::POST,
            "/v1/changeLosscutPrice"@,
            Seq::empty(),
            Some(json_text(change_losscut_price_payload_model(position_id, losscut_price@))),
        ),
{
    let payload = change_losscut_price_payload(position_id, losscut_price);
    post_with_params(credentials, timestamp, "/v1/changeLosscutPrice", &payload)
}

/// A payload with the fields of an order has a `price` key exactly where a
/// price was given, and then that price under it.
pub proof fn lemma_price_key(
    symbol: Seq<char>,
    side: Side,
    execution_type: ExecutionType,
    last: (Seq<char>, JsonSpec),
    price: Option<Seq<char>>,
)
    requires
        last.0 == "size"@ || last.0 == "settlePosition"@,
    ensures
        has_key(with_price(order_fields(symbol, side, execution_type).push(last), price), "price"@)
            <==> price is Some,
        JsonSpec::Object(
            with_price(order_fields(symbol, side, execution_type).push(last), price),
        ).member("price"@) == match price {
            Some(p) => Some(JsonSpec::String(p)),
            None => None,
        },
{
    reveal_strlit("price");
    reveal_strlit("size");
    reveal_strlit("settlePosition");
    reveal_strlit("symbol");
    reveal_strlit("side");
    reveal_strlit("executionType");
    let fields = order_fields(symbol, side, execution_type).push(last);
    reveal_with_fuel(lookup, 6);
    assert(fields.drop_last() =~= order_fields(symbol, side, execution_type));
    assert(fields.drop_last().drop_last().drop_last().drop_last() =~= Seq::empty());
    assert("price"@.len() == 5);
    assert(lookup(fields, "price"@) is None);
    match price {
        Some(p) => {
            lemma_lookup_push(fields, "price"@, JsonSpec::String(p), "price"@);
        },
        None => {},
    }
    lemma_lookup_has_key(with_price(fields, price), "price"@);
}

/// The payload of an order has a `price` key exactly where a price was
/// given: an order without a price, such as a `MARKET` order, is sent
/// without the key.
pub proof fn lemma_order_payload_price(
    symbol: Symbol,
    side: Side,
    execution_type: ExecutionType,
    price: Option<Seq<char>>,
    size: Seq<char>,
)
    ensures
        has_key(
            order_payload_model(symbol, side, execution_type, price, size)->Object_0,
            "price"@,
        ) <==> price is Some,
        order_payload_model(symbol, side, execution_type, price, size).member("price"@)
            == match price {
            Some(p) => Some(JsonSpec::String(p)),
            None => None,
        },
{
    lemma_price_key(symbol.token(), side, execution_type, ("size"@, JsonSpec::String(size)), price);
}

/// The payload of a close order has a `price` key exactly where a price
/// was given.
pub proof fn lemma_close_order_payload_price(
    symbol: LeverageSymbol,
    side: Side,
    execution_type: ExecutionType,
    price: Option<Seq<char>>,
    settle_position: SettlePositionView,
)
    ensures
        has_key(
            close_order_payload_model(
                symbol,
                side,
                execution_type,
                price,
                settle_position,
            )->Object_0,
            "price"@,
        ) <==> price is Some,
        close_order_payload_model(symbol, side, execution_type, price, settle_position).member(
            "price"@,
        ) == match price {
            Some(p) => Some(JsonSpec::String(p)),
            None => None,
        },
{
    lemma_price_key(
        symbol.token(),
        side,
        execution_type,
        ("settlePosition"@, JsonSpec::Array(seq![settle_position_model(settle_position)])),
        price,
    );
}

/// The payload of a bulk close order has a `price` key exactly where a
/// price was given.
pub proof fn lemma_close_bulk_order_payload_price(
    symbol: LeverageSymbol,
    side: Side,
    execution_type: ExecutionType,
    price: Option<Seq<char>>,
    size: Seq<char>,
)
    ensures
        has_key(
            close_bulk_order_payload_model(symbol, side, execution_type, price, size)->Object_0,
            "price"@,
        ) <==> price is Some,
        close_bulk_order_payload_model(symbol, side, execution_type, price, size).member("price"@)
            == match price {
            Some(p) => Some(JsonSpec::String(p)),
            None => None,
        },
{
    lemma_price_key(symbol.token(), side, execution_type, ("size"@, JsonSpec::String(size)), price);
}

/// The margin of the account: amounts as decimal texts.
#[derive(Debug, Clone, PartialEq, Eq)]
pub struct Margin {
    pub actual_profit_loss: String,
    pub available_amount: String,
    pub margin: String,
    pub profit_loss: String,
}

/// The model of [`Margin`].
pub struct MarginView {
    pub actual_profit_loss: Seq<char>,
    pub available_amount: Seq<char>,
    pub margin: Seq<char>,
    pub profit_loss: Seq<char>,
}

impl DeepView for Margin {
    type V = MarginView;

    open spec fn deep_view(&self) -> MarginView {
        MarginView {
            actual_profit_loss: self.actual_profit_loss@,
            available_amount: self.available_amount@,
            margin: self.margin@,
            profit_loss: self.profit_loss@,
        }
    }
}

impl FromJson for Margin {
    open spec fn decoded(value: JsonSpec) -> Option<MarginView> {
        if decoded_at::<String>(value, "actualProfitLoss"@) is Some
            && decoded_at::<String>(value, "availableAmount"@) is Some
            && decoded_at::<String>(value, "margin"@) is Some
            && decoded_at::<String>(value, "profitLoss"@) is Some {
            Some(
                MarginView {
                    actual_profit_loss: decoded_at::<String>(value, "actualProfitLoss"@)->0,
                    available_amount: decoded_at::<String>(value, "availableAmount"@)->0,
                    margin: decoded_at::<String>(value, "margin"@)->0,
                    profit_loss: decoded_at::<String>(value, "profitLoss"@)->0,
                },
            )
        } else {
            None
        }
    }

    fn from_json(value: &JsonValue) -> (r: Option<Margin>) {
        let actual_profit_loss = read_at::<String>(value, "actualProfitLoss")?;
        let available_amount = read_at::<String>(value, "availableAmount")?;
        let margin = read_at::<String>(value, "margin")?;
        let profit_loss = read_at::<String>(value, "profitLoss")?;
        Some(Margin { actual_profit_loss, available_amount, margin, profit_loss })
    }
}

impl ToJson for Margin {
    open spec fn encoded(record: MarginView) -> JsonSpec {
        JsonSpec::Object(
            seq![
                ("actualProfitLoss"@, <String as ToJson>::encoded(record.actual_profit_loss)),
                ("availableAmount"@, <String as ToJson>::encoded(record.available_amount)),
                ("margin"@, <String as ToJson>::encoded(record.margin)),
                ("profitLoss"@, <String as ToJson>::encoded(record.profit_loss)),
            ],
        )
    }

    fn to_json(&self) -> (r: JsonValue) {
        let mut fields: Vec<(String, JsonValue)> = Vec::new();
        assert(fields.deep_view() =~= Seq::empty());
        put(&mut fields, "actualProfitLoss", self.actual_profit_loss.to_json());
        put(&mut fields, "availableAmount", self.available_amount.to_json());
        put(&mut fields, "margin", self.margin.to_json());
        put(&mut fields, "profitLoss", self.profit_loss.to_json());
        assert(fields.deep_view() =~= Self::encoded(self.deep_view())->Object_0);
        JsonValue::object(fields)
    }

    proof fn lemma_round_trip(record: MarginView) {
        reveal_strlit("actualProfitLoss");
        reveal_strlit("availableAmount");
        reveal_strlit("margin");
        reveal_strlit("profitLoss");
        assert("actualProfitLoss"@.len() == 16);
        assert("availableAmount"@.len() == 15);
        assert("margin"@.len() == 6);
        assert("profitLoss"@.len() == 10);
        let fields = Self::encoded(record)->Object_0;
        lemma_lookup_unique(fields, 0);
        lemma_lookup_unique(fields, 1);
        lemma_lookup_unique(fields, 2);
        lemma_lookup_unique(fields, 3);
        <String as ToJson>::lemma_round_trip(record.actual_profit_loss);
        <String as ToJson>::lemma_round_trip(record.available_amount);
        <String as ToJson>::lemma_round_trip(record.margin);
        <String as ToJson>::lemma_round_trip(record.profit_loss);
    }
}

/// The balance of one asset.
#[derive(Debug, Clone, PartialEq, Eq)]
pub struct Assets {
    pub amount: String,
    pub available: String,
    pub conversion_rate: String,
    pub symbol: String,
}

/// The model of [`Assets`].
pub struct AssetsView {
    pub amount: Seq<char>,
    pub available: Seq<char>,
    pub conversion_rate: Seq<char>,
    pub symbol: Seq<char>,
}

impl DeepView for Assets {
    type V = AssetsView;

    open spec fn deep_view(&self) -> AssetsView {
        AssetsView {
            amount: self.amount@,
            available: self.available@,
            conversion_rate: self.conversion_rate@,
            symbol: self.symbol@,
        }
    }
}

impl FromJson for Assets {
    open spec fn decoded(value: JsonSpec) -> Option<AssetsView> {
        if decoded_at::<String>(value, "amount"@) is Some
            && decoded_at::<String>(value, "available"@) is Some
            && decoded_at::<String>(value, "conversionRate"@) is Some
            && decoded_at::<String>(value, "symbol"@) is Some {
            Some(
                AssetsView {
                    amount: decoded_at::<String>(value, "amount"@)->0,
                    available: decoded_at::<String>(value, "available"@)->0,
                    conversion_rate: decoded_at::<String>(value, "conversionRate"@)->0,
                    symbol: decoded_at::<String>(value, "symbol"@)->0,
                },
            )
        } else {
            None
        }
    }

    fn from_json(value: &JsonValue) -> (r: Option<Assets>) {
        let amount = read_at::<String>(value, "amount")?;
        let available = read_at::<String>(value, "available")?;
        let conversion_rate = read_at::<String>(value, "conversionRate")?;
        let symbol = read_at::<String>(value, "symbol")?;
        Some(Assets { amount, available, conversion_rate, symbol })
    }
}

impl ToJson for Assets {
    open spec fn encoded(record: AssetsView) -> JsonSpec {
        JsonSpec::Object(
            seq![
                ("amount"@, <String as ToJson>::encoded(record.amount)),
                ("available"@, <String as ToJson>::encoded(record.available)),
                ("conversionRate"@, <String as ToJson>::encoded(record.conversion_rate)),
                ("symbol"@, <String as ToJson>::encoded(record.symbol)),
            ],
        )
    }

    fn to_json(&self) -> (r: JsonValue) {
        let mut fields: Vec<(String, JsonValue)> = Vec::new();
        assert(fields.deep_view() =~= Seq::empty());
        put(&mut fields, "amount", self.amount.to_json());
        put(&mut fields, "available", self.available.to_json());
        put(&mut fields, "conversionRate", self.conversion_rate.to_json());
        put(&mut fields, "symbol", self.symbol.to_json());
        assert(fields.deep_view() =~= Self::encoded(self.deep_view())->Object_0);
        JsonValue::object(fields)
    }

    proof fn lemma_round_trip(record: AssetsView) {
        reveal_strlit("amount");
        reveal_strlit("available");
        reveal_strlit("conversionRate");
        reveal_strlit("symbol");
        assert("amount"@.len() == 6);
        assert("available"@.len() == 9);
        assert("conversionRate"@.len() == 14);
        assert("symbol"@.len() == 6);
        assert("amount"@[0] != "symbol"@[0]);
        let fields = Self::encoded(record)->Object_0;
        lemma_lookup_unique(fields, 0);
        lemma_lookup_unique(fields, 1);
        lemma_lookup_unique(fields, 2);
        lemma_lookup_unique(fields, 3);
        <String as ToJson>::lemma_round_trip(record.amount);
        <String as ToJson>::lemma_round_trip(record.available);
        <String as ToJson>::lemma_round_trip(record.conversion_rate);
        <String as ToJson>::lemma_round_trip(record.symbol);
    }
}

/// One order, as the order query reports it.
#[derive(Debug, Clone, PartialEq, Eq)]
pub struct OrderInfo {
    pub root_order_id: usize,
    pub order_id: usize,
    pub symbol: String,
    pub side: String,
    pub order_type: String,
    pub execution_type: String,
    pub settle_type: String,
    pub size: String,
    pub executed_size: String,
    pub price: String,
    pub losscut_price: String,
    pub status: String,
    pub time_in_force: String,
    pub timestamp: String,
}

/// The model of [`OrderInfo`].
pub struct OrderInfoView {
    pub root_order_id: usize,
    pub order_id: usize,
    pub symbol: Seq<char>,
    pub side: Seq<char>,
    pub order_type: Seq<char>,
    pub execution_type: Seq<char>,
    pub settle_type: Seq<char>,
    pub size: Seq<char>,
    pub executed_size: Seq<char>,
    pub price: Seq<char>,
    pub losscut_price: Seq<char>,
    pub status: Seq<char>,
    pub time_in_force: Seq<char>,
    pub timestamp: Seq<char>,
}

impl DeepView for OrderInfo {
    type V = OrderInfoView;

    open spec fn deep_view(&self) -> OrderInfoView {
        OrderInfoView {
            root_order_id: self.root_order_id,
            order_id: self.order_id,
            symbol: self.symbol@,
            side: self.side@,
            order_type: self.order_type@,
            execution_type: self.execution_type@,
            settle_type: self.settle_type@,
            size: self.size@,
            executed_size: self.executed_size@,
            price: self.price@,
            losscut_price: self.losscut_price@,
            status: self.status@,
            time_in_force: self.time_in_force@,
            timestamp: self.timestamp@,
        }
    }
}

impl FromJson for OrderInfo {
    open spec fn decoded(value: JsonSpec) -> Option<OrderInfoView> {
        if decoded_at::<usize>(value, "rootOrderId"@) is Some
            && decoded_at::<usize>(value, "orderId"@) is Some
            && decoded_at::<String>(value, "symbol"@) is Some
            && decoded_at::<String>(value, "side"@) is Some
            && decoded_at::<String>(value, "orderType"@) is Some
            && decoded_at::<String>(value, "executionType"@) is Some
            && decoded_at::<String>(value, "settleType"@) is Some
            && decoded_at::<String>(value, "size"@) is Some
            && decoded_at::<String>(value, "executedSize"@) is Some
            && decoded_at::<String>(value, "price"@) is Some
            && decoded_at::<String>(value, "losscutPrice"@) is Some
            && decoded_at::<String>(value, "status"@) is Some
            && decoded_at::<String>(value, "timeInForce"@) is Some
            && decoded_at::<String>(value, "timestamp"@) is Some {
            Some(
                OrderInfoView {
                    root_order_id: decoded_at::<usize>(value, "rootOrderId"@)->0,
                    order_id: decoded_at::<usize>(value, "orderId"@)->0,
                    symbol: decoded_at::<String>(value, "symbol"@)->0,
                    side: decoded_at::<String>(value, "side"@)->0,
                    order_type: decoded_at::<String>(value, "orderType"@)->0,
                    execution_type: decoded_at::<String>(value, "executionType"@)->0,
                    settle_type: decoded_at::<String>(value, "settleType"@)->0,
                    size: decoded_at::<String>(value, "size"@)->0,
                    executed_size: decoded_at::<String>(value, "executedSize"@)->0,
                    price: decoded_at::<String>(value, "price"@)->0,
                    losscut_price: decoded_at::<String>(value, "losscutPrice"@)->0,
                    status: decoded_at::<String>(value, "status"@)->0,
                    time_in_force: decoded_at::<String>(value, "timeInForce"@)->0,
                    timestamp: decoded_at::<String>(value, "timestamp"@)->0,
                },
            )
        } else {
            None
        }
    }

    fn from_json(value: &JsonValue) -> (r: Option<OrderInfo>) {
        let root_order_id = read_at::<usize>(value, "rootOrderId")?;
        let order_id = read_at::<usize>(value, "orderId")?;
        let symbol = read_at::<String>(value, "symbol")?;
        let side = read_at::<String>(value, "side")?;
        let order_type = read_at::<String>(value, "orderType")?;
        let execution_type = read_at::<String>(value, "executionType")?;
        let settle_type = read_at::<String>(value, "settleType")?;
        let size = read_at::<String>(value, "size")?;
        let executed_size = read_at::<String>(value, "executedSize")?;
        let price = read_at::<String>(value, "price")?;
        let losscut_price = read_at::<String>(value, "losscutPrice")?;
        let status = read_at::<String>(value, "status")?;
        let time_in_force = read_at::<String>(value, "timeInForce")?;
        let timestamp = read_at::<String>(value, "timestamp")?;
        Some(OrderInfo { root_order_id, order_id, symbol, side, order_type, execution_type, settle_type, size, executed_size, price, losscut_price, status, time_in_force, timestamp })
    }
}

impl ToJson for OrderInfo {
    open spec fn encoded(record: OrderInfoView) -> JsonSpec {
        JsonSpec::Object(
            seq![
                ("rootOrderId"@, <usize as ToJson>::encoded(record.root_order_id)),
                ("orderId"@, <usize as ToJson>::encoded(record.order_id)),
                ("symbol"@, <String as ToJson>::encoded(record.symbol)),
                ("side"@, <String as ToJson>::encoded(record.side)),
                ("orderType"@, <String as ToJson>::encoded(record.order_type)),
                ("executionType"@, <String as ToJson>::encoded(record.execution_type)),
                ("settleType"@, <String as ToJson>::encoded(record.settle_type)),
                ("size"@, <String as ToJson>::encoded(record.size)),
                ("executedSize"@, <String as ToJson>::encoded(record.executed_size)),
                ("price"@, <String as ToJson>::encoded(record.price)),
                ("losscutPrice"@, <String as ToJson>::encoded(record.losscut_price)),
                ("status"@, <String as ToJson>::encoded(record.status)),
                ("timeInForce"@, <String as ToJson>::encoded(record.time_in_force)),
                ("timestamp"@, <String as ToJson>::encoded(record.timestamp)),
            ],
        )
    }

    fn to_json(&self) -> (r: JsonValue) {
        let mut fields: Vec<(String, JsonValue)> = Vec::new();
        assert(fields.deep_view() =~= Seq::empty());
        put(&mut fields, "rootOrderId", self.root_order_id.to_json());
        put(&mut fields, "orderId", self.order_id.to_json());
        put(&mut fields, "symbol", self.symbol.to_json());
        put(&mut fields, "side", self.side.to_json());
        put(&mut fields, "orderType", self.order_type.to_json());
        put(&mut fields, "executionType", self.execution_type.to_json());
        put(&mut fields, "settleType", self.settle_type.to_json());
        put(&mut fields, "size", self.size.to_json());
        put(&mut fields, "executedSize", self.executed_size.to_json());
        put(&mut fields, "price", self.price.to_json());
        put(&mut fields, "losscutPrice", self.losscut_price.to_json());
        put(&mut fields, "status", self.status.to_json());
        put(&mut fields, "timeInForce", self.time_in_force.to_json());
        put(&mut fields, "timestamp", self.timestamp.to_json());
        assert(fields.deep_view() =~= Self::encoded(self.deep_view())->Object_0);
        JsonValue::object(fields)
    }

    proof fn lemma_round_trip(record: OrderInfoView) {
        reveal_strlit("rootOrderId");
        reveal_strlit("orderId");
        reveal_strlit("symbol");
        reveal_strlit("side");
        reveal_strlit("orderType");
        reveal_strlit("executionType");
        reveal_strlit("settleType");
        reveal_strlit("size");
        reveal_strlit("executedSize");
        reveal_strlit("price");
        reveal_strlit("losscutPrice");
        reveal_strlit("status");
        reveal_strlit("timeInForce");
        reveal_strlit("timestamp");
        assert("rootOrderId"@.len() == 11);
        assert("orderId"@.len() == 7);
        assert("symbol"@.len() == 6);
        assert("side"@.len() == 4);
        assert("orderType"@.len() == 9);
        assert("executionType"@.len() == 13);
        assert("settleType"@.len() == 10);
        assert("size"@.len() == 4);
        assert("executedSize"@.len() == 12);
        assert("price"@.len() == 5);
        assert("losscutPrice"@.len() == 12);
        assert("status"@.len() == 6);
        assert("timeInForce"@.len() == 11);
        assert("timestamp"@.len() == 9);
        assert("rootOrderId"@[0] != "timeInForce"@[0]);
        assert("symbol"@[1] != "status"@[1]);
        assert("side"@[2] != "size"@[2]);
        assert("orderType"@[0] != "timestamp"@[0]);
        assert("executedSize"@[0] != "losscutPrice"@[0]);
        let fields = Self::encoded(record)->Object_0;
        lemma_lookup_unique(fields, 0);
        lemma_lookup_unique(fields, 1);
        lemma_lookup_unique(fields, 2);
        lemma_lookup_unique(fields, 3);
        lemma_lookup_unique(fields, 4);
        lemma_lookup_unique(fields, 5);
        lemma_lookup_unique(fields, 6);
        lemma_lookup_unique(fields, 7);
        lemma_lookup_unique(fields, 8);
        lemma_lookup_unique(fields, 9);
        lemma_lookup_unique(fields, 10);
        lemma_lookup_unique(fields, 11);
        lemma_lookup_unique(fields, 12);
        lemma_lookup_unique(fields, 13);
        <usize as ToJson>::lemma_round_trip(record.root_order_id);
        <usize as ToJson>::lemma_round_trip(record.order_id);
        <String as ToJson>::lemma_round_trip(record.symbol);
        <String as ToJson>::lemma_round_trip(record.side);
        <String as ToJson>::lemma_round_trip(record.order_type);
        <String as ToJson>::lemma_round_trip(record.execution_type);
        <String as ToJson>::lemma_round_trip(record.settle_type);
        <String as ToJson>::lemma_round_trip(record.size);
        <String as ToJson>::lemma_round_trip(record.executed_size);
        <String as ToJson>::lemma_round_trip(record.price);
        <String as ToJson>::lemma_round_trip(record.losscut_price);
        <String as ToJson>::lemma_round_trip(record.status);
        <String as ToJson>::lemma_round_trip(record.time_in_force);
        <String as ToJson>::lemma_round_trip(record.timestamp);
    }
}

/// One order that is still active.
#[derive(Debug, Clone, PartialEq, Eq)]
pub struct ActiveOrders {
    pub root_order_id: usize,
    pub order_id: usize,
    pub symbol: String,
    pub side: String,
    pub order_type: String,
    pub execution_type: String,
    pub settle_type: String,
    pub size: String,
    pub executed_size: String,
    pub price: String,
    pub losscut_price: String,
    pub status: String,
    pub time_in_force: String,
    pub timestamp: String,
}

/// The model of [`ActiveOrders`].
pub struct ActiveOrdersView {
    pub root_order_id: usize,
    pub order_id: usize,
    pub symbol: Seq<char>,
    pub side: Seq<char>,
    pub order_type: Seq<char>,
    pub execution_type: Seq<char>,
    pub settle_type: Seq<char>,
    pub size: Seq<char>,
    pub executed_size: Seq<char>,
    pub price: Seq<char>,
    pub losscut_price: Seq<char>,
    pub status: Seq<char>,
    pub time_in_force: Seq<char>,
    pub timestamp: Seq<char>,
}

impl DeepView for ActiveOrders {
    type V = ActiveOrdersView;

    open spec fn deep_view(&self) -> ActiveOrdersView {
        ActiveOrdersView {
            root_order_id: self.root_order_id,
            order_id: self.order_id,
            symbol: self.symbol@,
            side: self.side@,
            order_type: self.order_type@,
            execution_type: self.execution_type@,
            settle_type: self.settle_type@,
            size: self.size@,
            executed_size: self.executed_size@,
            price: self.price@,
            losscut_price: self.losscut_price@,
            status: self.status@,
            time_in_force: self.time_in_force@,
            timestamp: self.timestamp@,
        }
    }
}

impl FromJson for ActiveOrders {
    open spec fn decoded(value: JsonSpec) -> Option<ActiveOrdersView> {
        if decoded_at::<usize>(value, "rootOrderId"@) is Some
            && decoded_at::<usize>(value, "orderId"@) is Some
            && decoded_at::<String>(value, "symbol"@) is Some
            && decoded_at::<String>(value, "side"@) is Some
            && decoded_at::<String>(value, "orderType"@) is Some
            && decoded_at::<String>(value, "executionType"@) is Some
            && decoded_at::<String>(value, "settleType"@) is Some
            && decoded_at::<String>(value, "size"@) is Some
            && decoded_at::<String>(value, "executedSize"@) is Some
            && decoded_at::<String>(value, "price"@) is Some
            && decoded_at::<String>(value, "losscutPrice"@) is Some
            && decoded_at::<String>(value, "status"@) is Some
            && decoded_at::<String>(value, "timeInForce"@) is Some
            && decoded_at::<String>(value, "timestamp"@) is Some {
            Some(
                ActiveOrdersView {
                    root_order_id: decoded_at::<usize>(value, "rootOrderId"@)->0,
                    order_id: decoded_at::<usize>(value, "orderId"@)->0,
                    symbol: decoded_at::<String>(value, "symbol"@)->0,
                    side: decoded_at::<String>(value, "side"@)->0,
                    order_type: decoded_at::<String>(value, "orderType"@)->0,
                    execution_type: decoded_at::<String>(value, "executionType"@)->0,
                    settle_type: decoded_at::<String>(value, "settleType"@)->0,
                    size: decoded_at::<String>(value, "size"@)->0,
                    executed_size: decoded_at::<String>(value, "executedSize"@)->0,
                    price: decoded_at::<String>(value, "price"@)->0,
                    losscut_price: decoded_at::<String>(value, "losscutPrice"@)->0,
                    status: decoded_at::<String>(value, "status"@)->0,
                    time_in_force: decoded_at::<String>(value, "timeInForce"@)->0,
                    timestamp: decoded_at::<String>(value, "timestamp"@)->0,
                },
            )
        } else {
            None
        }
    }

    fn from_json(value: &JsonValue) -> (r: Option<ActiveOrders>) {
        let root_order_id = read_at::<usize>(value, "rootOrderId")?;
        let order_id = read_at::<usize>(value, "orderId")?;
        let symbol = read_at::<String>(value, "symbol")?;
        let side = read_at::<String>(value, "side")?;
        let order_type = read_at::<String>(value, "orderType")?;
        let execution_type = read_at::<String>(value, "executionType")?;
        let settle_type = read_at::<String>(value, "settleType")?;
        let size = read_at::<String>(value, "size")?;
        let executed_size = read_at::<String>(value, "executedSize")?;
        let price = read_at::<String>(value, "price")?;
        let losscut_price = read_at::<String>(value, "losscutPrice")?;
        let status = read_at::<String>(value, "status")?;
        let time_in_force = read_at::<String>(value, "timeInForce")?;
        let timestamp = read_at::<String>(value, "timestamp")?;
        Some(ActiveOrders { root_order_id, order_id, symbol, side, order_type, execution_type, settle_type, size, executed_size, price, losscut_price, status, time_in_force, timestamp })
    }
}

impl ToJson for ActiveOrders {
    open spec fn encoded(record: ActiveOrdersView) -> JsonSpec {
        JsonSpec::Object(
            seq![
                ("rootOrderId"@, <usize as ToJson>::encoded(record.root_order_id)),
                ("orderId"@, <usize as ToJson>::encoded(record.order_id)),
                ("symbol"@, <String as ToJson>::encoded(record.symbol)),
                ("side"@, <String as ToJson>::encoded(record.side)),
                ("orderType"@, <String as ToJson>::encoded(record.order_type)),
                ("executionType"@, <String as ToJson>::encoded(record.execution_type)),
                ("settleType"@, <String as ToJson>::encoded(record.settle_type)),
                ("size"@, <String as ToJson>::encoded(record.size)),
                ("executedSize"@, <String as ToJson>::encoded(record.executed_size)),
                ("price"@, <String as ToJson>::encoded(record.price)),
                ("losscutPrice"@, <String as ToJson>::encoded(record.losscut_price)),
                ("status"@, <String as ToJson>::encoded(record.status)),
                ("timeInForce"@, <String as ToJson>::encoded(record.time_in_force)),
                ("timestamp"@, <String as ToJson>::encoded(record.timestamp)),
            ],
        )
    }

    fn to_json(&self) -> (r: JsonValue) {
        let mut fields: Vec<(String, JsonValue)> = Vec::new();
        assert(fields.deep_view() =~= Seq::empty());
        put(&mut fields, "rootOrderId", self.root_order_id.to_json());
        put(&mut fields, "orderId", self.order_id.to_json());
        put(&mut fields, "symbol", self.symbol.to_json());
        put(&mut fields, "side", self.side.to_json());
        put(&mut fields, "orderType", self.order_type.to_json());
        put(&mut fields, "executionType", self.execution_type.to_json());
        put(&mut fields, "settleType", self.settle_type.to_json());
        put(&mut fields, "size", self.size.to_json());
        put(&mut fields, "executedSize", self.executed_size.to_json());
        put(&mut fields, "price", self.price.to_json());
        put(&mut fields, "losscutPrice", self.losscut_price.to_json());
        put(&mut fields, "status", self.status.to_json());
        put(&mut fields, "timeInForce", self.time_in_force.to_json());
        put(&mut fields, "timestamp", self.timestamp.to_json());
        assert(fields.deep_view() =~= Self::encoded(self.deep_view())->Object_0);
        JsonValue::object(fields)
    }

    proof fn lemma_round_trip(record: ActiveOrdersView) {
        reveal_strlit("rootOrderId");
        reveal_strlit("orderId");
        reveal_strlit("symbol");
        reveal_strlit("side");
        reveal_strlit("orderType");
        reveal_strlit("executionType");
        reveal_strlit("settleType");
        reveal_strlit("size");
        reveal_strlit("executedSize");
        reveal_strlit("price");
        reveal_strlit("losscutPrice");
        reveal_strlit("status");
        reveal_strlit("timeInForce");
        reveal_strlit("timestamp");
        assert("rootOrderId"@.len() == 11);
        assert("orderId"@.len() == 7);
        assert("symbol"@.len() == 6);
        assert("side"@.len() == 4);
        assert("orderType"@.len() == 9);
        assert("executionType"@.len() == 13);
        assert("settleType"@.len() == 10);
        assert("size"@.len() == 4);
        assert("executedSize"@.len() == 12);
        assert("price"@.len() == 5);
        assert("losscutPrice"@.len() == 12);
        assert("status"@.len() == 6);
        assert("timeInForce"@.len() == 11);
        assert("timestamp"@.len() == 9);
        assert("rootOrderId"@[0] != "timeInForce"@[0]);
        assert("symbol"@[1] != "status"@[1]);
        assert("side"@[2] != "size"@[2]);
        assert("orderType"@[0] != "timestamp"@[0]);
        assert("executedSize"@[0] != "losscutPrice"@[0]);
        let fields = Self::encoded(record)->Object_0;
        lemma_lookup_unique(fields, 0);
        lemma_lookup_unique(fields, 1);
        lemma_lookup_unique(fields, 2);
        lemma_lookup_unique(fields, 3);
        lemma_lookup_unique(fields, 4);
        lemma_lookup_unique(fields, 5);
        lemma_lookup_unique(fields, 6);
        lemma_lookup_unique(fields, 7);
        lemma_lookup_unique(fields, 8);
        lemma_lookup_unique(fields, 9);
        lemma_lookup_unique(fields, 10);
        lemma_lookup_unique(fields, 11);
        lemma_lookup_unique(fields, 12);
        lemma_lookup_unique(fields, 13);
        <usize as ToJson>::lemma_round_trip(record.root_order_id);
        <usize as ToJson>::lemma_round_trip(record.order_id);
        <String as ToJson>::lemma_round_trip(record.symbol);
        <String as ToJson>::lemma_round_trip(record.side);
        <String as ToJson>::lemma_round_trip(record.order_type);
        <String as ToJson>::lemma_round_trip(record.execution_type);
        <String as ToJson>::lemma_round_trip(record.settle_type);
        <String as ToJson>::lemma_round_trip(record.size);
        <String as ToJson>::lemma_round_trip(record.executed_size);
        <String as ToJson>::lemma_round_trip(record.price);
        <String as ToJson>::lemma_round_trip(record.losscut_price);
        <String as ToJson>::lemma_round_trip(record.status);
        <String as ToJson>::lemma_round_trip(record.time_in_force);
        <String as ToJson>::lemma_round_trip(record.timestamp);
    }
}

/// One execution of an order.
#[derive(Debug, Clone, PartialEq, Eq)]
pub struct Execution {
    pub execution_id: usize,
    pub order_id: usize,
    pub symbol: String,
    pub side: String,
    pub settle_type: String,
    pub size: String,
    pub price: String,
    pub loss_gain: String,
    pub fee: String,
    pub timestamp: String,
}

/// The model of [`Execution`].
pub struct ExecutionView {
    pub execution_id: usize,
    pub order_id: usize,
    pub symbol: Seq<char>,
    pub side: Seq<char>,
    pub settle_type: Seq<char>,
    pub size: Seq<char>,
    pub price: Seq<char>,
    pub loss_gain: Seq<char>,
    pub fee: Seq<char>,
    pub timestamp: Seq<char>,
}

impl DeepView for Execution {
    type V = ExecutionView;

    open spec fn deep_view(&self) -> ExecutionView {
        ExecutionView {
            execution_id: self.execution_id,
            order_id: self.order_id,
            symbol: self.symbol@,
            side: self.side@,
            settle_type: self.settle_type@,
            size: self.size@,
            price: self.price@,
            loss_gain: self.loss_gain@,
            fee: self.fee@,
            timestamp: self.timestamp@,
        }
    }
}

impl FromJson for Execution {
    open spec fn decoded(value: JsonSpec) -> Option<ExecutionView> {
        if decoded_at::<usize>(value, "executionId"@) is Some
            && decoded_at::<usize>(value, "orderId"@) is Some
            && decoded_at::<String>(value, "symbol"@) is Some
            && decoded_at::<String>(value, "side"@) is Some
            && decoded_at::<String>(value, "settleType"@) is Some
            && decoded_at::<String>(value, "size"@) is Some
            && decoded_at::<String>(value, "price"@) is Some
            && decoded_at::<String>(value, "lossGain"@) is Some
            && decoded_at::<String>(value, "fee"@) is Some
            && decoded_at::<String>(value, "timestamp"@) is Some {
            Some(
                ExecutionView {
                    execution_id: decoded_at::<usize>(value, "executionId"@)->0,
                    order_id: decoded_at::<usize>(value, "orderId"@)->0,
                    symbol: decoded_at::<String>(value, "symbol"@)->0,
                    side: decoded_at::<String>(value, "side"@)->0,
                    settle_type: decoded_at::<String>(value, "settleType"@)->0,
                    size: decoded_at::<String>(value, "size"@)->0,
                    price: decoded_at::<String>(value, "price"@)->0,
                    loss_gain: decoded_at::<String>(value, "lossGain"@)->0,
                    fee: decoded_at::<String>(value, "fee"@)->0,
                    timestamp: decoded_at::<String>(value, "timestamp"@)->0,
                },
            )
        } else {
            None
        }
    }

    fn from_json(value: &JsonValue) -> (r: Option<Execution>) {
        let execution_id = read_at::<usize>(value, "executionId")?;
        let order_id = read_at::<usize>(value, "orderId")?;
        let symbol = read_at::<String>(value, "symbol")?;
        let side = read_at::<String>(value, "side")?;
        let settle_type = read_at::<String>(value, "settleType")?;
        let size = read_at::<String>(value, "size")?;
        let price = read_at::<String>(value, "price")?;
        let loss_gain = read_at::<String>(value, "lossGain")?;
        let fee = read_at::<String>(value, "fee")?;
        let timestamp = read_at::<String>(value, "timestamp")?;
        Some(Execution { execution_id, order_id, symbol, side, settle_type, size, price, loss_gain, fee, timestamp })
    }
}

impl ToJson for Execution {
    open spec fn encoded(record: ExecutionView) -> JsonSpec {
        JsonSpec::Object(
            seq![
                ("executionId"@, <usize as ToJson>::encoded(record.execution_id)),
                ("orderId"@, <usize as ToJson>::encoded(record.order_id)),
                ("symbol"@, <String as ToJson>::encoded(record.symbol)),
                ("side"@, <String as ToJson>::encoded(record.side)),
                ("settleType"@, <String as ToJson>::encoded(record.settle_type)),
                ("size"@, <String as ToJson>::encoded(record.size)),
                ("price"@, <String as ToJson>::encoded(record.price)),
                ("lossGain"@, <String as ToJson>::encoded(record.loss_gain)),
                ("fee"@, <String as ToJson>::encoded(record.fee)),
                ("timestamp"@, <String as ToJson>::encoded(record.timestamp)),
            ],
        )
    }

    fn to_json(&self) -> (r: JsonValue) {
        let mut fields: Vec<(String, JsonValue)> = Vec::new();
        assert(fields.deep_view() =~= Seq::empty());
        put(&mut fields, "executionId", self.execution_id.to_json());
        put(&mut fields, "orderId", self.order_id.to_json());
        put(&mut fields, "symbol", self.symbol.to_json());
        put(&mut fields, "side", self.side.to_json());
        put(&mut fields, "settleType", self.settle_type.to_json());
        put(&mut fields, "size", self.size.to_json());
        put(&mut fields, "price", self.price.to_json());
        put(&mut fields, "lossGain", self.loss_gain.to_json());
        put(&mut fields, "fee", self.fee.to_json());
        put(&mut fields, "timestamp", self.timestamp.to_json());
        assert(fields.deep_view() =~= Self::encoded(self.deep_view())->Object_0);
        JsonValue::object(fields)
    }

    proof fn lemma_round_trip(record: ExecutionView) {
        reveal_strlit("executionId");
        reveal_strlit("orderId");
        reveal_strlit("symbol");
        reveal_strlit("side");
        reveal_strlit("settleType");
        reveal_strlit("size");
        reveal_strlit("price");
        reveal_strlit("lossGain");
        reveal_strlit("fee");
        reveal_strlit("timestamp");
        assert("executionId"@.len() == 11);
        assert("orderId"@.len() == 7);
        assert("symbol"@.len() == 6);
        assert("side"@.len() == 4);
        assert("settleType"@.len() == 10);
        assert("size"@.len() == 4);
        assert("price"@.len() == 5);
        assert("lossGain"@.len() == 8);
        assert("fee"@.len() == 3);
        assert("timestamp"@.len() == 9);
        assert("side"@[2] != "size"@[2]);
        let fields = Self::encoded(record)->Object_0;
        lemma_lookup_unique(fields, 0);
        lemma_lookup_unique(fields, 1);
        lemma_lookup_unique(fields, 2);
        lemma_lookup_unique(fields, 3);
        lemma_lookup_unique(fields, 4);
        lemma_lookup_unique(fields, 5);
        lemma_lookup_unique(fields, 6);
        lemma_lookup_unique(fields, 7);
        lemma_lookup_unique(fields, 8);
        lemma_lookup_unique(fields, 9);
        <usize as ToJson>::lemma_round_trip(record.execution_id);
        <usize as ToJson>::lemma_round_trip(record.order_id);
        <String as ToJson>::lemma_round_trip(record.symbol);
        <String as ToJson>::lemma_round_trip(record.side);
        <String as ToJson>::lemma_round_trip(record.settle_type);
        <String as ToJson>::lemma_round_trip(record.size);
        <String as ToJson>::lemma_round_trip(record.price);
        <String as ToJson>::lemma_round_trip(record.loss_gain);
        <String as ToJson>::lemma_round_trip(record.fee);
        <String as ToJson>::lemma_round_trip(record.timestamp);
    }
}

/// One of the latest executions of a symbol.
#[derive(Debug, Clone, PartialEq, Eq)]
pub struct LatestExecutions {
    pub execution_id: usize,
    pub order_id: usize,
    pub symbol: String,
    pub side: String,
    pub settle_type: String,
    pub size: String,
    pub price: String,
    pub loss_gain: String,
    pub fee: String,
    pub timestamp: String,
}

/// The model of [`LatestExecutions`].
pub struct LatestExecutionsView {
    pub execution_id: usize,
    pub order_id: usize,
    pub symbol: Seq<char>,
    pub side: Seq<char>,
    pub settle_type: Seq<char>,
    pub size: Seq<char>,
    pub price: Seq<char>,
    pub loss_gain: Seq<char>,
    pub fee: Seq<char>,
    pub timestamp: Seq<char>,
}

impl DeepView for LatestExecutions {
    type V = LatestExecutionsView;

    open spec fn deep_view(&self) -> LatestExecutionsView {
        LatestExecutionsView {
            execution_id: self.execution_id,
            order_id: self.order_id,
            symbol: self.symbol@,
            side: self.side@,
            settle_type: self.settle_type@,
            size: self.size@,
            price: self.price@,
            loss_gain: self.loss_gain@,
            fee: self.fee@,
            timestamp: self.timestamp@,
        }
    }
}

impl FromJson for LatestExecutions {
    open spec fn decoded(value: JsonSpec) -> Option<LatestExecutionsView> {
        if decoded_at::<usize>(value, "executionId"@) is Some
            && decoded_at::<usize>(value, "orderId"@) is Some
            && decoded_at::<String>(value, "symbol"@) is Some
            && decoded_at::<String>(value, "side"@) is Some
            && decoded_at::<String>(value, "settleType"@) is Some
            && decoded_at::<String>(value, "size"@) is Some
            && decoded_at::<String>(value, "price"@) is Some
            && decoded_at::<String>(value, "lossGain"@) is Some
            && decoded_at::<String>(value, "fee"@) is Some
            && decoded_at::<String>(value, "timestamp"@) is Some {
            Some(
                LatestExecutionsView {
                    execution_id: decoded_at::<usize>(value, "executionId"@)->0,
                    order_id: decoded_at::<usize>(value, "orderId"@)->0,
                    symbol: decoded_at::<String>(value, "symbol"@)->0,
                    side: decoded_at::<String>(value, "side"@)->0,
                    settle_type: decoded_at::<String>(value, "settleType"@)->0,
                    size: decoded_at::<String>(value, "size"@)->0,
                    price: decoded_at::<String>(value, "price"@)->0,
                    loss_gain: decoded_at::<String>(value, "lossGain"@)->0,
                    fee: decoded_at::<String>(value, "fee"@)->0,
                    timestamp: decoded_at::<String>(value, "timestamp"@)->0,
                },
            )
        } else {
            None
        }
    }

    fn from_json(value: &JsonValue) -> (r: Option<LatestExecutions>) {
        let execution_id = read_at::<usize>(value, "executionId")?;
        let order_id = read_at::<usize>(value, "orderId")?;
        let symbol = read_at::<String>(value, "symbol")?;
        let side = read_at::<String>(value, "side")?;
        let settle_type = read_at::<String>(value, "settleType")?;
        let size = read_at::<String>(value, "size")?;
        let price = read_at::<String>(value, "price")?;
        let loss_gain = read_at::<String>(value, "lossGain")?;
        let fee = read_at::<String>(value, "fee")?;
        let timestamp = read_at::<String>(value, "timestamp")?;
        Some(LatestExecutions { execution_id, order_id, symbol, side, settle_type, size, price, loss_gain, fee, timestamp })
    }
}

impl ToJson for LatestExecutions {
    open spec fn encoded(record: LatestExecutionsView) -> JsonSpec {
        JsonSpec::Object(
            seq![
                ("executionId"@, <usize as ToJson>::encoded(record.execution_id)),
                ("orderId"@, <usize as ToJson>::encoded(record.order_id)),
                ("symbol"@, <String as ToJson>::encoded(record.symbol)),
                ("side"@, <String as ToJson>::encoded(record.side)),
                ("settleType"@, <String as ToJson>::encoded(record.settle_type)),
                ("size"@, <String as ToJson>::encoded(record.size)),
                ("price"@, <String as ToJson>::encoded(record.price)),
                ("lossGain"@, <String as ToJson>::encoded(record.loss_gain)),
                ("fee"@, <String as ToJson>::encoded(record.fee)),
                ("timestamp"@, <String as ToJson>::encoded(record.timestamp)),
            ],
        )
    }

    fn to_json(&self) -> (r: JsonValue) {
        let mut fields: Vec<(String, JsonValue)> = Vec::new();
        assert(fields.deep_view() =~= Seq::empty());
        put(&mut fields, "executionId", self.execution_id.to_json());
        put(&mut fields, "orderId", self.order_id.to_json());
        put(&mut fields, "symbol", self.symbol.to_json());
        put(&mut fields, "side", self.side.to_json());
        put(&mut fields, "settleType", self.settle_type.to_json());
        put(&mut fields, "size", self.size.to_json());
        put(&mut fields, "price", self.price.to_json());
        put(&mut fields, "lossGain", self.loss_gain.to_json());
        put(&mut fields, "fee", self.fee.to_json());
        put(&mut fields, "timestamp", self.timestamp.to_json());
        assert(fields.deep_view() =~= Self::encoded(self.deep_view())->Object_0);
        JsonValue::object(fields)
    }

    proof fn lemma_round_trip(record: LatestExecutionsView) {
        reveal_strlit("executionId");
        reveal_strlit("orderId");
        reveal_strlit("symbol");
        reveal_strlit("side");
        reveal_strlit("settleType");
        reveal_strlit("size");
        reveal_strlit("price");
        reveal_strlit("lossGain");
        reveal_strlit("fee");
        reveal_strlit("timestamp");
        assert("executionId"@.len() == 11);
        assert("orderId"@.len() == 7);
        assert("symbol"@.len() == 6);
        assert("side"@.len() == 4);
        assert("settleType"@.len() == 10);
        assert("size"@.len() == 4);
        assert("price"@.len() == 5);
        assert("lossGain"@.len() == 8);
        assert("fee"@.len() == 3);
        assert("timestamp"@.len() == 9);
        assert("side"@[2] != "size"@[2]);
        let fields = Self::encoded(record)->Object_0;
        lemma_lookup_unique(fields, 0);
        lemma_lookup_unique(fields, 1);
        lemma_lookup_unique(fields, 2);
        lemma_lookup_unique(fields, 3);
        lemma_lookup_unique(fields, 4);
        lemma_lookup_unique(fields, 5);
        lemma_lookup_unique(fields, 6);
        lemma_lookup_unique(fields, 7);
        lemma_lookup_unique(fields, 8);
        lemma_lookup_unique(fields, 9);
        <usize as ToJson>::lemma_round_trip(record.execution_id);
        <usize as ToJson>::lemma_round_trip(record.order_id);
        <String as ToJson>::lemma_round_trip(record.symbol);
        <String as ToJson>::lemma_round_trip(record.side);
        <String as ToJson>::lemma_round_trip(record.settle_type);
        <String as ToJson>::lemma_round_trip(record.size);
        <String as ToJson>::lemma_round_trip(record.price);
        <String as ToJson>::lemma_round_trip(record.loss_gain);
        <String as ToJson>::lemma_round_trip(record.fee);
        <String as ToJson>::lemma_round_trip(record.timestamp);
    }
}

/// One open leverage position.
#[derive(Debug, Clone, PartialEq, Eq)]
pub struct OpenPositions {
    pub position_id: usize,
    pub symbol: String,
    pub side: String,
    pub size: String,
    pub order_size: String,
    pub price: String,
    pub loss_gain: String,
    pub leverage: String,
    pub losscut_price: String,
    pub timestamp: String,
}

/// The model of [`OpenPositions`].
pub struct OpenPositionsView {
    pub position_id: usize,
    pub symbol: Seq<char>,
    pub side: Seq<char>,
    pub size: Seq<char>,
    pub order_size: Seq<char>,
    pub price: Seq<char>,
    pub loss_gain: Seq<char>,
    pub leverage: Seq<char>,
    pub losscut_price: Seq<char>,
    pub timestamp: Seq<char>,
}

impl DeepView for OpenPositions {
    type V = OpenPositionsView;

    open spec fn deep_view(&self) -> OpenPositionsView {
        OpenPositionsView {
            position_id: self.position_id,
            symbol: self.symbol@,
            side: self.side@,
            size: self.size@,
            order_size: self.order_size@,
            price: self.price@,
            loss_gain: self.loss_gain@,
            leverage: self.leverage@,
            losscut_price: self.losscut_price@,
            timestamp: self.timestamp@,
        }
    }
}

impl FromJson for OpenPositions {
    open spec fn decoded(value: JsonSpec) -> Option<OpenPositionsView> {
        if decoded_at::<usize>(value, "positionId"@) is Some
            && decoded_at::<String>(value, "symbol"@) is Some
            && decoded_at::<String>(value, "side"@) is Some
            && decoded_at::<String>(value, "size"@) is Some
            && decoded_at::<String>(value, "orderSize"@) is Some
            && decoded_at::<String>(value, "price"@) is Some
            && decoded_at::<String>(value, "lossGain"@) is Some
            && decoded_at::<String>(value, "leverage"@) is Some
            && decoded_at::<String>(value, "losscutPrice"@) is Some
            && decoded_at::<String>(value, "timestamp"@) is Some {
            Some(
                OpenPositionsView {
                    position_id: decoded_at::<usize>(value, "positionId"@)->0,
                    symbol: decoded_at::<String>(value, "symbol"@)->0,
                    side: decoded_at::<String>(value, "side"@)->0,
                    size: decoded_at::<String>(value, "size"@)->0,
                    order_size: decoded_at::<String>(value, "orderSize"@)->0,
                    price: decoded_at::<String>(value, "price"@)->0,
                    loss_gain: decoded_at::<String>(value, "lossGain"@)->0,
                    leverage: decoded_at::<String>(value, "leverage"@)->0,
                    losscut_price: decoded_at::<String>(value, "losscutPrice"@)->0,
                    timestamp: decoded_at::<String>(value, "timestamp"@)->0,
                },
            )
        } else {
            None
        }
    }

    fn from_json(value: &JsonValue) -> (r: Option<OpenPositions>) {
        let position_id = read_at::<usize>(value, "positionId")?;
        let symbol = read_at::<String>(value, "symbol")?;
        let side = read_at::<String>(value, "side")?;
        let size = read_at::<String>(value, "size")?;
        let order_size = read_at::<String>(value, "orderSize")?;
        let price = read_at::<String>(value, "price")?;
        let loss_gain = read_at::<String>(value, "lossGain")?;
        let leverage = read_at::<String>(value, "leverage")?;
        let losscut_price = read_at::<String>(value, "losscutPrice")?;
        let timestamp = read_at::<String>(value, "timestamp")?;
        Some(OpenPositions { position_id, symbol, side, size, order_size, price, loss_gain, leverage, losscut_price, timestamp })
    }
}

impl ToJson for OpenPositions {
    open spec fn encoded(record: OpenPositionsView) -> JsonSpec {
        JsonSpec::Object(
            seq![
                ("positionId"@, <usize as ToJson>::encoded(record.position_id)),
                ("symbol"@, <String as ToJson>::encoded(record.symbol)),
                ("side"@, <String as ToJson>::encoded(record.side)),
                ("size"@, <String as ToJson>::encoded(record.size)),
                ("orderSize"@, <String as ToJson>::encoded(record.order_size)),
                ("price"@, <String as ToJson>::encoded(record.price)),
                ("lossGain"@, <String as ToJson>::encoded(record.loss_gain)),
                ("leverage"@, <String as ToJson>::encoded(record.leverage)),
                ("losscutPrice"@, <String as ToJson>::encoded(record.losscut_price)),
                ("timestamp"@, <String as ToJson>::encoded(record.timestamp)),
            ],
        )
    }

    fn to_json(&self) -> (r: JsonValue) {
        let mut fields: Vec<(String, JsonValue)> = Vec::new();
        assert(fields.deep_view() =~= Seq::empty());
        put(&mut fields, "positionId", self.position_id.to_json());
        put(&mut fields, "symbol", self.symbol.to_json());
        put(&mut fields, "side", self.side.to_json());
        put(&mut fields, "size", self.size.to_json());
        put(&mut fields, "orderSize", self.order_size.to_json());
        put(&mut fields, "price", self.price.to_json());
        put(&mut fields, "lossGain", self.loss_gain.to_json());
        put(&mut fields, "leverage", self.leverage.to_json());
        put(&mut fields, "losscutPrice", self.losscut_price.to_json());
        put(&mut fields, "timestamp", self.timestamp.to_json());
        assert(fields.deep_view() =~= Self::encoded(self.deep_view())->Object_0);
        JsonValue::object(fields)
    }

    proof fn lemma_round_trip(record: OpenPositionsView) {
        reveal_strlit("positionId");
        reveal_strlit("symbol");
        reveal_strlit("side");
        reveal_strlit("size");
        reveal_strlit("orderSize");
        reveal_strlit("price");
        reveal_strlit("lossGain");
        reveal_strlit("leverage");
        reveal_strlit("losscutPrice");
        reveal_strlit("timestamp");
        assert("positionId"@.len() == 10);
        assert("symbol"@.len() == 6);
        assert("side"@.len() == 4);
        assert("size"@.len() == 4);
        assert("orderSize"@.len() == 9);
        assert("price"@.len() == 5);
        assert("lossGain"@.len() == 8);
        assert("leverage"@.len() == 8);
        assert("losscutPrice"@.len() == 12);
        assert("timestamp"@.len() == 9);
        assert("side"@[2] != "size"@[2]);
        assert("orderSize"@[0] != "timestamp"@[0]);
        assert("lossGain"@[1] != "leverage"@[1]);
        let fields = Self::encoded(record)->Object_0;
        lemma_lookup_unique(fields, 0);
        lemma_lookup_unique(fields, 1);
        lemma_lookup_unique(fields, 2);
        lemma_lookup_unique(fields, 3);
        lemma_lookup_unique(fields, 4);
        lemma_lookup_unique(fields, 5);
        lemma_lookup_unique(fields, 6);
        lemma_lookup_unique(fields, 7);
        lemma_lookup_unique(fields, 8);
        lemma_lookup_unique(fields, 9);
        <usize as ToJson>::lemma_round_trip(record.position_id);
        <String as ToJson>::lemma_round_trip(record.symbol);
        <String as ToJson>::lemma_round_trip(record.side);
        <String as ToJson>::lemma_round_trip(record.size);
        <String as ToJson>::lemma_round_trip(record.order_size);
        <String as ToJson>::lemma_round_trip(record.price);
        <String as ToJson>::lemma_round_trip(record.loss_gain);
        <String as ToJson>::lemma_round_trip(record.leverage);
        <String as ToJson>::lemma_round_trip(record.losscut_price);
        <String as ToJson>::lemma_round_trip(record.timestamp);
    }
}

/// The summary of the positions of one symbol and side.
#[derive(Debug, Clone, PartialEq, Eq)]
pub struct PositionSummary {
    pub average_position_rate: String,
    pub position_loss_gain: String,
    pub side: String,
    pub sum_order_quantity: String,
    pub sum_position_quantity: String,
    pub symbol: String,
}

/// The model of [`PositionSummary`].
pub struct PositionSummaryView {
    pub average_position_rate: Seq<char>,
    pub position_loss_gain: Seq<char>,
    pub side: Seq<char>,
    pub sum_order_quantity: Seq<char>,
    pub sum_position_quantity: Seq<char>,
    pub symbol: Seq<char>,
}

impl DeepView for PositionSummary {
    type V = PositionSummaryView;

    open spec fn deep_view(&self) -> PositionSummaryView {
        PositionSummaryView {
            average_position_rate: self.average_position_rate@,
            position_loss_gain: self.position_loss_gain@,
            side: self.side@,
            sum_order_quantity: self.sum_order_quantity@,
            sum_position_quantity: self.sum_position_quantity@,
            symbol: self.symbol@,
        }
    }
}

impl FromJson for PositionSummary {
    open spec fn decoded(value: JsonSpec) -> Option<PositionSummaryView> {
        if decoded_at::<String>(value, "averagePositionRate"@) is Some
            && decoded_at::<String>(value, "positionLossGain"@) is Some
            && decoded_at::<String>(value, "side"@) is Some
            && decoded_at::<String>(value, "sumOrderQuantity"@) is Some
            && decoded_at::<String>(value, "sumPositionQuantity"@) is Some
            && decoded_at::<String>(value, "symbol"@) is Some {
            Some(
                PositionSummaryView {
                    average_position_rate: decoded_at::<String>(value, "averagePositionRate"@)->0,
                    position_loss_gain: decoded_at::<String>(value, "positionLossGain"@)->0,
                    side: decoded_at::<String>(value, "side"@)->0,
                    sum_order_quantity: decoded_at::<String>(value, "sumOrderQuantity"@)->0,
                    sum_position_quantity: decoded_at::<String>(value, "sumPositionQuantity"@)->0,
                    symbol: decoded_at::<String>(value, "symbol"@)->0,
                },
            )
        } else {
            None
        }
    }

    fn from_json(value: &JsonValue) -> (r: Option<PositionSummary>) {
        let average_position_rate = read_at::<String>(value, "averagePositionRate")?;
        let position_loss_gain = read_at::<String>(value, "positionLossGain")?;
        let side = read_at::<String>(value, "side")?;
        let sum_order_quantity = read_at::<String>(value, "sumOrderQuantity")?;
        let sum_position_quantity = read_at::<String>(value, "sumPositionQuantity")?;
        let symbol = read_at::<String>(value, "symbol")?;
        Some(PositionSummary { average_position_rate, position_loss_gain, side, sum_order_quantity, sum_position_quantity, symbol })
    }
}

impl ToJson for PositionSummary {
    open spec fn encoded(record: PositionSummaryView) -> JsonSpec {
        JsonSpec::Object(
            seq![
                ("averagePositionRate"@, <String as ToJson>::encoded(record.average_position_rate)),
                ("positionLossGain"@, <String as ToJson>::encoded(record.position_loss_gain)),
                ("side"@, <String as ToJson>::encoded(record.side)),
                ("sumOrderQuantity"@, <String as ToJson>::encoded(record.sum_order_quantity)),
                ("sumPositionQuantity"@, <String as ToJson>::encoded(record.sum_position_quantity)),
                ("symbol"@, <String as ToJson>::encoded(record.symbol)),
            ],
        )
    }

    fn to_json(&self) -> (r: JsonValue) {
        let mut fields: Vec<(String, JsonValue)> = Vec::new();
        assert(fields.deep_view() =~= Seq::empty());
        put(&mut fields, "averagePositionRate", self.average_position_rate.to_json());
        put(&mut fields, "positionLossGain", self.position_loss_gain.to_json());
        put(&mut fields, "side", self.side.to_json());
        put(&mut fields, "sumOrderQuantity", self.sum_order_quantity.to_json());
        put(&mut fields, "sumPositionQuantity", self.sum_position_quantity.to_json());
        put(&mut fields, "symbol", self.symbol.to_json());
        assert(fields.deep_view() =~= Self::encoded(self.deep_view())->Object_0);
        JsonValue::object(fields)
    }

    proof fn lemma_round_trip(record: PositionSummaryView) {
        reveal_strlit("averagePositionRate");
        reveal_strlit("positionLossGain");
        reveal_strlit("side");
        reveal_strlit("sumOrderQuantity");
        reveal_strlit("sumPositionQuantity");
        reveal_strlit("symbol");
        assert("averagePositionRate"@.len() == 19);
        assert("positionLossGain"@.len() == 16);
        assert("side"@.len() == 4);
        assert("sumOrderQuantity"@.len() == 16);
        assert("sumPositionQuantity"@.len() == 19);
        assert("symbol"@.len() == 6);
        assert("averagePositionRate"@[0] != "sumPositionQuantity"@[0]);
        assert("positionLossGain"@[0] != "sumOrderQuantity"@[0]);
        let fields = Self::encoded(record)->Object_0;
        lemma_lookup_unique(fields, 0);
        lemma_lookup_unique(fields, 1);
        lemma_lookup_unique(fields, 2);
        lemma_lookup_unique(fields, 3);
        lemma_lookup_unique(fields, 4);
        lemma_lookup_unique(fields, 5);
        <String as ToJson>::lemma_round_trip(record.average_position_rate);
        <String as ToJson>::lemma_round_trip(record.position_loss_gain);
        <String as ToJson>::lemma_round_trip(record.side);
        <String as ToJson>::lemma_round_trip(record.sum_order_quantity);
        <String as ToJson>::lemma_round_trip(record.sum_position_quantity);
        <String as ToJson>::lemma_round_trip(record.symbol);
    }
}

/// The reply to an order: the identifier of the order, as text.
#[derive(Debug, Clone, PartialEq, Eq)]
pub struct Order {
    pub data: String,
}

/// The model of [`Order`].
pub struct OrderView {
    pub data: Seq<char>,
}

impl DeepView for Order {
    type V = OrderView;

    open spec fn deep_view(&self) -> OrderView {
        OrderView {
            data: self.data@,
        }
    }
}

impl FromJson for Order {
    open spec fn decoded(value: JsonSpec) -> Option<OrderView> {
        if decoded_at::<String>(value, "data"@) is Some {
            Some(
                OrderView {
                    data: decoded_at::<String>(value, "data"@)->0,
                },
            )
        } else {
            None
        }
    }

    fn from_json(value: &JsonValue) -> (r: Option<Order>) {
        let data = read_at::<String>(value, "data")?;
        Some(Order { data })
    }
}

impl ToJson for Order {
    open spec fn encoded(record: OrderView) -> JsonSpec {
        JsonSpec::Object(
            seq![
                ("data"@, <String as ToJson>::encoded(record.data)),
            ],
        )
    }

    fn to_json(&self) -> (r: JsonValue) {
        let mut fields: Vec<(String, JsonValue)> = Vec::new();
        assert(fields.deep_view() =~= Seq::empty());
        put(&mut fields, "data", self.data.to_json());
        assert(fields.deep_view() =~= Self::encoded(self.deep_view())->Object_0);
        JsonValue::object(fields)
    }

    proof fn lemma_round_trip(record: OrderView) {
        reveal_strlit("data");
        assert("data"@.len() == 4);
        let fields = Self::encoded(record)->Object_0;
        lemma_lookup_unique(fields, 0);
        <String as ToJson>::lemma_round_trip(record.data);
    }
}

/// The position that a close order settles, and how much of it.
#[derive(Debug, Clone, PartialEq, Eq)]
pub struct SettlePosition {
    pub position_id: usize,
    pub size: String,
}

/// The model of [`SettlePosition`].
pub struct SettlePositionView {
    pub position_id: usize,
    pub size: Seq<char>,
}

impl DeepView for SettlePosition {
    type V = SettlePositionView;

    open spec fn deep_view(&self) -> SettlePositionView {
        SettlePositionView {
            position_id: self.position_id,
            size: self.size@,
        }
    }
}

impl FromJson for SettlePosition {
    open spec fn decoded(value: JsonSpec) -> Option<SettlePositionView> {
        if decoded_at::<usize>(value, "positionId"@) is Some
            && decoded_at::<String>(value, "size"@) is Some {
            Some(
                SettlePositionView {
                    position_id: decoded_at::<usize>(value, "positionId"@)->0,
                    size: decoded_at::<String>(value, "size"@)->0,
                },
            )
        } else {
            None
        }
    }

    fn from_json(value: &JsonValue) -> (r: Option<SettlePosition>) {
        let position_id = read_at::<usize>(value, "positionId")?;
        let size = read_at::<String>(value, "size")?;
        Some(SettlePosition { position_id, size })
    }
}

impl ToJson for SettlePosition {
    open spec fn encoded(record: SettlePositionView) -> JsonSpec {
        JsonSpec::Object(
            seq![
                ("positionId"@, <usize as ToJson>::encoded(record.position_id)),
                ("size"@, <String as ToJson>::encoded(record.size)),
            ],
        )
    }

    fn to_json(&self) -> (r: JsonValue) {
        let mut fields: Vec<(String, JsonValue)> = Vec::new();
        assert(fields.deep_view() =~= Seq::empty());
        put(&mut fields, "positionId", self.position_id.to_json());
        put(&mut fields, "size", self.size.to_json());
        assert(fields.deep_view() =~= Self::encoded(self.deep_view())->Object_0);
        JsonValue::object(fields)
    }

    proof fn lemma_round_trip(record: SettlePositionView) {
        reveal_strlit("positionId");
        reveal_strlit("size");
        assert("positionId"@.len() == 10);
        assert("size"@.len() == 4);
        let fields = Self::encoded(record)->Object_0;
        lemma_lookup_unique(fields, 0);
        lemma_lookup_unique(fields, 1);
        <usize as ToJson>::lemma_round_trip(record.position_id);
        <String as ToJson>::lemma_round_trip(record.size);
    }
}

} // verus!
