//! A client core for the GMO Coin REST API.
//!
//! The crate builds the requests of the public and the private endpoints,
//! signs the private ones and reads the JSON replies into typed records. It
//! performs no network call itself: a transport sends a [`request::Request`]
//! and hands a [`response::Reply`] back.

use vstd::prelude::*;

pub mod endpoint;
pub mod error;
pub mod json;
pub mod private;
pub mod public;
pub mod record;
pub mod request;
pub mod response;
pub mod sign;
pub mod text;

use crate::text::{ascii_lower, ascii_upper, is_token, lemma_upper_of_lower, matches_token};

verus! {

/// A tradable instrument: a spot asset or a leverage pair.
#[allow(non_camel_case_types)]
#[derive(Debug, Clone, Copy, PartialEq, Eq, Structural)]
pub enum Symbol {
    BTC,
    ETH,
    BCH,
    LTC,
    XRP,
    BTC_JPY,
    ETH_JPY,
    BCH_JPY,
    LTC_JPY,
    XRP_JPY,
}

/// Why a text is no [`Symbol`] or [`LeverageSymbol`].
#[derive(Debug, Clone, Copy, PartialEq, Eq, Structural)]
pub enum SymbolError {
    SymbolParseError,
}

impl SymbolError {
    /// The message of the error.
    pub fn to_string(&self) -> (s: String)
        ensures
            s@ == "Can't parse symbol"@,
    {
        String::from_str("Can't parse symbol")
    }
}

impl Symbol {
    /// The token that stands for the symbol on the wire.
    pub open spec fn token(self) -> Seq<char> {
        match self {
            Symbol::BTC => "BTC"@,
            Symbol::ETH => "ETH"@,
            Symbol::BCH => "BCH"@,
            Symbol::LTC => "LTC"@,
            Symbol::XRP => "XRP"@,
            Symbol::BTC_JPY => "BTC_JPY"@,
            Symbol::ETH_JPY => "ETH_JPY"@,
            Symbol::BCH_JPY => "BCH_JPY"@,
            Symbol::LTC_JPY => "LTC_JPY"@,
            Symbol::XRP_JPY => "XRP_JPY"@,
        }
    }

    /// The symbol with the given wire token, if there is one.
    pub open spec fn from_token(token: Seq<char>) -> Option<Symbol> {
        if exists|v: Symbol| v.token() == token {
            Some(choose|v: Symbol| v.token() == token)
        } else {
            None
        }
    }

    /// What parsing a text gives: the symbol whose token the text is, up to
    /// the case of its ASCII letters.
    pub open spec fn parse(s: Seq<char>) -> Result<Symbol, SymbolError> {
        match Symbol::from_token(ascii_upper(s)) {
            Some(v) => Ok(v),
            None => Err(SymbolError::SymbolParseError),
        }
    }

    /// Every token is upper-case ASCII, and no two symbols share one.
    pub proof fn lemma_tokens(v: Symbol, w: Symbol)
        ensures
            is_token(v.token()),
            v.token() == w.token() ==> v == w,
            Symbol::from_token(v.token()) == Some(v),
    {
        reveal_strlit("BTC");
        reveal_strlit("ETH");
        reveal_strlit("BCH");
        reveal_strlit("LTC");
        reveal_strlit("XRP");
        reveal_strlit("BTC_JPY");
        reveal_strlit("ETH_JPY");
        reveal_strlit("BCH_JPY");
        reveal_strlit("LTC_JPY");
        reveal_strlit("XRP_JPY");
        assert(ascii_upper(v.token()) =~= v.token());
        let u = choose|u: Symbol| u.token() == v.token();
        assert(u.token() == v.token());
        assert(u.token().len() == v.token().len());
        assert(u.token()[0] == v.token()[0]);
        assert(u.token()[1] == v.token()[1]);
    }

    /// The wire token of the symbol.
    pub fn as_str(&self) -> (s: &'static str)
        ensures
            s@ == self.token(),
    {
        match self {
            Symbol::BTC => "BTC",
            Symbol::ETH => "ETH",
            Symbol::BCH => "BCH",
            Symbol::LTC => "LTC",
            Symbol::XRP => "XRP",
            Symbol::BTC_JPY => "BTC_JPY",
            Symbol::ETH_JPY => "ETH_JPY",
            Symbol::BCH_JPY => "BCH_JPY",
            Symbol::LTC_JPY => "LTC_JPY",
            Symbol::XRP_JPY => "XRP_JPY",
        }
    }

    /// The wire token of the symbol, as an owned text.
    pub fn to_string(&self) -> (s: String)
        ensures
            s@ == self.token(),
    {
        String::from_str(self.as_str())
    }

    /// A text that folds to the token of `v` parses to `v`.
    pub proof fn lemma_parse_token(s: Seq<char>, v: Symbol)
        requires
            ascii_upper(s) == v.token(),
        ensures
            Symbol::parse(s) == Ok::<Symbol, SymbolError>(v),
    {
        let u = choose|u: Symbol| u.token() == ascii_upper(s);
        Symbol::lemma_tokens(u, v);
    }

    /// Reads a symbol from its token, in any case of its letters.
    pub fn from_str(s: &str) -> (r: Result<Symbol, SymbolError>)
        ensures
            r == Symbol::parse(s@),
    {
        let all = [
            Symbol::BTC,
            Symbol::ETH,
            Symbol::BCH,
            Symbol::LTC,
            Symbol::XRP,
            Symbol::BTC_JPY,
            Symbol::ETH_JPY,
            Symbol::BCH_JPY,
            Symbol::LTC_JPY,
            Symbol::XRP_JPY,
        ];
        let mut i: usize = 0;
        while i < 10
            invariant
                i <= 10,
                all@ == seq![
                    Symbol::BTC,
                    Symbol::ETH,
                    Symbol::BCH,
                    Symbol::LTC,
                    Symbol::XRP,
                    Symbol::BTC_JPY,
                    Symbol::ETH_JPY,
                    Symbol::BCH_JPY,
                    Symbol::LTC_JPY,
                    Symbol::XRP_JPY,
                ],
                forall|k: int| 0 <= k < i ==> (#[trigger] all@[k]).token() != ascii_upper(s@),
            decreases 10 - i,
        {
            let v = all[i];
            proof {
                Symbol::lemma_tokens(v, v);
            }
            if matches_token(s, v.as_str()) {
                return Ok(v);
            }
            i = i + 1;
        }
        Err(SymbolError::SymbolParseError)
    }
}

/// Parsing and rendering a symbol agree: a text parses to the symbol whose
/// token is the text folded to upper case, and fails exactly when no symbol
/// has that token.
pub proof fn lemma_symbol_parse_renders(s: Seq<char>)
    ensures
        match Symbol::parse(s) {
            Ok(v) => v.token() == ascii_upper(s),
            Err(e) => e == SymbolError::SymbolParseError && forall|v: Symbol|
                v.token() != ascii_upper(s),
        },
{
}

/// The token of a symbol, written in upper or in lower case, parses to that
/// symbol.
pub proof fn lemma_symbol_round_trip(v: Symbol)
    ensures
        Symbol::parse(v.token()) == Ok::<Symbol, SymbolError>(v),
        Symbol::parse(ascii_lower(v.token())) == Ok::<Symbol, SymbolError>(v),
{
    Symbol::lemma_tokens(v, v);
    lemma_upper_of_lower(v.token());
    Symbol::lemma_parse_token(v.token(), v);
    Symbol::lemma_parse_token(ascii_lower(v.token()), v);
}

/// A symbol that can be traded with leverage.
#[allow(non_camel_case_types)]
#[derive(Debug, Clone, Copy, PartialEq, Eq, Structural)]
pub enum LeverageSymbol {
    BTC_JPY,
    ETH_JPY,
    BCH_JPY,
    LTC_JPY,
    XRP_JPY,
}

impl LeverageSymbol {
    /// The token that stands for the symbol on the wire.
    pub open spec fn token(self) -> Seq<char> {
        match self {
            LeverageSymbol::BTC_JPY => "BTC_JPY"@,
            LeverageSymbol::ETH_JPY => "ETH_JPY"@,
            LeverageSymbol::BCH_JPY => "BCH_JPY"@,
            LeverageSymbol::LTC_JPY => "LTC_JPY"@,
            LeverageSymbol::XRP_JPY => "XRP_JPY"@,
        }
    }

    /// The same instrument among all symbols.
    pub open spec fn as_symbol(self) -> Symbol {
        match self {
            LeverageSymbol::BTC_JPY => Symbol::BTC_JPY,
            LeverageSymbol::ETH_JPY => Symbol::ETH_JPY,
            LeverageSymbol::BCH_JPY => Symbol::BCH_JPY,
            LeverageSymbol::LTC_JPY => Symbol::LTC_JPY,
            LeverageSymbol::XRP_JPY => Symbol::XRP_JPY,
        }
    }

    /// The leverage symbol with the given wire token, if there is one.
    pub open spec fn from_token(token: Seq<char>) -> Option<LeverageSymbol> {
        if exists|v: LeverageSymbol| v.token() == token {
            Some(choose|v: LeverageSymbol| v.token() == token)
        } else {
            None
        }
    }

    /// What parsing a text gives: the leverage symbol whose token the text
    /// is, up to the case of its ASCII letters.
    pub open spec fn parse(s: Seq<char>) -> Result<LeverageSymbol, SymbolError> {
        match LeverageSymbol::from_token(ascii_upper(s)) {
            Some(v) => Ok(v),
            None => Err(SymbolError::SymbolParseError),
        }
    }

    /// Every token is upper-case ASCII, and no two leverage symbols share
    /// one.
    pub proof fn lemma_tokens(v: LeverageSymbol, w: LeverageSymbol)
        ensures
            is_token(v.token()),
            v.token() == v.as_symbol().token(),
            v.token() == w.token() ==> v == w,
            LeverageSymbol::from_token(v.token()) == Some(v),
    {
        reveal_strlit("BTC_JPY");
        reveal_strlit("ETH_JPY");
        reveal_strlit("BCH_JPY");
        reveal_strlit("LTC_JPY");
        reveal_strlit("XRP_JPY");
        assert(ascii_upper(v.token()) =~= v.token());
        let u = choose|u: LeverageSymbol| u.token() == v.token();
        assert(u.token() == v.token());
        assert(u.token()[0] == v.token()[0]);
        assert(u.token()[1] == v.token()[1]);
    }

    /// A text that folds to the token of `v` parses to `v`.
    pub proof fn lemma_parse_token(s: Seq<char>, v: LeverageSymbol)
        requires
            ascii_upper(s) == v.token(),
        ensures
            LeverageSymbol::parse(s) == Ok::<LeverageSymbol, SymbolError>(v),
    {
        let u = choose|u: LeverageSymbol| u.token() == ascii_upper(s);
        LeverageSymbol::lemma_tokens(u, v);
    }

    /// The wire token of the symbol.
    pub fn as_str(&self) -> (s: &'static str)
        ensures
            s@ == self.token(),
    {
        match self {
            LeverageSymbol::BTC_JPY => "BTC_JPY",
            LeverageSymbol::ETH_JPY => "ETH_JPY",
            LeverageSymbol::BCH_JPY => "BCH_JPY",
            LeverageSymbol::LTC_JPY => "LTC_JPY",
            LeverageSymbol::XRP_JPY => "XRP_JPY",
        }
    }

    /// The wire token of the symbol, as an owned text.
    pub fn to_string(&self) -> (s: String)
        ensures
            s@ == self.token(),
    {
        String::from_str(self.as_str())
    }

    /// The same instrument among all symbols: it has the same token.
    pub fn to_symbol(&self) -> (s: Symbol)
        ensures
            s == self.as_symbol(),
            s.token() == self.token(),
    {
        match self {
            LeverageSymbol::BTC_JPY => Symbol::BTC_JPY,
            LeverageSymbol::ETH_JPY => Symbol::ETH_JPY,
            LeverageSymbol::BCH_JPY => Symbol::BCH_JPY,
            LeverageSymbol::LTC_JPY => Symbol::LTC_JPY,
            LeverageSymbol::XRP_JPY => Symbol::XRP_JPY,
        }
    }

    /// Reads a leverage symbol from its token, in any case of its letters.
    pub fn from_str(s: &str) -> (r: Result<LeverageSymbol, SymbolError>)
        ensures
            r == LeverageSymbol::parse(s@),
    {
        let all = [
            LeverageSymbol::BTC_JPY,
            LeverageSymbol::ETH_JPY,
            LeverageSymbol::BCH_JPY,
            LeverageSymbol::LTC_JPY,
            LeverageSymbol::XRP_JPY,
        ];
        let mut i: usize = 0;
        while i < 5
            invariant
                i <= 5,
                all@ == seq![
                    LeverageSymbol::BTC_JPY,
                    LeverageSymbol::ETH_JPY,
                    LeverageSymbol::BCH_JPY,
                    LeverageSymbol::LTC_JPY,
                    LeverageSymbol::XRP_JPY,
                ],
                forall|k: int| 0 <= k < i ==> (#[trigger] all@[k]).token() != ascii_upper(s@),
            decreases 5 - i,
        {
            let v = all[i];
            proof {
                LeverageSymbol::lemma_tokens(v, v);
            }
            if matches_token(s, v.as_str()) {
                return Ok(v);
            }
            i = i + 1;
        }
        Err(SymbolError::SymbolParseError)
    }
}

/// Parsing and rendering a leverage symbol agree, as for [`Symbol`].
pub proof fn lemma_leverage_symbol_parse_renders(s: Seq<char>)
    ensures
        match LeverageSymbol::parse(s) {
            Ok(v) => v.token() == ascii_upper(s),
            Err(e) => e == SymbolError::SymbolParseError && forall|v: LeverageSymbol|
                v.token() != ascii_upper(s),
        },
{
}

/// The token of a leverage symbol, written in upper or in lower case, parses
/// to that symbol.
pub proof fn lemma_leverage_symbol_round_trip(v: LeverageSymbol)
    ensures
        LeverageSymbol::parse(v.token()) == Ok::<LeverageSymbol, SymbolError>(v),
        LeverageSymbol::parse(ascii_lower(v.token())) == Ok::<LeverageSymbol, SymbolError>(v),
{
    LeverageSymbol::lemma_tokens(v, v);
    lemma_upper_of_lower(v.token());
    LeverageSymbol::lemma_parse_token(v.token(), v);
    LeverageSymbol::lemma_parse_token(ascii_lower(v.token()), v);
}

/// The side of an order.
#[derive(Debug, Clone, Copy, PartialEq, Eq, Structural)]
pub enum Side {
    BUY,
    SELL,
}

/// Why a text is no [`Side`].
#[derive(Debug, Clone, Copy, PartialEq, Eq, Structural)]
pub enum SideError {
    SideParseError,
}

impl SideError {
    /// The message of the error.
    pub fn to_string(&self) -> (s: String)
        ensures
            s@ == "SideParseError"@,
    {
        String::from_str("SideParseError")
    }
}

impl Side {
    /// The token that stands for the side on the wire.
    pub open spec fn token(self) -> Seq<char> {
        match self {
            Side::BUY => "BUY"@,
            Side::SELL => "SELL"@,
        }
    }

    /// The side with the given wire token, if there is one.
    pub open spec fn from_token(token: Seq<char>) -> Option<Side> {
        if exists|v: Side| v.token() == token {
            Some(choose|v: Side| v.token() == token)
        } else {
            None
        }
    }

    /// What parsing a text gives: the side whose token the text is, up to
    /// the case of its ASCII letters.
    pub open spec fn parse(s: Seq<char>) -> Result<Side, SideError> {
        match Side::from_token(ascii_upper(s)) {
            Some(v) => Ok(v),
            None => Err(SideError::SideParseError),
        }
    }

    /// Both tokens are upper-case ASCII, and they differ.
    pub proof fn lemma_tokens(v: Side, w: Side)
        ensures
            is_token(v.token()),
            v.token() == w.token() ==> v == w,
            Side::from_token(v.token()) == Some(v),
    {
        reveal_strlit("BUY");
        reveal_strlit("SELL");
        assert(ascii_upper(v.token()) =~= v.token());
    }

    /// A text that folds to the token of `v` parses to `v`.
    pub proof fn lemma_parse_token(s: Seq<char>, v: Side)
        requires
            ascii_upper(s) == v.token(),
        ensures
            Side::parse(s) == Ok::<Side, SideError>(v),
    {
        let u = choose|u: Side| u.token() == ascii_upper(s);
        Side::lemma_tokens(u, v);
    }

    /// The wire token of the side.
    pub fn as_str(&self) -> (s: &'static str)
        ensures
            s@ == self.token(),
    {
        match self {
            Side::BUY => "BUY",
            Side::SELL => "SELL",
        }
    }

    /// The wire token of the side, as an owned text.
    pub fn to_string(&self) -> (s: String)
        ensures
            s@ == self.token(),
    {
        String::from_str(self.as_str())
    }

    /// Reads a side from its token, in any case of its letters.
    pub fn from_str(s: &str) -> (r: Result<Side, SideError>)
        ensures
            r == Side::parse(s@),
    {
        proof {
            Side::lemma_tokens(Side::BUY, Side::SELL);
            Side::lemma_tokens(Side::SELL, Side::BUY);
        }
        if matches_token(s, Side::BUY.as_str()) {
            Ok(Side::BUY)
        } else if matches_token(s, Side::SELL.as_str()) {
            Ok(Side::SELL)
        } else {
            Err(SideError::SideParseError)
        }
    }
}

/// Parsing and rendering a side agree, as for [`Symbol`].
pub proof fn lemma_side_parse_renders(s: Seq<char>)
    ensures
        match Side::parse(s) {
            Ok(v) => v.token() == ascii_upper(s),
            Err(e) => e == SideError::SideParseError && forall|v: Side|
                v.token() != ascii_upper(s),
        },
{
}

/// The token of a side, written in upper or in lower case, parses to that
/// side.
pub proof fn lemma_side_round_trip(v: Side)
    ensures
        Side::parse(v.token()) == Ok::<Side, SideError>(v),
        Side::parse(ascii_lower(v.token())) == Ok::<Side, SideError>(v),
{
    Side::lemma_tokens(v, v);
    lemma_upper_of_lower(v.token());
    Side::lemma_parse_token(v.token(), v);
    Side::lemma_parse_token(ascii_lower(v.token()), v);
}

/// The place of a page in a listing, as the server reports it.
#[derive(Debug, Clone, Copy, PartialEq, Eq, Structural)]
pub struct Pagenation {
    pub current_page: usize,
    pub count: usize,
}

impl DeepView for Pagenation {
    type V = Pagenation;

    open spec fn deep_view(&self) -> Pagenation {
        *self
    }
}

/// The envelope of a reply that holds one value. A `status` of zero means
/// success.
#[derive(Debug, Clone, PartialEq, Eq)]
pub struct Response<T> {
    pub status: usize,
    pub data: T,
    pub responsetime: String,
}

/// The model of a [`Response`].
pub struct ResponseView<D> {
    pub status: usize,
    pub data: D,
    pub responsetime: Seq<char>,
}

impl<T: DeepView> DeepView for Response<T> {
    type V = ResponseView<T::V>;

    open spec fn deep_view(&self) -> ResponseView<T::V> {
        ResponseView {
            status: self.status,
            data: self.data.deep_view(),
            responsetime: self.responsetime@,
        }
    }
}

/// One page of a listing.
#[derive(Debug, Clone, PartialEq, Eq)]
pub struct DataPage<T> {
    pub pagination: Pagenation,
    pub list: Vec<T>,
}

/// The model of a [`DataPage`].
pub struct DataPageView<D> {
    pub pagination: Pagenation,
    pub list: Seq<D>,
}

impl<T: DeepView> DeepView for DataPage<T> {
    type V = DataPageView<T::V>;

    open spec fn deep_view(&self) -> DataPageView<T::V> {
        DataPageView { pagination: self.pagination, list: self.list.deep_view() }
    }
}

/// The envelope of a reply that holds one page of a listing.
#[derive(Debug, Clone, PartialEq, Eq)]
pub struct ResponsePage<T> {
    pub status: usize,
    pub data: DataPage<T>,
    pub responsetime: String,
}

impl<T: DeepView> DeepView for ResponsePage<T> {
    type V = ResponseView<DataPageView<T::V>>;

    open spec fn deep_view(&self) -> ResponseView<DataPageView<T::V>> {
        ResponseView {
            status: self.status,
            data: self.data.deep_view(),
            responsetime: self.responsetime@,
        }
    }
}

/// A listing without pages.
#[derive(Debug, Clone, PartialEq, Eq)]
pub struct List<T> {
    pub list: Vec<T>,
}

/// The model of a [`List`].
pub struct ListView<D> {
    pub list: Seq<D>,
}

impl<T: DeepView> DeepView for List<T> {
    type V = ListView<T::V>;

    open spec fn deep_view(&self) -> ListView<T::V> {
        ListView { list: self.list.deep_view() }
    }
}

/// The envelope of a reply that holds a listing without pages.
#[derive(Debug, Clone, PartialEq, Eq)]
pub struct ResponseList<T> {
    pub status: usize,
    pub data: List<T>,
    pub responsetime: String,
}

impl<T: DeepView> DeepView for ResponseList<T> {
    type V = ResponseView<ListView<T::V>>;

    open spec fn deep_view(&self) -> ResponseView<ListView<T::V>> {
        ResponseView {
            status: self.status,
            data: self.data.deep_view(),
            responsetime: self.responsetime@,
        }
    }
}

} // verus!
