use gmo_coin::{LeverageSymbol, Side, SideError, Symbol, SymbolError};

#[test]
fn symbol_parses_upper_case_tokens() {
    assert_eq!(Symbol::from_str("BTC"), Ok(Symbol::BTC));
    assert_eq!(Symbol::from_str("ETH"), Ok(Symbol::ETH));
    assert_eq!(Symbol::from_str("BCH"), Ok(Symbol::BCH));
    assert_eq!(Symbol::from_str("LTC"), Ok(Symbol::LTC));
    assert_eq!(Symbol::from_str("XRP"), Ok(Symbol::XRP));
    assert_eq!(Symbol::from_str("BTC_JPY"), Ok(Symbol::BTC_JPY));
    assert_eq!(Symbol::from_str("ETH_JPY"), Ok(Symbol::ETH_JPY));
    assert_eq!(Symbol::from_str("BCH_JPY"), Ok(Symbol::BCH_JPY));
    assert_eq!(Symbol::from_str("LTC_JPY"), Ok(Symbol::LTC_JPY));
    assert_eq!(Symbol::from_str("XRP_JPY"), Ok(Symbol::XRP_JPY));
}

#[test]
fn symbol_parses_lower_case_tokens() {
    assert_eq!(Symbol::from_str("btc"), Ok(Symbol::BTC));
    assert_eq!(Symbol::from_str("eth"), Ok(Symbol::ETH));
    assert_eq!(Symbol::from_str("xrp_jpy"), Ok(Symbol::XRP_JPY));
}

#[test]
fn symbol_round_trip_renders_upper_case() {
    assert_eq!(Symbol::from_str("btc").unwrap().to_string(), "BTC");
    assert_eq!(Symbol::from_str("Btc_Jpy").unwrap().to_string(), "BTC_JPY");
    assert_eq!(Symbol::from_str("LTC").unwrap().as_str(), "LTC");
}

#[test]
fn symbol_rejects_unknown_tokens() {
    assert_eq!(Symbol::from_str("DOGECOIN"), Err(SymbolError::SymbolParseError));
    assert_eq!(Symbol::from_str(""), Err(SymbolError::SymbolParseError));
    assert_eq!(Symbol::from_str("etc"), Err(SymbolError::SymbolParseError));
    assert_eq!(Symbol::from_str("BTC "), Err(SymbolError::SymbolParseError));
    assert_eq!(Symbol::from_str("BTC_JPYX"), Err(SymbolError::SymbolParseError));
    assert_eq!(Symbol::from_str("ＢＴＣ"), Err(SymbolError::SymbolParseError));
}

#[test]
fn symbol_error_has_its_message() {
    assert_eq!(SymbolError::SymbolParseError.to_string(), "Can't parse symbol");
}

#[test]
fn leverage_symbol_parses_and_renders() {
    assert_eq!(LeverageSymbol::from_str("BTC_JPY"), Ok(LeverageSymbol::BTC_JPY));
    assert_eq!(LeverageSymbol::from_str("eth_jpy"), Ok(LeverageSymbol::ETH_JPY));
    assert_eq!(LeverageSymbol::from_str("bch_jpy").unwrap().to_string(), "BCH_JPY");
    assert_eq!(LeverageSymbol::LTC_JPY.as_str(), "LTC_JPY");
    assert_eq!(LeverageSymbol::XRP_JPY.to_string(), "XRP_JPY");
}

#[test]
fn leverage_symbols_are_symbols() {
    let all = [
        (LeverageSymbol::BTC_JPY, Symbol::BTC_JPY),
        (LeverageSymbol::ETH_JPY, Symbol::ETH_JPY),
        (LeverageSymbol::BCH_JPY, Symbol::BCH_JPY),
        (LeverageSymbol::LTC_JPY, Symbol::LTC_JPY),
        (LeverageSymbol::XRP_JPY, Symbol::XRP_JPY),
    ];
    for (leverage, symbol) in all {
        assert_eq!(leverage.to_symbol(), symbol);
        assert_eq!(leverage.as_str(), symbol.as_str());
    }
}

#[test]
fn leverage_symbol_rejects_spot_assets() {
    assert_eq!(LeverageSymbol::from_str("BTC"), Err(SymbolError::SymbolParseError));
    assert_eq!(LeverageSymbol::from_str("DOGECOIN"), Err(SymbolError::SymbolParseError));
}

#[test]
fn side_parses_and_renders() {
    assert_eq!(Side::from_str("BUY"), Ok(Side::BUY));
    assert_eq!(Side::from_str("buy"), Ok(Side::BUY));
    assert_eq!(Side::from_str("SELL"), Ok(Side::SELL));
    assert_eq!(Side::from_str("sell"), Ok(Side::SELL));
    assert_eq!(Side::from_str("sell").unwrap().to_string(), "SELL");
    assert_eq!(Side::BUY.as_str(), "BUY");
}

#[test]
fn side_rejects_unknown_tokens() {
    assert_eq!(Side::from_str("HOLD"), Err(SideError::SideParseError));
    assert_eq!(Side::from_str(""), Err(SideError::SideParseError));
    assert_eq!(SideError::SideParseError.to_string(), "SideParseError");
}
