use tastytrade::accounts::{
    select_account, AccountDetails, AccountInner, AccountNumber, SnapshotTimeOfDay,
};
use tastytrade::instruments::{
    equity_info_path, option_info_path, quote_streamer_tokens_path, streamer_symbol_lookup,
    SymbolLookup, UnsupportedInstrumentType,
};
use tastytrade::json::str_eq;
use tastytrade::orders::{
    Action, AsSymbol, InstrumentType, OrderStatus, OrderType, PriceEffect, Symbol, TimeInForce,
};
use tastytrade::rest::{api_base_url, classify_response, ApiError, Response, TastyApiResponse};

#[test]
fn order_enums_round_trip_their_wire_names() {
    let effects = [PriceEffect::Debit, PriceEffect::Credit, PriceEffect::NoEffect];
    for e in effects {
        assert_eq!(PriceEffect::parse_wire(e.wire_name()), Some(e));
    }
    let actions = [
        Action::BuyToOpen,
        Action::SellToOpen,
        Action::BuyToClose,
        Action::SellToClose,
        Action::Sell,
        Action::Buy,
    ];
    for a in actions {
        assert_eq!(Action::parse_wire(a.wire_name()), Some(a));
    }
    let kinds = [
        InstrumentType::Equity,
        InstrumentType::EquityOption,
        InstrumentType::EquityOffering,
        InstrumentType::Future,
        InstrumentType::FutureOption,
        InstrumentType::Cryptocurrency,
    ];
    for k in kinds {
        assert_eq!(InstrumentType::parse_wire(k.wire_name()), Some(k));
    }
    let types = [
        OrderType::Limit,
        OrderType::Market,
        OrderType::MarketableLimit,
        OrderType::Stop,
        OrderType::StopLimit,
        OrderType::NotionalMarket,
    ];
    for t in types {
        assert_eq!(OrderType::parse_wire(t.wire_name()), Some(t));
    }
    let tifs = [
        TimeInForce::Day,
        TimeInForce::GTC,
        TimeInForce::GTD,
        TimeInForce::Ext,
        TimeInForce::GTCExt,
        TimeInForce::IOC,
    ];
    for t in tifs {
        assert_eq!(TimeInForce::parse_wire(t.wire_name()), Some(t));
    }
    let statuses = [
        OrderStatus::Received,
        OrderStatus::Routed,
        OrderStatus::InFlight,
        OrderStatus::Live,
        OrderStatus::CancelRequested,
        OrderStatus::ReplaceRequested,
        OrderStatus::Contingent,
        OrderStatus::Filled,
        OrderStatus::Cancelled,
        OrderStatus::Expired,
        OrderStatus::Rejected,
        OrderStatus::Removed,
        OrderStatus::PartiallyRemoved,
    ];
    for s in statuses {
        assert_eq!(OrderStatus::parse_wire(s.wire_name()), Some(s));
    }
}

#[test]
fn renamed_wire_names_are_exact() {
    assert_eq!(Action::BuyToOpen.wire_name(), "Buy to Open");
    assert_eq!(InstrumentType::EquityOption.wire_name(), "Equity Option");
    assert_eq!(OrderType::MarketableLimit.wire_name(), "Marketable Limit");
    assert_eq!(TimeInForce::GTCExt.wire_name(), "GTC Ext");
    assert_eq!(OrderStatus::PartiallyRemoved.wire_name(), "Partially Removed");
    assert_eq!(PriceEffect::NoEffect.wire_name(), "None");
}

#[test]
fn unknown_wire_names_parse_to_nothing() {
    assert_eq!(PriceEffect::parse_wire("Neither"), None);
    assert_eq!(OrderStatus::parse_wire("live"), None);
    assert_eq!(TimeInForce::parse_wire(""), None);
}

#[test]
fn str_eq_matches_string_equality() {
    assert!(str_eq("abc", "abc"));
    assert!(!str_eq("abc", "abd"));
    assert!(!str_eq("abc", "abcd"));
    assert!(str_eq("", ""));
}

#[test]
fn symbols_convert_through_as_symbol() {
    let s: Symbol = Symbol("SPY".to_string());
    assert_eq!(s.as_symbol().0, "SPY");
    let owned: String = "QQQ".to_string();
    assert_eq!(owned.as_symbol().0, "QQQ");
}

fn account(number: &str) -> AccountInner {
    AccountInner {
        account: AccountDetails {
            account_number: AccountNumber(number.to_string()),
            external_id: None,
            opened_at: "2024-01-02".to_string(),
            nickname: "main".to_string(),
            account_type_name: "margin".to_string(),
            day_trader_status: false,
            is_firm_error: false,
            is_firm_proprietary: false,
            is_test_drive: false,
            margin_or_cash: "margin".to_string(),
            is_foreign: false,
            funding_date: None,
        },
        authority_level: "owner".to_string(),
    }
}

#[test]
fn select_account_finds_by_number() {
    let accounts = vec![account("A1"), account("A2"), account("A3")];
    let hit = select_account(&accounts, &AccountNumber("A2".to_string())).unwrap();
    assert_eq!(hit.account.account_number.0, "A2");
    assert!(select_account(&accounts, &AccountNumber("A9".to_string())).is_none());
}

#[test]
fn snapshot_time_of_day_labels() {
    assert_eq!(SnapshotTimeOfDay::EOD.label(), "EOD");
    assert_eq!(SnapshotTimeOfDay::BOD.label(), "BOD");
}

#[test]
fn symbol_translation_dispatches_on_instrument_type() {
    assert_eq!(
        streamer_symbol_lookup(&InstrumentType::Equity),
        Ok(SymbolLookup::EquityInfo)
    );
    assert_eq!(
        streamer_symbol_lookup(&InstrumentType::EquityOption),
        Ok(SymbolLookup::OptionInfo)
    );
    assert_eq!(
        streamer_symbol_lookup(&InstrumentType::Future),
        Err(UnsupportedInstrumentType)
    );
    assert_eq!(
        streamer_symbol_lookup(&InstrumentType::Cryptocurrency),
        Err(UnsupportedInstrumentType)
    );
}

#[test]
fn lookup_paths_are_exact() {
    assert_eq!(
        equity_info_path(&Symbol("SPY".to_string())),
        "/instruments/equities/SPY"
    );
    assert_eq!(
        option_info_path(&Symbol("SPY 240621C00500000".to_string())),
        "/instruments/equity-options/SPY 240621C00500000"
    );
    assert_eq!(quote_streamer_tokens_path(), "/quote-streamer-tokens");
}

#[test]
fn rest_base_url_follows_the_demo_flag() {
    assert_eq!(api_base_url(false), "https://api.tastyworks.com");
    assert_eq!(api_base_url(true), "https://api.cert.tastyworks.com");
}

#[test]
fn responses_classify_into_results() {
    let ok: TastyApiResponse<u64> = TastyApiResponse::Success(Response {
        data: 5,
        context: "ctx".to_string(),
        pagination: None,
    });
    assert_eq!(classify_response(ok).unwrap().data, 5);
    let err: TastyApiResponse<u64> = TastyApiResponse::Error {
        error: ApiError { code: Some("401".to_string()), message: "no".to_string(), errors: None },
    };
    assert_eq!(classify_response(err).unwrap_err().message, "no");
}

#[test]
fn api_errors_describe_themselves() {
    let with_code = ApiError {
        code: Some("401".to_string()),
        message: "bad credentials".to_string(),
        errors: None,
    };
    assert_eq!(with_code.describe(), "Error 401: bad credentials");
    let without = ApiError { code: None, message: "gone".to_string(), errors: None };
    assert_eq!(without.describe(), "Error: gone");
}
