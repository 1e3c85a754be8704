//! Trading sessions as a broker's calendar gives them.
use akzio_domain::error::DomainError;
use akzio_domain::execution::plan::{OrderIntent, OrderSide};
use akzio_domain::execution::session::{
    alpaca_overnight_asset_available, ExchangeSession, TradingSession, TradingSessionSnapshot,
};
use akzio_domain::foundation::{Asset, MoneyMicros};
use akzio_domain::json::ToJson;
use akzio_domain::time::UtcTime;
use serde_json::Value;

fn at(text: &str) -> UtcTime {
    let instant: chrono::DateTime<chrono::Utc> = text.parse().unwrap();
    UtcTime::from_timestamp(instant.timestamp(), instant.timestamp_subsec_nanos()).unwrap()
}

fn json(text: &str) -> Value {
    serde_json::from_str(text).unwrap()
}

fn calendar() -> Vec<ExchangeSession> {
    ExchangeSession::from_alpaca(&json(
        r#"[
            {"date":"2026-09-04", "open":"09:30", "close":"16:00"},
            {"date":"2026-09-08", "open":"09:30", "close":"16:00"},
            {"date":"2026-11-27", "open":"09:30", "close":"13:00"}
        ]"#,
    ))
    .unwrap()
}

#[test]
fn provider_calendar_drives_sessions_holidays_early_close_and_trade_date() {
    let calendar = calendar();
    for (time, regular_open, expected, date) in [
        (
            "2026-09-04T03:59:59-04:00",
            false,
            TradingSession::Overnight,
            "2026-09-04",
        ),
        (
            "2026-09-04T04:00:00-04:00",
            false,
            TradingSession::PreMarket,
            "2026-09-04",
        ),
        (
            "2026-09-04T09:30:00-04:00",
            true,
            TradingSession::Regular,
            "2026-09-04",
        ),
        (
            "2026-09-04T16:00:00-04:00",
            false,
            TradingSession::AfterHours,
            "2026-09-04",
        ),
        (
            "2026-09-04T20:00:00-04:00",
            false,
            TradingSession::Closed,
            "2026-09-04",
        ),
        (
            "2026-09-05T12:00:00-04:00",
            false,
            TradingSession::Closed,
            "2026-09-05",
        ),
        (
            "2026-09-06T20:00:00-04:00",
            false,
            TradingSession::Closed,
            "2026-09-06",
        ),
        (
            "2026-09-07T20:00:00-04:00",
            false,
            TradingSession::Overnight,
            "2026-09-08",
        ),
        (
            "2026-11-27T03:59:59-05:00",
            false,
            TradingSession::Overnight,
            "2026-11-27",
        ),
        (
            "2026-11-27T13:00:00-05:00",
            false,
            TradingSession::AfterHours,
            "2026-11-27",
        ),
    ] {
        let session =
            TradingSessionSnapshot::from_calendar(at(time), regular_open, &calendar).unwrap();
        assert_eq!(session.kind, expected, "{time}");
        assert_eq!(session.trade_date.text(), date, "{time}");
    }
    let closed = TradingSessionSnapshot::from_calendar(
        at("2026-09-05T12:00:00-04:00"),
        false,
        &calendar,
    )
    .unwrap();
    assert_eq!(
        closed.next_open.unwrap(),
        at("2026-09-07T20:00:00-04:00")
    );
    let now = UtcTime::from_timestamp(chrono::Utc::now().timestamp(), 0).unwrap();
    let no_calendar = TradingSessionSnapshot::from_calendar(now, true, &[]).unwrap();
    assert_eq!(no_calendar.kind, TradingSession::Closed);
}

#[test]
fn legacy_order_hash_fields_remain_unchanged() {
    let old =
        json(r#"{"asset":"QQQ","side":"buy","notional":1000000,"limit_price":1000000}"#);
    let decoded = OrderIntent {
        extended_hours: false,
        asset: Asset::Qqq,
        side: OrderSide::Buy,
        notional: MoneyMicros(1_000_000),
        limit_price: MoneyMicros(1_000_000),
    };
    assert_eq!(decoded.to_json(), old);
    let extended = OrderIntent {
        extended_hours: true,
        ..decoded
    };
    assert_eq!(extended.to_json()["extended_hours"], Value::Bool(true));
}

#[test]
fn overnight_asset_flags_match_actual_trading_api_and_reject_halts() {
    let mut value = json(
        r#"{"symbol":"QQQ","status":"active","tradable":true,
            "attributes":["fractional_eh_enabled","overnight_tradable"]}"#,
    );
    assert!(alpaca_overnight_asset_available(&value, Asset::Qqq));
    value["attributes"]
        .as_array_mut()
        .unwrap()
        .push(Value::String("overnight_halted".to_owned()));
    assert!(!alpaca_overnight_asset_available(&value, Asset::Qqq));
    value.as_object_mut().unwrap().remove("attributes");
    assert!(!alpaca_overnight_asset_available(&value, Asset::Qqq));
    value["overnight_tradable"] = Value::Bool(true);
    value["overnight_halted"] = Value::Bool(false);
    assert!(alpaca_overnight_asset_available(&value, Asset::Qqq));
    assert!(!alpaca_overnight_asset_available(&value, Asset::Soxl));
    value["overnight_tradable"] = Value::Bool(false);
    assert!(!alpaca_overnight_asset_available(&value, Asset::Qqq));
}

#[test]
fn session_ends_when_the_next_begins() {
    let calendar = calendar();
    let regular = TradingSessionSnapshot::from_calendar(
        at("2026-11-27T10:00:00-05:00"),
        true,
        &calendar,
    )
    .unwrap();
    assert_eq!(regular.kind, TradingSession::Regular);
    assert_eq!(regular.ends_at, Some(at("2026-11-27T13:00:00-05:00")));
    assert_eq!(regular.next_open, None);
}

#[test]
fn calendar_that_cannot_be_read_is_refused() {
    for text in [
        r#"{"date":"2026-09-04"}"#,
        r#"[{"date":"2026-13-04", "open":"09:30", "close":"16:00"}]"#,
        r#"[{"date":"2026-09-04", "open":"930", "close":"16:00"}]"#,
        r#"[{"date":"2026-09-04", "open":"09:30"}]"#,
    ] {
        assert!(
            matches!(
                ExchangeSession::from_alpaca(&json(text)),
                Err(DomainError::InvalidBudget {
                    field: "trading_session.calendar"
                })
            ),
            "{text}"
        );
    }
}
