use binance_sdk_rs::client::{Client, HttpMethod};
use binance_sdk_rs::market::{
    agg_trades, depth, exchange_info_symbols, historical_trades, klines, ping, ticker_24hr,
    trades,
};
use binance_sdk_rs::wallet::{
    account_snapshot, asset_dust, capital_all, capital_withdraw, get_asset_transfer,
    get_timestamp, make_asset_transfer, system_status, timestamp_from_clock,
    EAssetTransferType,
};

fn wallet_client() -> Client {
    Client::new(Some("walletkey".to_owned()), Some("testsecret".to_owned())).unwrap()
}

#[test]
fn ping_builds_a_plain_get() {
    let c = wallet_client();
    let req = ping(&c);
    assert_eq!(req.method, HttpMethod::Get);
    assert_eq!(req.url, "https://api.binance.com/api/v3/ping");
    assert_eq!(req.body, "");
    assert!(!req.url.contains("signature"));
}

#[test]
fn depth_rejects_an_unlisted_limit() {
    let c = wallet_client();
    let r = depth(&c, &"BTCUSDT".to_owned(), 7);
    assert_eq!(
        r.unwrap_err(),
        "limit must be one of [5, 10, 20, 50, 100, 500, 1000, 5000]"
    );
}

#[test]
fn depth_accepts_a_listed_limit() {
    let c = wallet_client();
    let req = depth(&c, &"BTCUSDT".to_owned(), 20).unwrap();
    assert_eq!(req.url, "https://api.binance.com/api/v3/depth?symbol=BTCUSDT&limit=20");
}

#[test]
fn trades_rejects_a_large_limit() {
    let c = wallet_client();
    let r = trades(&c, &"BTCUSDT".to_owned(), 1001);
    assert_eq!(r.unwrap_err(), "limit must be less than or equal to 1000");
    let req = trades(&c, &"BTCUSDT".to_owned(), 1000).unwrap();
    assert_eq!(req.url, "https://api.binance.com/api/v3/trades?symbol=BTCUSDT&limit=1000");
}

#[test]
fn historical_trades_appends_from_id_last() {
    let c = wallet_client();
    let req = historical_trades(&c, &"BTCUSDT".to_owned(), 10, Some(77)).unwrap();
    assert_eq!(
        req.url,
        "https://api.binance.com/api/v3/historicalTrades?symbol=BTCUSDT&limit=10&fromId=77"
    );
}

#[test]
fn agg_trades_caps_the_limit_at_1000() {
    let c = wallet_client();
    let req = agg_trades(&c, &"BTCUSDT".to_owned(), None, None, None, Some(5000));
    assert_eq!(req.url, "https://api.binance.com/api/v3/aggTrades?symbol=BTCUSDT&limit=1000");
}

#[test]
fn klines_orders_the_parameters() {
    let c = wallet_client();
    let req = klines(&c, &"BTCUSDT".to_owned(), &"1m".to_owned(), Some(1), Some(2), Some(3));
    assert_eq!(
        req.url,
        "https://api.binance.com/api/v3/klines?symbol=BTCUSDT&interval=1m\
         &startTime=1&endTime=2&limit=3"
    );
}

#[test]
fn exchange_info_symbols_concatenates_between_brackets() {
    let c = wallet_client();
    let req = exchange_info_symbols(&c, &vec!["BTCUSDT".to_owned(), "ETHUSDT".to_owned()]);
    assert_eq!(
        req.url,
        "https://api.binance.com/api/v3/exchangeInfo?symbol=[BTCUSDTETHUSDT]"
    );
}

#[test]
fn ticker_24hr_without_a_symbol_sends_no_parameters() {
    let c = wallet_client();
    let req = ticker_24hr(&c, &None);
    assert_eq!(req.url, "https://api.binance.com/api/v3/ticker/24hr?");
}

#[test]
fn get_timestamp_is_epoch_milliseconds() {
    let ts = get_timestamp();
    // Between 2020-01-01 and 2100-01-01 on any sane clock.
    assert!(ts > 1_577_836_800_000);
    assert!(ts < 4_102_444_800_000);
}

#[test]
fn timestamp_from_clock_passes_the_reading_through() {
    assert_eq!(timestamp_from_clock(Some(1_620_000_000_123)), 1_620_000_000_123);
    assert_eq!(timestamp_from_clock(None), 0);
}

#[test]
fn transfer_type_writes_its_own_name() {
    assert_eq!(EAssetTransferType::MAIN_UMFUTURE.as_string(), "MAIN_UMFUTURE");
    assert_eq!(
        EAssetTransferType::ISOLATEDMARGIN_ISOLATEDMARGIN.as_string(),
        "ISOLATEDMARGIN_ISOLATEDMARGIN"
    );
    assert_eq!(EAssetTransferType::CMFUTURE_FUNDING.as_string(), "CMFUTURE_FUNDING");
}

#[test]
fn system_status_is_unsigned() {
    let c = wallet_client();
    let req = system_status(&c);
    assert_eq!(req.url, "https://api.binance.com/sapi/v1/system/status");
    assert!(!req.url.contains("signature"));
}

#[test]
fn capital_all_signs_the_timestamp_alone() {
    let c = wallet_client();
    let req = capital_all(&c, 1600000000000);
    assert_eq!(
        req.url,
        "https://api.binance.com/sapi/v1/capital/config/getall?timestamp=1600000000000\
         &signature=7323ac376346a81293ab1e62ef7dc59e170ac7e1de9c5633c74d0c61c4d63d4c"
    );
}

#[test]
fn account_snapshot_orders_the_parameters() {
    let c = wallet_client();
    let req = account_snapshot(&c, &"SPOT".to_owned(), Some(1), Some(2), Some(3), 1600000000000);
    assert!(req.url.starts_with(
        "https://api.binance.com/sapi/v1/accountSnapshot?type=SPOT\
         &startTime=1&endTime=2&limit=3&timestamp=1600000000000&signature="
    ));
}

#[test]
fn asset_dust_repeats_the_asset_key_inside_the_value() {
    let c = wallet_client();
    let req = asset_dust(&c, &vec!["BTC", "ETH"], 1600000000000);
    assert_eq!(req.method, HttpMethod::Post);
    assert!(req.body.starts_with(
        "asset=asset=BTC&asset=ETH&timestamp=1600000000000&signature="
    ));
}

#[test]
fn capital_withdraw_orders_all_optional_parameters() {
    let c = wallet_client();
    let req = capital_withdraw(
        &c,
        "BTC",
        "0.5",
        "bc1qaddress",
        &Some("order-1"),
        &Some("BTC"),
        &Some("tag"),
        &Some(true),
        &Some("label"),
        &Some(0),
        1600000000000,
    );
    assert_eq!(req.method, HttpMethod::Post);
    assert!(req.body.starts_with(
        "coin=BTC&address=bc1qaddress&amount=0.5&withdrawOrderId=order-1&network=BTC\
         &addressTag=tag&transactionFeeFlag=true&name=label&walletType=0\
         &timestamp=1600000000000&signature="
    ));
}

#[test]
fn make_asset_transfer_writes_the_type_first() {
    let c = wallet_client();
    let req = make_asset_transfer(
        &c,
        EAssetTransferType::MAIN_MARGIN,
        "USDT",
        "12.5",
        &None,
        &None,
        1600000000000,
    );
    assert!(req.body.starts_with("type=MAIN_MARGIN&asset=USDT&amount=12.5&timestamp="));
}

#[test]
fn get_asset_transfer_orders_the_parameters() {
    let c = wallet_client();
    let req = get_asset_transfer(
        &c,
        EAssetTransferType::MARGIN_MAIN,
        Some(5),
        Some(6),
        Some(-1),
        Some(10),
        &None,
        &Some("BTCUSDT"),
        1600000000000,
    );
    assert!(req.url.starts_with(
        "https://api.binance.com/sapi/v1/asset/transfer?type=MARGIN_MAIN\
         &startTime=5&endTime=6&current=-1&size=10&toSymbol=BTCUSDT&timestamp="
    ));
}
