use binance_sdk_rs::params::{
    bool_to_string, i32_to_string, param2string, u64_to_string, RequestParam,
};

fn pair(key: &str, value: &str) -> RequestParam {
    RequestParam { key: key.to_owned(), value: value.to_owned() }
}

#[test]
fn param2string_preserves_order() {
    let params = vec![pair("b", "2"), pair("a", "1")];
    assert_eq!(param2string(&params), "b=2&a=1");
}

#[test]
fn param2string_empty_list_is_empty_string() {
    let params: Vec<RequestParam> = Vec::new();
    assert_eq!(param2string(&params), "");
}

#[test]
fn param2string_single_pair_has_no_separator() {
    let params = vec![pair("symbol", "BTCUSDT")];
    assert_eq!(param2string(&params), "symbol=BTCUSDT");
}

#[test]
fn param2string_keeps_duplicate_keys() {
    let params = vec![pair("asset", "BTC"), pair("asset", "ETH")];
    assert_eq!(param2string(&params), "asset=BTC&asset=ETH");
}

#[test]
fn param2string_does_not_escape() {
    let params = vec![pair("k", "a b&c=d")];
    assert_eq!(param2string(&params), "k=a b&c=d");
}

#[test]
fn u64_to_string_matches_decimal() {
    assert_eq!(u64_to_string(0), "0");
    assert_eq!(u64_to_string(1620000000000), "1620000000000");
    assert_eq!(u64_to_string(u64::MAX), "18446744073709551615");
}

#[test]
fn i32_to_string_handles_signs() {
    assert_eq!(i32_to_string(0), "0");
    assert_eq!(i32_to_string(42), "42");
    assert_eq!(i32_to_string(-5), "-5");
    assert_eq!(i32_to_string(i32::MIN), "-2147483648");
}

#[test]
fn bool_to_string_words() {
    assert_eq!(bool_to_string(true), "true");
    assert_eq!(bool_to_string(false), "false");
}
