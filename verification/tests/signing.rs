use binance_sdk_rs::params::{param2string, RequestParam};
use binance_sdk_rs::signer::get_signature;

#[test]
fn signature_matches_reference_vector() {
    let params = vec![
        RequestParam { key: "symbol".to_owned(), value: "BTCUSDT".to_owned() },
        RequestParam { key: "timestamp".to_owned(), value: "1620000000000".to_owned() },
    ];
    let canonical = param2string(&params);
    assert_eq!(canonical, "symbol=BTCUSDT&timestamp=1620000000000");
    let signature = get_signature(&canonical, &"mysecret".to_owned());
    assert_eq!(
        signature,
        "27566ea6e5118fa45996d9223167130952077c578d262ba6ea193007911b8f33"
    );
}

#[test]
fn signature_is_deterministic() {
    let canonical = "symbol=BTCUSDT&timestamp=1620000000000".to_owned();
    let secret = "mysecret".to_owned();
    let first = get_signature(&canonical, &secret);
    let second = get_signature(&canonical, &secret);
    assert_eq!(first, second);
}

#[test]
fn signature_of_empty_message() {
    let signature = get_signature(&String::new(), &"mysecret".to_owned());
    assert_eq!(
        signature,
        "9074a74de0f34ece3f046403ae88d2eea400281da0ed6ebfa76c949016fa672d"
    );
}

#[test]
fn signature_is_lowercase_hex_of_length_64() {
    let signature = get_signature(&"a=1".to_owned(), &"k".to_owned());
    assert_eq!(signature.len(), 64);
    assert!(signature.chars().all(|c| c.is_ascii_digit() || ('a'..='f').contains(&c)));
}

#[test]
fn signature_depends_on_secret() {
    let canonical = "a=1".to_owned();
    let s1 = get_signature(&canonical, &"k1".to_owned());
    let s2 = get_signature(&canonical, &"k2".to_owned());
    assert_ne!(s1, s2);
}
