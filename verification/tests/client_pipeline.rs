use binance_sdk_rs::client::{with_proxy_headers, Client, CredentialError, Header, HttpMethod};
use binance_sdk_rs::params::RequestParam;

fn test_client() -> Client {
    Client::new(Some("myapikey".to_owned()), Some("mysecret".to_owned())).unwrap()
}

#[test]
fn new_without_api_key_fails() {
    let r = Client::new(None, Some("s".to_owned()));
    assert!(matches!(r, Err(CredentialError::MissingApiKey)));
    assert_eq!(r.unwrap_err().message(), "APIKEY not found");
}

#[test]
fn new_without_secret_key_fails() {
    let r = Client::new(Some("k".to_owned()), None);
    assert!(matches!(r, Err(CredentialError::MissingSecretKey)));
    assert_eq!(r.unwrap_err().message(), "SECRETKEY not found");
}

#[test]
fn new_without_either_key_names_the_api_key() {
    let r = Client::new(None, None);
    assert!(matches!(r, Err(CredentialError::MissingApiKey)));
}

#[test]
fn new_with_empty_credential_fails() {
    let r = Client::new(Some(String::new()), Some("s".to_owned()));
    assert!(matches!(r, Err(CredentialError::MissingApiKey)));
    let r = Client::new(Some("k".to_owned()), Some(String::new()));
    assert!(matches!(r, Err(CredentialError::MissingSecretKey)));
}

#[test]
fn with_proxy_gates_credentials_too() {
    let r = Client::with_proxy("http://127.0.0.1:7890".to_owned(), None, None);
    assert!(matches!(r, Err(CredentialError::MissingApiKey)));
}

#[test]
fn new_selects_direct_transport() {
    let c = test_client();
    assert!(!c.is_proxied());
    assert!(c.proxy_uri().is_none());
    assert_eq!(c.get_secret_key().as_str(), "mysecret");
}

#[test]
fn with_proxy_selects_proxied_transport() {
    let c = Client::with_proxy(
        "http://127.0.0.1:7890".to_owned(),
        Some("k".to_owned()),
        Some("s".to_owned()),
    )
    .unwrap();
    assert!(c.is_proxied());
    assert_eq!(c.proxy_uri().as_deref(), Some("http://127.0.0.1:7890"));
}

#[test]
fn set_api_key_replaces_both_credentials() {
    let mut c = test_client();
    c.set_api_key("k2".to_owned(), "s2".to_owned());
    assert_eq!(c.get_secret_key().as_str(), "s2");
}

#[test]
fn unsigned_get_carries_no_signature() {
    let c = test_client();
    let req = c.get("/api/v3/ping");
    assert_eq!(req.method, HttpMethod::Get);
    assert_eq!(req.url, "https://api.binance.com/api/v3/ping");
    assert_eq!(req.body, "");
    assert!(!req.url.contains("signature"));
    assert!(!req.url.contains('?'));
    assert_eq!(req.headers.len(), 1);
    assert_eq!(req.headers[0].name, "X-MBX-APIKEY");
    assert_eq!(req.headers[0].value, "myapikey");
}

#[test]
fn get_with_param_puts_the_encoding_on_the_url() {
    let c = test_client();
    let params = vec![
        RequestParam { key: "b".to_owned(), value: "2".to_owned() },
        RequestParam { key: "a".to_owned(), value: "1".to_owned() },
    ];
    let req = c.get_with_param("/api/v3/depth", &params);
    assert_eq!(req.url, "https://api.binance.com/api/v3/depth?b=2&a=1");
    assert_eq!(req.body, "");
}

#[test]
fn post_puts_the_encoding_in_the_body() {
    let c = test_client();
    let params = vec![RequestParam { key: "a".to_owned(), value: "1".to_owned() }];
    let req = c.post("/sapi/v1/asset/dust", &params);
    assert_eq!(req.method, HttpMethod::Post);
    assert_eq!(req.url, "https://api.binance.com/sapi/v1/asset/dust");
    assert_eq!(req.body, "a=1");
}

#[test]
fn get_signed_transmits_exactly_the_signed_string() {
    let c = test_client();
    let params = vec![RequestParam { key: "symbol".to_owned(), value: "BTCUSDT".to_owned() }];
    let req = c.get_signed("/api/v3/account", params, 1620000000000);
    // The query is the canonical string (parameters plus timestamp) followed
    // only by the appended signature of that same string.
    assert_eq!(
        req.url,
        "https://api.binance.com/api/v3/account?symbol=BTCUSDT&timestamp=1620000000000\
         &signature=27566ea6e5118fa45996d9223167130952077c578d262ba6ea193007911b8f33"
    );
    assert_eq!(req.body, "");
}

#[test]
fn post_signed_transmits_exactly_the_signed_string() {
    let c = test_client();
    let params = vec![RequestParam { key: "symbol".to_owned(), value: "BTCUSDT".to_owned() }];
    let req = c.post_signed("/sapi/v1/order", params, 1620000000000);
    assert_eq!(req.url, "https://api.binance.com/sapi/v1/order");
    assert_eq!(
        req.body,
        "symbol=BTCUSDT&timestamp=1620000000000\
         &signature=27566ea6e5118fa45996d9223167130952077c578d262ba6ea193007911b8f33"
    );
}

#[test]
fn signed_params_appends_timestamp_then_signature() {
    let c = test_client();
    let params = vec![RequestParam { key: "symbol".to_owned(), value: "BTCUSDT".to_owned() }];
    let signed = c.signed_params(params, 1620000000000);
    assert_eq!(signed.len(), 3);
    assert_eq!(signed[0].key, "symbol");
    assert_eq!(signed[0].value, "BTCUSDT");
    assert_eq!(signed[1].key, "timestamp");
    assert_eq!(signed[1].value, "1620000000000");
    assert_eq!(signed[2].key, "signature");
    assert_eq!(
        signed[2].value,
        "27566ea6e5118fa45996d9223167130952077c578d262ba6ea193007911b8f33"
    );
}

#[test]
fn proxy_headers_are_appended_after_the_pipeline_headers() {
    let c = test_client();
    let req = c.get("/api/v3/ping");
    let extra = vec![Header {
        name: "proxy-authorization".to_owned(),
        value: "proxy-credential-value".to_owned(),
    }];
    let merged = with_proxy_headers(req, &extra);
    assert_eq!(merged.headers.len(), 2);
    assert_eq!(merged.headers[0].name, "X-MBX-APIKEY");
    assert_eq!(merged.headers[1].name, "proxy-authorization");
    assert_eq!(merged.url, "https://api.binance.com/api/v3/ping");
}

#[test]
fn direct_requests_carry_only_pipeline_headers() {
    let c = test_client();
    let req = c.get("/api/v3/ping");
    assert_eq!(req.headers.len(), 1);
}
