//! The client and the authenticated-request pipeline: credential gating at
//! construction, transport selection (direct or proxied), and the assembly
//! of signed and unsigned HTTP requests.

use vstd::prelude::*;
use vstd::string::StringExecFns;

use crate::params::{
    RequestParam, ParamView, params_view, spec_params_string, spec_pair_string, spec_u64_string,
    param2string, u64_to_string, lemma_params_view_push, lemma_params_string_push,
};
use crate::signer::{get_signature, spec_signature};

verus! {

/// A required credential was missing (or empty) at construction time.
/// Construction fails fast and no partially initialized client exists.
#[derive(Debug, Clone, Copy, PartialEq, Eq, Structural)]
pub enum CredentialError {
    MissingApiKey,
    MissingSecretKey,
}

/// The message reported for each missing credential.
pub open spec fn spec_credential_error_message(e: CredentialError) -> Seq<char> {
    match e {
        CredentialError::MissingApiKey => "APIKEY not found"@,
        CredentialError::MissingSecretKey => "SECRETKEY not found"@,
    }
}

impl CredentialError {
    /// The error's message, naming the missing variable.
    pub fn message(&self) -> (r: String)
        ensures
            r@ == spec_credential_error_message(*self),
    {
        match self {
            CredentialError::MissingApiKey => "APIKEY not found".to_owned(),
            CredentialError::MissingSecretKey => "SECRETKEY not found".to_owned(),
        }
    }
}

/// A credential value is usable when it is present and non-empty.
pub open spec fn credential_usable(c: Option<String>) -> bool {
    match c {
        Some(k) => k@.len() > 0,
        None => false,
    }
}

/// The two HTTP methods the pipeline issues.
#[derive(Debug, Clone, Copy, PartialEq, Eq, Structural)]
pub enum HttpMethod {
    Get,
    Post,
}

/// One HTTP header, as a name/value pair.
#[derive(Debug)]
pub struct Header {
    pub name: String,
    pub value: String,
}

/// The mathematical content of a `Header`.
#[verifier::ext_equal]
pub struct HeaderView {
    pub name: Seq<char>,
    pub value: Seq<char>,
}

impl View for Header {
    type V = HeaderView;

    open spec fn view(&self) -> HeaderView {
        HeaderView { name: self.name@, value: self.value@ }
    }
}

/// The views of a header list.
pub open spec fn headers_view(hs: Seq<Header>) -> Seq<HeaderView> {
    hs.map_values(|h: Header| h@)
}

/// A fully assembled HTTP request, ready for an unverified transport to
/// dispatch: method, absolute URL (query string included for GET), headers,
/// and a form-encoded body (empty for GET).
#[derive(Debug)]
pub struct HttpRequest {
    pub method: HttpMethod,
    pub url: String,
    pub headers: Vec<Header>,
    pub body: String,
}

/// The mathematical content of an `HttpRequest`.
#[verifier::ext_equal]
pub struct HttpRequestView {
    pub method: HttpMethod,
    pub url: Seq<char>,
    pub headers: Seq<HeaderView>,
    pub body: Seq<char>,
}

impl View for HttpRequest {
    type V = HttpRequestView;

    open spec fn view(&self) -> HttpRequestView {
        HttpRequestView {
            method: self.method,
            url: self.url@,
            headers: headers_view(self.headers@),
            body: self.body@,
        }
    }
}

/// The fixed base URL all requests are sent to.
pub open spec fn spec_base_url() -> Seq<char> {
    "https://api.binance.com"@
}

/// The exchange's API-key header; attached to every request, signed or not
/// (the exchange ignores it on public endpoints).
pub open spec fn spec_api_key_header(api_key: Seq<char>) -> HeaderView {
    HeaderView { name: "X-MBX-APIKEY"@, value: api_key }
}

/// One logical connection configuration: credentials, the fixed base URL,
/// and the transport variant chosen at construction (direct when `proxy` is
/// `None`, tunneled through the given forward proxy otherwise). Stateless
/// after construction; every request is assembled from these fields alone.
#[derive(Debug)]
pub struct Client {
    api_key: String,
    secret_key: String,
    base_url: String,
    proxy: Option<String>,
}

/// The mathematical content of a `Client`.
#[verifier::ext_equal]
pub struct ClientView {
    pub api_key: Seq<char>,
    pub secret_key: Seq<char>,
    pub base_url: Seq<char>,
    pub proxy: Option<Seq<char>>,
}

impl View for Client {
    type V = ClientView;

    closed spec fn view(&self) -> ClientView {
        ClientView {
            api_key: self.api_key@,
            secret_key: self.secret_key@,
            base_url: self.base_url@,
            proxy: match self.proxy {
                Some(p) => Some(p@),
                None => None,
            },
        }
    }
}

/// The `timestamp` parameter appended to every authenticated request.
pub open spec fn spec_timestamp_param(ts: u64) -> ParamView {
    ParamView { key: "timestamp"@, value: spec_u64_string(ts as nat) }
}

/// The caller's parameters with the timestamp appended last, preserving the
/// caller's order.
pub open spec fn spec_params_with_timestamp(ps: Seq<ParamView>, ts: u64) -> Seq<ParamView> {
    ps.push(spec_timestamp_param(ts))
}

/// The canonical string: the encoding of the caller's parameters plus the
/// timestamp. This exact string is the HMAC input and, with only the
/// signature parameter appended, the wire string.
pub open spec fn spec_canonical_string(ps: Seq<ParamView>, ts: u64) -> Seq<char> {
    spec_params_string(spec_params_with_timestamp(ps, ts))
}

/// The trailing `signature` parameter: the canonical string signed with the
/// secret key.
pub open spec fn spec_signature_param(secret: Seq<char>, ps: Seq<ParamView>, ts: u64) -> ParamView {
    ParamView {
        key: "signature"@,
        value: spec_signature(spec_canonical_string(ps, ts), secret),
    }
}

/// The full transmitted parameter list of an authenticated request: caller
/// parameters, then `timestamp`, then `signature`.
pub open spec fn spec_signed_params(secret: Seq<char>, ps: Seq<ParamView>, ts: u64) -> Seq<
    ParamView,
> {
    spec_params_with_timestamp(ps, ts).push(spec_signature_param(secret, ps, ts))
}

/// An unauthenticated GET request: no query string, no signature.
pub open spec fn spec_get_request(c: ClientView, path: Seq<char>) -> HttpRequestView {
    HttpRequestView {
        method: HttpMethod::Get,
        url: c.base_url + path,
        headers: seq![spec_api_key_header(c.api_key)],
        body: Seq::empty(),
    }
}

/// A GET request carrying the given parameters as its query string.
pub open spec fn spec_get_with_param_request(
    c: ClientView,
    path: Seq<char>,
    ps: Seq<ParamView>,
) -> HttpRequestView {
    HttpRequestView {
        method: HttpMethod::Get,
        url: c.base_url + path + seq!['?'] + spec_params_string(ps),
        headers: seq![spec_api_key_header(c.api_key)],
        body: Seq::empty(),
    }
}

/// A POST request carrying the given parameters as its form-encoded body.
pub open spec fn spec_post_request(c: ClientView, path: Seq<char>, ps: Seq<ParamView>) -> HttpRequestView {
    HttpRequestView {
        method: HttpMethod::Post,
        url: c.base_url + path,
        headers: seq![spec_api_key_header(c.api_key)],
        body: spec_params_string(ps),
    }
}

/// An authenticated GET request: the caller's parameters with timestamp and
/// signature appended form the query string.
pub open spec fn spec_get_signed_request(
    c: ClientView,
    path: Seq<char>,
    ps: Seq<ParamView>,
    ts: u64,
) -> HttpRequestView {
    spec_get_with_param_request(c, path, spec_signed_params(c.secret_key, ps, ts))
}

/// An authenticated POST request: the caller's parameters with timestamp and
/// signature appended form the body.
pub open spec fn spec_post_signed_request(
    c: ClientView,
    path: Seq<char>,
    ps: Seq<ParamView>,
    ts: u64,
) -> HttpRequestView {
    spec_post_request(c, path, spec_signed_params(c.secret_key, ps, ts))
}

impl Client {
    /// Constructs a client with the direct (non-proxied) transport. Both
    /// credentials must be present and non-empty; otherwise the matching
    /// `CredentialError` is returned and no client exists. The credential
    /// values are handed in by the caller; reading them from the process
    /// environment belongs to the outer, unverified layer.
    pub fn new(api_key: Option<String>, secret_key: Option<String>) -> (r: Result<
        Client,
        CredentialError,
    >)
        ensures
            r is Ok <==> credential_usable(api_key) && credential_usable(secret_key),
            r matches Ok(c) ==> c@ == (ClientView {
                api_key: api_key->0@,
                secret_key: secret_key->0@,
                base_url: spec_base_url(),
                proxy: None,
            }),
            r matches Err(e) ==> (e == CredentialError::MissingApiKey <==> !credential_usable(
                api_key,
            )),
            r matches Err(e) ==> (e == CredentialError::MissingSecretKey <==> credential_usable(
                api_key,
            ) && !credential_usable(secret_key)),
    {
        let (api, secret) = Self::check_credentials(api_key, secret_key)?;
        Ok(
            Client {
                api_key: api,
                secret_key: secret,
                base_url: "https://api.binance.com".to_owned(),
                proxy: None,
            },
        )
    }

    /// Constructs a client whose transport tunnels every request through the
    /// given forward proxy. Credential gating is identical to `new`.
    pub fn with_proxy(proxy_uri: String, api_key: Option<String>, secret_key: Option<String>) -> (r:
        Result<Client, CredentialError>)
        ensures
            r is Ok <==> credential_usable(api_key) && credential_usable(secret_key),
            r matches Ok(c) ==> c@ == (ClientView {
                api_key: api_key->0@,
                secret_key: secret_key->0@,
                base_url: spec_base_url(),
                proxy: Some(proxy_uri@),
            }),
            r matches Err(e) ==> (e == CredentialError::MissingApiKey <==> !credential_usable(
                api_key,
            )),
            r matches Err(e) ==> (e == CredentialError::MissingSecretKey <==> credential_usable(
                api_key,
            ) && !credential_usable(secret_key)),
    {
        let (api, secret) = Self::check_credentials(api_key, secret_key)?;
        Ok(
            Client {
                api_key: api,
                secret_key: secret,
                base_url: "https://api.binance.com".to_owned(),
                proxy: Some(proxy_uri),
            },
        )
    }

    /// Validates the two credential values, reporting which one is missing.
    fn check_credentials(api_key: Option<String>, secret_key: Option<String>) -> (r: Result<
        (String, String),
        CredentialError,
    >)
        ensures
            r is Ok <==> credential_usable(api_key) && credential_usable(secret_key),
            r matches Ok(ks) ==> ks.0@ == api_key->0@ && ks.1@ == secret_key->0@,
            r matches Err(e) ==> (e == CredentialError::MissingApiKey <==> !credential_usable(
                api_key,
            )),
            r matches Err(e) ==> (e == CredentialError::MissingSecretKey <==> credential_usable(
                api_key,
            ) && !credential_usable(secret_key)),
    {
        let api = match api_key {
            Some(k) => {
                if k.as_str().is_empty() {
                    return Err(CredentialError::MissingApiKey);
                }
                k
            },
            None => {
                return Err(CredentialError::MissingApiKey);
            },
        };
        let secret = match secret_key {
            Some(k) => {
                if k.as_str().is_empty() {
                    return Err(CredentialError::MissingSecretKey);
                }
                k
            },
            None => {
                return Err(CredentialError::MissingSecretKey);
            },
        };
        Ok((api, secret))
    }

    /// Replaces both credentials atomically; the transport is unchanged.
    pub fn set_api_key(&mut self, api_key: String, secret_key: String)
        ensures
            final(self)@ == (ClientView {
                api_key: api_key@,
                secret_key: secret_key@,
                ..old(self)@
            }),
    {
        self.api_key = api_key;
        self.secret_key = secret_key;
    }

    /// The secret key used for signing.
    pub fn get_secret_key(&self) -> (r: &String)
        ensures
            r@ == self@.secret_key,
    {
        &self.secret_key
    }

    /// Whether the proxied transport variant was selected at construction.
    pub fn is_proxied(&self) -> (r: bool)
        ensures
            r == (self@.proxy is Some),
    {
        self.proxy.is_some()
    }

    /// The forward proxy's URI, when the proxied transport was selected.
    pub fn proxy_uri(&self) -> (r: &Option<String>)
        ensures
            r is Some <==> self@.proxy is Some,
            r matches Some(u) ==> u@ == self@.proxy->0,
    {
        &self.proxy
    }

    /// The API-key header attached to every outgoing request.
    fn api_key_header(&self) -> (r: Header)
        ensures
            r@ == spec_api_key_header(self@.api_key),
    {
        Header { name: "X-MBX-APIKEY".to_owned(), value: self.api_key.clone() }
    }

    /// Builds an unauthenticated GET request for `base_url + uri`, with the
    /// API-key header and nothing else: no query string, no signature.
    pub fn get(&self, uri: &str) -> (r: HttpRequest)
        ensures
            r@ == spec_get_request(self@, uri@),
    {
        let mut url = self.base_url.clone();
        url.append(uri);
        let mut headers: Vec<Header> = Vec::new();
        headers.push(self.api_key_header());
        let r = HttpRequest { method: HttpMethod::Get, url, headers, body: String::new() };
        proof {
            assert(r@.headers =~= spec_get_request(self@, uri@).headers);
            assert(r@ =~= spec_get_request(self@, uri@));
        }
        r
    }

    /// Builds a GET request whose query string is the given parameter list,
    /// encoded in order. The query string placed on the URL is exactly the
    /// codec's output for `param`.
    pub fn get_with_param(&self, uri: &str, param: &Vec<RequestParam>) -> (r: HttpRequest)
        ensures
            r@ == spec_get_with_param_request(self@, uri@, params_view(param@)),
    {
        let param_str = param2string(param);
        let mut url = self.base_url.clone();
        url.append(uri);
        url.append("?");
        url.append(param_str.as_str());
        let mut headers: Vec<Header> = Vec::new();
        headers.push(self.api_key_header());
        let r = HttpRequest { method: HttpMethod::Get, url, headers, body: String::new() };
        proof {
            reveal_strlit("?");
            let s = spec_get_with_param_request(self@, uri@, params_view(param@));
            assert(r@.url =~= s.url);
            assert(r@.headers =~= s.headers);
            assert(r@ =~= s);
        }
        r
    }

    /// Builds a POST request whose body is the given parameter list, encoded
    /// in order. The body is exactly the codec's output for `param`.
    pub fn post(&self, uri: &str, param: &Vec<RequestParam>) -> (r: HttpRequest)
        ensures
            r@ == spec_post_request(self@, uri@, params_view(param@)),
    {
        let param_str = param2string(param);
        let mut url = self.base_url.clone();
        url.append(uri);
        let mut headers: Vec<Header> = Vec::new();
        headers.push(self.api_key_header());
        let r = HttpRequest { method: HttpMethod::Post, url, headers, body: param_str };
        proof {
            let s = spec_post_request(self@, uri@, params_view(param@));
            assert(r@.headers =~= s.headers);
            assert(r@ =~= s);
        }
        r
    }

    /// Appends the `timestamp` parameter and then the `signature` parameter
    /// to the caller's list. The signature is computed over the encoding of
    /// the list as it stands after the timestamp is appended — the canonical
    /// string — which is byte-identical to what the transmitted query or
    /// body will carry before `&signature=...`.
    pub fn signed_params(&self, param: Vec<RequestParam>, timestamp: u64) -> (r: Vec<RequestParam>)
        ensures
            params_view(r@) == spec_signed_params(self@.secret_key, params_view(param@), timestamp),
    {
        let ghost pv = params_view(param@);
        let mut p = param;
        let ts_param = RequestParam { key: "timestamp".to_owned(), value: u64_to_string(timestamp) };
        proof {
            lemma_params_view_push(p@, ts_param);
            assert(ts_param@ == spec_timestamp_param(timestamp));
        }
        p.push(ts_param);
        assert(params_view(p@) == spec_params_with_timestamp(pv, timestamp));
        let canonical = param2string(&p);
        let signature = get_signature(&canonical, &self.secret_key);
        let sig_param = RequestParam { key: "signature".to_owned(), value: signature };
        proof {
            lemma_params_view_push(p@, sig_param);
            assert(sig_param@ == spec_signature_param(self@.secret_key, pv, timestamp));
        }
        p.push(sig_param);
        p
    }

    /// Builds an authenticated GET request: parameters, timestamp, and
    /// signature, in that order, as the query string.
    pub fn get_signed(&self, uri: &str, param: Vec<RequestParam>, timestamp: u64) -> (r:
        HttpRequest)
        ensures
            r@ == spec_get_signed_request(self@, uri@, params_view(param@), timestamp),
    {
        let p = self.signed_params(param, timestamp);
        self.get_with_param(uri, &p)
    }

    /// Builds an authenticated POST request: parameters, timestamp, and
    /// signature, in that order, as the form-encoded body.
    pub fn post_signed(&self, uri: &str, param: Vec<RequestParam>, timestamp: u64) -> (r:
        HttpRequest)
        ensures
            r@ == spec_post_signed_request(self@, uri@, params_view(param@), timestamp),
    {
        let p = self.signed_params(param, timestamp);
        self.post(uri, &p)
    }
}

/// Appends transport-injected headers (a forward proxy's, in practice) to a
/// request, leaving method, URL, and body untouched. A client constructed
/// without a proxy never has this applied, so its requests carry exactly the
/// headers the pipeline put there.
pub fn with_proxy_headers(req: HttpRequest, extra: &Vec<Header>) -> (r: HttpRequest)
    ensures
        r@.method == req@.method,
        r@.url == req@.url,
        r@.body == req@.body,
        r@.headers == req@.headers + headers_view(extra@),
{
    let mut out = req;
    let ghost orig = out@.headers;
    let mut i: usize = 0;
    while i < extra.len()
        invariant
            i <= extra@.len(),
            out@.method == req@.method,
            out@.url == req@.url,
            out@.body == req@.body,
            out@.headers == orig + headers_view(extra@).take(i as int),
        decreases extra@.len() - i,
    {
        let h = Header { name: extra[i].name.clone(), value: extra[i].value.clone() };
        proof {
            lemma_headers_view_push(out.headers@, h);
            assert((orig + headers_view(extra@).take(i as int)).push(h@) =~= orig + headers_view(
                extra@,
            ).take(i + 1));
        }
        out.headers.push(h);
        i += 1;
    }
    proof {
        assert(orig + headers_view(extra@).take(extra@.len() as int) =~= orig + headers_view(
            extra@,
        ));
    }
    out
}

/// Mapping a header list to its views commutes with `push`.
pub proof fn lemma_headers_view_push(hs: Seq<Header>, h: Header)
    ensures
        headers_view(hs.push(h)) == headers_view(hs).push(h@),
{
    assert(headers_view(hs.push(h)) =~= headers_view(hs).push(h@));
}

/// Canonical/wire equality: the transmitted parameter string of an
/// authenticated request is the canonical string — the exact HMAC input —
/// followed by `&signature=` and the signature of that same canonical
/// string. The signed bytes and the transmitted bytes differ only by the
/// appended signature parameter.
pub proof fn lemma_canonical_wire_equality(secret: Seq<char>, ps: Seq<ParamView>, ts: u64)
    ensures
        spec_params_string(spec_signed_params(secret, ps, ts)) == spec_canonical_string(ps, ts)
            + seq!['&'] + "signature"@ + seq!['='] + spec_signature(
            spec_canonical_string(ps, ts),
            secret,
        ),
{
    let with_ts = spec_params_with_timestamp(ps, ts);
    let sig = spec_signature_param(secret, ps, ts);
    lemma_params_string_push(with_ts, sig);
    assert(spec_params_string(spec_signed_params(secret, ps, ts)) =~= spec_canonical_string(ps, ts)
        + seq!['&'] + "signature"@ + seq!['='] + spec_signature(
        spec_canonical_string(ps, ts),
        secret,
    ));
}

} // verus!
