//! Market-data endpoints: each call assembles the request for one public
//! endpoint, with its parameters encoded in a fixed order.

use vstd::prelude::*;
use vstd::string::StringExecFns;

use crate::client::{Client, HttpRequest, spec_get_request, spec_get_with_param_request};
use crate::params::{
    ParamView, empty_params, push_param, push_opt_u64, push_opt_string, u64_to_string,
    spec_push_param, spec_push_opt, spec_opt_u64, spec_opt_string, spec_u64_string,
};

verus! {

/// A single `symbol` parameter.
pub open spec fn spec_symbol_params(symbol: Seq<char>) -> Seq<ParamView> {
    spec_push_param(Seq::empty(), "symbol"@, symbol)
}

/// An optional limit, capped at 1000 when present.
pub open spec fn spec_opt_limit_capped(v: Option<u32>) -> Option<Seq<char>> {
    match v {
        Some(l) => Some(spec_u64_string((if l > 1000 { 1000u32 } else { l }) as nat)),
        None => None,
    }
}

/// Connectivity test.
pub fn ping(client: &Client) -> (r: HttpRequest)
    ensures
        r@ == spec_get_request(client@, "/api/v3/ping"@),
{
    client.get("/api/v3/ping")
}

/// Server time.
pub fn time(client: &Client) -> (r: HttpRequest)
    ensures
        r@ == spec_get_request(client@, "/api/v3/time"@),
{
    client.get("/api/v3/time")
}

/// Exchange trading rules and symbol information, for all symbols.
pub fn exchange_info(client: &Client) -> (r: HttpRequest)
    ensures
        r@ == spec_get_request(client@, "/api/v3/exchangeInfo"@),
{
    client.get("/api/v3/exchangeInfo")
}

/// Exchange information for one symbol.
pub fn exchange_info_symbol(client: &Client, symbol: &String) -> (r: HttpRequest)
    ensures
        r@ == spec_get_with_param_request(
            client@,
            "/api/v3/exchangeInfo"@,
            spec_symbol_params(symbol@),
        ),
{
    let mut param = empty_params();
    push_param(&mut param, "symbol", symbol.clone());
    client.get_with_param("/api/v3/exchangeInfo", &param)
}

/// The concatenation of a sequence of strings, in order.
pub open spec fn spec_concat_strings(ss: Seq<Seq<char>>) -> Seq<char>
    decreases ss.len(),
{
    if ss.len() == 0 {
        Seq::empty()
    } else {
        spec_concat_strings(ss.drop_last()) + ss.last()
    }
}

/// The views of a list of strings.
pub open spec fn strings_view(ss: Seq<String>) -> Seq<Seq<char>> {
    ss.map_values(|s: String| s@)
}

/// Exchange information for several symbols: the `symbol` value is the
/// symbols concatenated between `[` and `]`.
pub fn exchange_info_symbols(client: &Client, symbols: &Vec<String>) -> (r: HttpRequest)
    ensures
        r@ == spec_get_with_param_request(
            client@,
            "/api/v3/exchangeInfo"@,
            spec_symbol_params(
                "["@ + spec_concat_strings(strings_view(symbols@)) + "]"@,
            ),
        ),
{
    let ghost sv = strings_view(symbols@);
    let mut symbols_str = "[".to_owned();
    let mut i: usize = 0;
    while i < symbols.len()
        invariant
            i <= symbols@.len(),
            sv == strings_view(symbols@),
            symbols_str@ == "["@ + spec_concat_strings(sv.take(i as int)),
        decreases symbols@.len() - i,
    {
        symbols_str.append(symbols[i].as_str());
        proof {
            assert(sv.take(i + 1).drop_last() =~= sv.take(i as int));
            assert(sv.take(i + 1).last() == symbols@[i as int]@);
            assert(symbols_str@ =~= "["@ + spec_concat_strings(sv.take(i + 1)));
        }
        i += 1;
    }
    proof {
        assert(sv.take(symbols@.len() as int) =~= sv);
    }
    symbols_str.append("]");
    let mut param = empty_params();
    push_param(&mut param, "symbol", symbols_str);
    client.get_with_param("/api/v3/exchangeInfo", &param)
}

/// Whether a depth limit is one of the values the endpoint accepts.
pub open spec fn spec_depth_limit_ok(limit: u32) -> bool {
    limit == 5 || limit == 10 || limit == 20 || limit == 50 || limit == 100 || limit == 500
        || limit == 1000 || limit == 5000
}

/// Order book. The limit must be one of the listed values; any other limit
/// is rejected before a request is built.
pub fn depth(client: &Client, symbol: &String, limit: u32) -> (r: Result<HttpRequest, String>)
    ensures
        r is Ok <==> spec_depth_limit_ok(limit),
        r matches Ok(req) ==> req@ == spec_get_with_param_request(
            client@,
            "/api/v3/depth"@,
            spec_push_param(spec_symbol_params(symbol@), "limit"@, spec_u64_string(limit as nat)),
        ),
        r matches Err(e) ==> e@ == "limit must be one of [5, 10, 20, 50, 100, 500, 1000, 5000]"@,
{
    if !(limit == 5 || limit == 10 || limit == 20 || limit == 50 || limit == 100 || limit == 500
        || limit == 1000 || limit == 5000) {
        return Err("limit must be one of [5, 10, 20, 50, 100, 500, 1000, 5000]".to_owned());
    }
    let mut param = empty_params();
    push_param(&mut param, "symbol", symbol.clone());
    push_param(&mut param, "limit", u64_to_string(limit as u64));
    Ok(client.get_with_param("/api/v3/depth", &param))
}

/// Recent trades. Limits above 1000 are rejected.
pub fn trades(client: &Client, symbol: &String, limit: u32) -> (r: Result<HttpRequest, String>)
    ensures
        r is Ok <==> limit <= 1000,
        r matches Ok(req) ==> req@ == spec_get_with_param_request(
            client@,
            "/api/v3/trades"@,
            spec_push_param(spec_symbol_params(symbol@), "limit"@, spec_u64_string(limit as nat)),
        ),
        r matches Err(e) ==> e@ == "limit must be less than or equal to 1000"@,
{
    if limit > 1000 {
        return Err("limit must be less than or equal to 1000".to_owned());
    }
    let mut param = empty_params();
    push_param(&mut param, "symbol", symbol.clone());
    push_param(&mut param, "limit", u64_to_string(limit as u64));
    Ok(client.get_with_param("/api/v3/trades", &param))
}

/// Older trades. Limits above 1000 are rejected.
pub fn historical_trades(
    client: &Client,
    symbol: &String,
    limit: u32,
    from_id: Option<u64>,
) -> (r: Result<HttpRequest, String>)
    ensures
        r is Ok <==> limit <= 1000,
        r matches Ok(req) ==> req@ == spec_get_with_param_request(
            client@,
            "/api/v3/historicalTrades"@,
            spec_push_opt(
                spec_push_param(
                    spec_symbol_params(symbol@),
                    "limit"@,
                    spec_u64_string(limit as nat),
                ),
                "fromId"@,
                spec_opt_u64(from_id),
            ),
        ),
        r matches Err(e) ==> e@ == "limit must be less than or equal to 1000"@,
{
    if limit > 1000 {
        return Err("limit must be less than or equal to 1000".to_owned());
    }
    let mut param = empty_params();
    push_param(&mut param, "symbol", symbol.clone());
    push_param(&mut param, "limit", u64_to_string(limit as u64));
    push_opt_u64(&mut param, "fromId", from_id);
    Ok(client.get_with_param("/api/v3/historicalTrades", &param))
}

/// Compressed, aggregate trades. A limit above 1000 is silently capped at
/// 1000.
pub fn agg_trades(
    client: &Client,
    symbol: &String,
    from_id: Option<u64>,
    start_time: Option<u64>,
    end_time: Option<u64>,
    limit: Option<u32>,
) -> (r: HttpRequest)
    ensures
        r@ == spec_get_with_param_request(
            client@,
            "/api/v3/aggTrades"@,
            spec_push_opt(
                spec_push_opt(
                    spec_push_opt(
                        spec_push_opt(spec_symbol_params(symbol@), "fromId"@, spec_opt_u64(from_id)),
                        "startTime"@,
                        spec_opt_u64(start_time),
                    ),
                    "endTime"@,
                    spec_opt_u64(end_time),
                ),
                "limit"@,
                spec_opt_limit_capped(limit),
            ),
        ),
{
    let mut param = empty_params();
    push_param(&mut param, "symbol", symbol.clone());
    push_opt_u64(&mut param, "fromId", from_id);
    push_opt_u64(&mut param, "startTime", start_time);
    push_opt_u64(&mut param, "endTime", end_time);
    if let Some(l) = limit {
        let capped: u32 = if l > 1000 {
            1000
        } else {
            l
        };
        push_param(&mut param, "limit", u64_to_string(capped as u64));
    }
    client.get_with_param("/api/v3/aggTrades", &param)
}

/// Candlestick data for one symbol and interval. A limit above 1000 is
/// silently capped at 1000.
pub fn klines(
    client: &Client,
    symbol: &String,
    interval: &String,
    start_time: Option<u64>,
    end_time: Option<u64>,
    limit: Option<u32>,
) -> (r: HttpRequest)
    ensures
        r@ == spec_get_with_param_request(
            client@,
            "/api/v3/klines"@,
            spec_push_opt(
                spec_push_opt(
                    spec_push_opt(
                        spec_push_param(spec_symbol_params(symbol@), "interval"@, interval@),
                        "startTime"@,
                        spec_opt_u64(start_time),
                    ),
                    "endTime"@,
                    spec_opt_u64(end_time),
                ),
                "limit"@,
                spec_opt_limit_capped(limit),
            ),
        ),
{
    let mut param = empty_params();
    push_param(&mut param, "symbol", symbol.clone());
    push_param(&mut param, "interval", interval.clone());
    push_opt_u64(&mut param, "startTime", start_time);
    push_opt_u64(&mut param, "endTime", end_time);
    if let Some(l) = limit {
        let capped: u32 = if l > 1000 {
            1000
        } else {
            l
        };
        push_param(&mut param, "limit", u64_to_string(capped as u64));
    }
    client.get_with_param("/api/v3/klines", &param)
}

/// Current average price for one symbol.
pub fn avg_price(client: &Client, symbol: &String) -> (r: HttpRequest)
    ensures
        r@ == spec_get_with_param_request(
            client@,
            "/api/v3/avgPrice"@,
            spec_symbol_params(symbol@),
        ),
{
    let mut param = empty_params();
    push_param(&mut param, "symbol", symbol.clone());
    client.get_with_param("/api/v3/avgPrice", &param)
}

/// 24-hour price statistics, for one symbol or for all.
pub fn ticker_24hr(client: &Client, symbol: &Option<String>) -> (r: HttpRequest)
    ensures
        r@ == spec_get_with_param_request(
            client@,
            "/api/v3/ticker/24hr"@,
            spec_push_opt(Seq::empty(), "symbol"@, spec_opt_string(*symbol)),
        ),
{
    let mut param = empty_params();
    push_opt_string(&mut param, "symbol", symbol);
    client.get_with_param("/api/v3/ticker/24hr", &param)
}

/// Latest price, for one symbol or for all.
pub fn ticker_price(client: &Client, symbol: &Option<String>) -> (r: HttpRequest)
    ensures
        r@ == spec_get_with_param_request(
            client@,
            "/api/v3/ticker/price"@,
            spec_push_opt(Seq::empty(), "symbol"@, spec_opt_string(*symbol)),
        ),
{
    let mut param = empty_params();
    push_opt_string(&mut param, "symbol", symbol);
    client.get_with_param("/api/v3/ticker/price", &param)
}

/// Best order-book price and quantity, for one symbol or for all.
pub fn ticker_book(client: &Client, symbol: &Option<String>) -> (r: HttpRequest)
    ensures
        r@ == spec_get_with_param_request(
            client@,
            "/api/v3/ticker/bookTicker"@,
            spec_push_opt(Seq::empty(), "symbol"@, spec_opt_string(*symbol)),
        ),
{
    let mut param = empty_params();
    push_opt_string(&mut param, "symbol", symbol);
    client.get_with_param("/api/v3/ticker/bookTicker", &param)
}

} // verus!
