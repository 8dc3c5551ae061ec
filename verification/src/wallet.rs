//! Wallet endpoints: authenticated calls that carry a timestamp and an
//! HMAC signature, plus the timestamp provider they use.

use vstd::prelude::*;
use vstd::string::StringExecFns;

use crate::client::{
    Client, HttpRequest, spec_get_request, spec_get_signed_request, spec_post_signed_request,
};
use crate::params::{
    empty_params, push_param, push_opt_u64, push_opt_u32, push_opt_u8, push_opt_i32, push_opt_str,
    push_opt_bool, spec_push_param, spec_push_opt, spec_opt_u64, spec_opt_u32, spec_opt_u8,
    spec_opt_i32, spec_opt_str, spec_opt_bool,
};

verus! {

/// The direction of an internal asset transfer, as the exchange names it.
#[derive(Debug, Clone, Copy, PartialEq, Eq, Structural)]
#[allow(non_camel_case_types)]
pub enum EAssetTransferType {
    MAIN_UMFUTURE,
    MAIN_CMFUTURE,
    MAIN_MARGIN,
    UMFUTURE_MAIN,
    UMFUTURE_MARGIN,
    CMFUTURE_MAIN,
    MARGIN_MAIN,
    MARGIN_UMFUTURE,
    MARGIN_CMFUTURE,
    CMFUTURE_MARGIN,
    ISOLATEDMARGIN_MARGIN,
    MARGIN_ISOLATEDMARGIN,
    ISOLATEDMARGIN_ISOLATEDMARGIN,
    MAIN_FUNDING,
    FUNDING_MAIN,
    FUNDING_UMFUTURE,
    UMFUTURE_FUNDING,
    MARGIN_FUNDING,
    FUNDING_MARGIN,
    FUNDING_CMFUTURE,
    CMFUTURE_FUNDING,
}

/// The wire spelling of a transfer direction: the variant's own name.
pub open spec fn spec_transfer_type_string(t: EAssetTransferType) -> Seq<char> {
    match t {
        EAssetTransferType::MAIN_UMFUTURE => "MAIN_UMFUTURE"@,
        EAssetTransferType::MAIN_CMFUTURE => "MAIN_CMFUTURE"@,
        EAssetTransferType::MAIN_MARGIN => "MAIN_MARGIN"@,
        EAssetTransferType::UMFUTURE_MAIN => "UMFUTURE_MAIN"@,
        EAssetTransferType::UMFUTURE_MARGIN => "UMFUTURE_MARGIN"@,
        EAssetTransferType::CMFUTURE_MAIN => "CMFUTURE_MAIN"@,
        EAssetTransferType::MARGIN_MAIN => "MARGIN_MAIN"@,
        EAssetTransferType::MARGIN_UMFUTURE => "MARGIN_UMFUTURE"@,
        EAssetTransferType::MARGIN_CMFUTURE => "MARGIN_CMFUTURE"@,
        EAssetTransferType::CMFUTURE_MARGIN => "CMFUTURE_MARGIN"@,
        EAssetTransferType::ISOLATEDMARGIN_MARGIN => "ISOLATEDMARGIN_MARGIN"@,
        EAssetTransferType::MARGIN_ISOLATEDMARGIN => "MARGIN_ISOLATEDMARGIN"@,
        EAssetTransferType::ISOLATEDMARGIN_ISOLATEDMARGIN => "ISOLATEDMARGIN_ISOLATEDMARGIN"@,
        EAssetTransferType::MAIN_FUNDING => "MAIN_FUNDING"@,
        EAssetTransferType::FUNDING_MAIN => "FUNDING_MAIN"@,
        EAssetTransferType::FUNDING_UMFUTURE => "FUNDING_UMFUTURE"@,
        EAssetTransferType::UMFUTURE_FUNDING => "UMFUTURE_FUNDING"@,
        EAssetTransferType::MARGIN_FUNDING => "MARGIN_FUNDING"@,
        EAssetTransferType::FUNDING_MARGIN => "FUNDING_MARGIN"@,
        EAssetTransferType::FUNDING_CMFUTURE => "FUNDING_CMFUTURE"@,
        EAssetTransferType::CMFUTURE_FUNDING => "CMFUTURE_FUNDING"@,
    }
}

impl EAssetTransferType {
    /// Writes the transfer direction as the exchange's `type` parameter
    /// value.
    pub fn as_string(&self) -> (r: String)
        ensures
            r@ == spec_transfer_type_string(*self),
    {
        match self {
            EAssetTransferType::MAIN_UMFUTURE => "MAIN_UMFUTURE".to_owned(),
            EAssetTransferType::MAIN_CMFUTURE => "MAIN_CMFUTURE".to_owned(),
            EAssetTransferType::MAIN_MARGIN => "MAIN_MARGIN".to_owned(),
            EAssetTransferType::UMFUTURE_MAIN => "UMFUTURE_MAIN".to_owned(),
            EAssetTransferType::UMFUTURE_MARGIN => "UMFUTURE_MARGIN".to_owned(),
            EAssetTransferType::CMFUTURE_MAIN => "CMFUTURE_MAIN".to_owned(),
            EAssetTransferType::MARGIN_MAIN => "MARGIN_MAIN".to_owned(),
            EAssetTransferType::MARGIN_UMFUTURE => "MARGIN_UMFUTURE".to_owned(),
            EAssetTransferType::MARGIN_CMFUTURE => "MARGIN_CMFUTURE".to_owned(),
            EAssetTransferType::CMFUTURE_MARGIN => "CMFUTURE_MARGIN".to_owned(),
            EAssetTransferType::ISOLATEDMARGIN_MARGIN => "ISOLATEDMARGIN_MARGIN".to_owned(),
            EAssetTransferType::MARGIN_ISOLATEDMARGIN => "MARGIN_ISOLATEDMARGIN".to_owned(),
            EAssetTransferType::ISOLATEDMARGIN_ISOLATEDMARGIN => "ISOLATEDMARGIN_ISOLATEDMARGIN".to_owned(),
            EAssetTransferType::MAIN_FUNDING => "MAIN_FUNDING".to_owned(),
            EAssetTransferType::FUNDING_MAIN => "FUNDING_MAIN".to_owned(),
            EAssetTransferType::FUNDING_UMFUTURE => "FUNDING_UMFUTURE".to_owned(),
            EAssetTransferType::UMFUTURE_FUNDING => "UMFUTURE_FUNDING".to_owned(),
            EAssetTransferType::MARGIN_FUNDING => "MARGIN_FUNDING".to_owned(),
            EAssetTransferType::FUNDING_MARGIN => "FUNDING_MARGIN".to_owned(),
            EAssetTransferType::FUNDING_CMFUTURE => "FUNDING_CMFUTURE".to_owned(),
            EAssetTransferType::CMFUTURE_FUNDING => "CMFUTURE_FUNDING".to_owned(),
        }
    }
}

/// Relies on `std::time::SystemTime::now` and
/// `duration_since(UNIX_EPOCH)`: milliseconds since the Unix epoch, or
/// `None` when the system clock reads earlier than the epoch or past the
/// range of `u64`.
#[verifier::external_body]
fn now_unix_millis() -> Option<u64> {
    match std::time::SystemTime::now().duration_since(std::time::UNIX_EPOCH) {
        Ok(d) => u64::try_from(d.as_millis()).ok(),
        Err(_) => None,
    }
}

/// The timestamp used for one authenticated call, as a function of one
/// clock reading: the reading itself, or zero when the clock was unusable.
pub fn timestamp_from_clock(millis: Option<u64>) -> (r: u64)
    ensures
        r == (match millis {
            Some(m) => m,
            None => 0u64,
        }),
{
    match millis {
        Some(m) => m,
        None => 0,
    }
}

/// The wall-clock timestamp carried by every authenticated call, in
/// milliseconds since the Unix epoch. The result depends on the system
/// clock, so no two calls are promised to agree; whatever reading came
/// back, the result is `timestamp_from_clock` of it.
pub fn get_timestamp() -> u64 {
    timestamp_from_clock(now_unix_millis())
}

/// System maintenance status (unauthenticated).
pub fn system_status(client: &Client) -> (r: HttpRequest)
    ensures
        r@ == spec_get_request(client@, "/sapi/v1/system/status"@),
{
    client.get("/sapi/v1/system/status")
}

/// Information on every coin available to the account.
pub fn capital_all(client: &Client, timestamp: u64) -> (r: HttpRequest)
    ensures
        r@ == spec_get_signed_request(
            client@,
            "/sapi/v1/capital/config/getall"@,
            Seq::empty(),
            timestamp,
        ),
{
    let param = empty_params();
    client.get_signed("/sapi/v1/capital/config/getall", param, timestamp)
}

/// A daily snapshot of the account of the given type.
pub fn account_snapshot(
    client: &Client,
    account_type: &String,
    start_time: Option<u64>,
    end_time: Option<u64>,
    limit: Option<u32>,
    timestamp: u64,
) -> (r: HttpRequest)
    ensures
        r@ == spec_get_signed_request(
            client@,
            "/sapi/v1/accountSnapshot"@,
            spec_push_opt(
                spec_push_opt(
                    spec_push_opt(
                        spec_push_param(Seq::empty(), "type"@, account_type@),
                        "startTime"@,
                        spec_opt_u64(start_time),
                    ),
                    "endTime"@,
                    spec_opt_u64(end_time),
                ),
                "limit"@,
                spec_opt_u32(limit),
            ),
            timestamp,
        ),
{
    let mut param = empty_params();
    push_param(&mut param, "type", account_type.clone());
    push_opt_u64(&mut param, "startTime", start_time);
    push_opt_u64(&mut param, "endTime", end_time);
    push_opt_u32(&mut param, "limit", limit);
    client.get_signed("/sapi/v1/accountSnapshot", param, timestamp)
}

/// Which small balances can be converted to BTC.
pub fn asset_dust_btc(client: &Client, timestamp: u64) -> (r: HttpRequest)
    ensures
        r@ == spec_post_signed_request(
            client@,
            "/sapi/v1/asset/dust-btc"@,
            Seq::empty(),
            timestamp,
        ),
{
    let param = empty_params();
    client.post_signed("/sapi/v1/asset/dust-btc", param, timestamp)
}

/// Disables the fast-withdraw switch.
pub fn disable_fast_withdraw_switch(client: &Client, timestamp: u64) -> (r: HttpRequest)
    ensures
        r@ == spec_post_signed_request(
            client@,
            "/sapi/v1/account/disableFastWithdrawSwitch"@,
            Seq::empty(),
            timestamp,
        ),
{
    let param = empty_params();
    client.post_signed("/sapi/v1/account/disableFastWithdrawSwitch", param, timestamp)
}

/// Enables the fast-withdraw switch.
pub fn enable_fast_withdraw_switch(client: &Client, timestamp: u64) -> (r: HttpRequest)
    ensures
        r@ == spec_post_signed_request(
            client@,
            "/sapi/v1/account/enableFastWithdrawSwitch"@,
            Seq::empty(),
            timestamp,
        ),
{
    let param = empty_params();
    client.post_signed("/sapi/v1/account/enableFastWithdrawSwitch", param, timestamp)
}

/// Submits a withdrawal. The amount is passed as the already formatted
/// decimal string the exchange should receive.
pub fn capital_withdraw(
    client: &Client,
    coin: &str,
    amount: &str,
    address: &str,
    withdraw_order_id: &Option<&str>,
    network: &Option<&str>,
    address_tag: &Option<&str>,
    transaction_fee_flag: &Option<bool>,
    name: &Option<&str>,
    wallet_type: &Option<u8>,
    timestamp: u64,
) -> (r: HttpRequest)
    ensures
        r@ == spec_post_signed_request(
            client@,
            "/sapi/v1/capital/withdraw/apply"@,
            spec_push_opt(
                spec_push_opt(
                    spec_push_opt(
                        spec_push_opt(
                            spec_push_opt(
                                spec_push_opt(
                                    spec_push_param(
                                        spec_push_param(
                                            spec_push_param(Seq::empty(), "coin"@, coin@),
                                            "address"@,
                                            address@,
                                        ),
                                        "amount"@,
                                        amount@,
                                    ),
                                    "withdrawOrderId"@,
                                    spec_opt_str(*withdraw_order_id),
                                ),
                                "network"@,
                                spec_opt_str(*network),
                            ),
                            "addressTag"@,
                            spec_opt_str(*address_tag),
                        ),
                        "transactionFeeFlag"@,
                        spec_opt_bool(*transaction_fee_flag),
                    ),
                    "name"@,
                    spec_opt_str(*name),
                ),
                "walletType"@,
                spec_opt_u8(*wallet_type),
            ),
            timestamp,
        ),
{
    let mut param = empty_params();
    push_param(&mut param, "coin", coin.to_owned());
    push_param(&mut param, "address", address.to_owned());
    push_param(&mut param, "amount", amount.to_owned());
    push_opt_str(&mut param, "withdrawOrderId", withdraw_order_id);
    push_opt_str(&mut param, "network", network);
    push_opt_str(&mut param, "addressTag", address_tag);
    push_opt_bool(&mut param, "transactionFeeFlag", transaction_fee_flag);
    push_opt_str(&mut param, "name", name);
    push_opt_u8(&mut param, "walletType", *wallet_type);
    client.post_signed("/sapi/v1/capital/withdraw/apply", param, timestamp)
}

/// Deposit history.
pub fn capital_deposit_hisrec(
    client: &Client,
    coin: &Option<&str>,
    status: Option<u32>,
    start_time: Option<u64>,
    end_time: Option<u64>,
    offset: Option<i32>,
    limit: Option<u32>,
    timestamp: u64,
) -> (r: HttpRequest)
    ensures
        r@ == spec_get_signed_request(
            client@,
            "/sapi/v1/capital/deposit/hisrec"@,
            spec_push_opt(
                spec_push_opt(
                    spec_push_opt(
                        spec_push_opt(
                            spec_push_opt(
                                spec_push_opt(Seq::empty(), "coin"@, spec_opt_str(*coin)),
                                "status"@,
                                spec_opt_u32(status),
                            ),
                            "startTime"@,
                            spec_opt_u64(start_time),
                        ),
                        "endTime"@,
                        spec_opt_u64(end_time),
                    ),
                    "offset"@,
                    spec_opt_i32(offset),
                ),
                "limit"@,
                spec_opt_u32(limit),
            ),
            timestamp,
        ),
{
    let mut param = empty_params();
    push_opt_str(&mut param, "coin", coin);
    push_opt_u32(&mut param, "status", status);
    push_opt_u64(&mut param, "startTime", start_time);
    push_opt_u64(&mut param, "endTime", end_time);
    push_opt_i32(&mut param, "offset", offset);
    push_opt_u32(&mut param, "limit", limit);
    client.get_signed("/sapi/v1/capital/deposit/hisrec", param, timestamp)
}

/// Withdrawal history.
pub fn capital_withdraw_history(
    client: &Client,
    coin: &Option<&str>,
    withdraw_order_id: &Option<&str>,
    status: Option<u32>,
    offset: Option<i32>,
    limit: Option<u32>,
    start_time: Option<u64>,
    end_time: Option<u64>,
    timestamp: u64,
) -> (r: HttpRequest)
    ensures
        r@ == spec_get_signed_request(
            client@,
            "/sapi/v1/capital/withdraw/history"@,
            spec_push_opt(
                spec_push_opt(
                    spec_push_opt(
                        spec_push_opt(
                            spec_push_opt(
                                spec_push_opt(
                                    spec_push_opt(Seq::empty(), "coin"@, spec_opt_str(*coin)),
                                    "withdrawOrderId"@,
                                    spec_opt_str(*withdraw_order_id),
                                ),
                                "status"@,
                                spec_opt_u32(status),
                            ),
                            "startTime"@,
                            spec_opt_u64(start_time),
                        ),
                        "endTime"@,
                        spec_opt_u64(end_time),
                    ),
                    "offset"@,
                    spec_opt_i32(offset),
                ),
                "limit"@,
                spec_opt_u32(limit),
            ),
            timestamp,
        ),
{
    let mut param = empty_params();
    push_opt_str(&mut param, "coin", coin);
    push_opt_str(&mut param, "withdrawOrderId", withdraw_order_id);
    push_opt_u32(&mut param, "status", status);
    push_opt_u64(&mut param, "startTime", start_time);
    push_opt_u64(&mut param, "endTime", end_time);
    push_opt_i32(&mut param, "offset", offset);
    push_opt_u32(&mut param, "limit", limit);
    client.get_signed("/sapi/v1/capital/withdraw/history", param, timestamp)
}

/// The deposit address for one coin.
pub fn capital_deposit_address(
    client: &Client,
    coin: &str,
    network: &Option<&str>,
    timestamp: u64,
) -> (r: HttpRequest)
    ensures
        r@ == spec_get_signed_request(
            client@,
            "/sapi/v1/capital/deposit/address"@,
            spec_push_opt(
                spec_push_param(Seq::empty(), "coin"@, coin@),
                "network"@,
                spec_opt_str(*network),
            ),
            timestamp,
        ),
{
    let mut param = empty_params();
    push_param(&mut param, "coin", coin.to_owned());
    push_opt_str(&mut param, "network", network);
    client.get_signed("/sapi/v1/capital/deposit/address", param, timestamp)
}

/// Account status.
pub fn account_status(client: &Client, timestamp: u64) -> (r: HttpRequest)
    ensures
        r@ == spec_get_signed_request(
            client@,
            "/sapi/v1/account/status"@,
            Seq::empty(),
            timestamp,
        ),
{
    let param = empty_params();
    client.get_signed("/sapi/v1/account/status", param, timestamp)
}

/// API trading status.
pub fn account_api_trading_status(client: &Client, timestamp: u64) -> (r: HttpRequest)
    ensures
        r@ == spec_get_signed_request(
            client@,
            "/sapi/v1/account/apiTradingStatus"@,
            Seq::empty(),
            timestamp,
        ),
{
    let param = empty_params();
    client.get_signed("/sapi/v1/account/apiTradingStatus", param, timestamp)
}

/// The log of small-balance conversions.
pub fn asset_dribblet(
    client: &Client,
    start_time: Option<u64>,
    end_time: Option<u64>,
    timestamp: u64,
) -> (r: HttpRequest)
    ensures
        r@ == spec_get_signed_request(
            client@,
            "/sapi/v1/asset/dribblet"@,
            spec_push_opt(
                spec_push_opt(Seq::empty(), "startTime"@, spec_opt_u64(start_time)),
                "endTime"@,
                spec_opt_u64(end_time),
            ),
            timestamp,
        ),
{
    let mut param = empty_params();
    push_opt_u64(&mut param, "startTime", start_time);
    push_opt_u64(&mut param, "endTime", end_time);
    client.get_signed("/sapi/v1/asset/dribblet", param, timestamp)
}

/// The views of a list of string slices.
pub open spec fn strs_view(ss: Seq<&str>) -> Seq<Seq<char>> {
    ss.map_values(|s: &str| s@)
}

/// The `asset` value for a dust conversion: `asset=a1&asset=a2&...`, one
/// entry per requested asset, in order; empty input yields the empty
/// string.
pub open spec fn spec_asset_list(ss: Seq<Seq<char>>) -> Seq<char>
    decreases ss.len(),
{
    if ss.len() == 0 {
        Seq::empty()
    } else if ss.len() == 1 {
        "asset="@ + ss[0]
    } else {
        spec_asset_list(ss.drop_last()) + "&asset="@ + ss.last()
    }
}

/// Converts the listed small balances to BNB.
pub fn asset_dust(client: &Client, asset: &Vec<&str>, timestamp: u64) -> (r: HttpRequest)
    ensures
        r@ == spec_post_signed_request(
            client@,
            "/sapi/v1/asset/dust"@,
            spec_push_param(Seq::empty(), "asset"@, spec_asset_list(strs_view(asset@))),
            timestamp,
        ),
{
    let ghost sv = strs_view(asset@);
    let mut asset_str = String::new();
    let mut i: usize = 0;
    while i < asset.len()
        invariant
            i <= asset@.len(),
            sv == strs_view(asset@),
            asset_str@ == spec_asset_list(sv.take(i as int)),
        decreases asset@.len() - i,
    {
        if i == 0 {
            asset_str.append("asset=");
        } else {
            asset_str.append("&asset=");
        }
        asset_str.append(asset[i]);
        proof {
            assert(sv.take(i + 1).drop_last() =~= sv.take(i as int));
            assert(sv.take(i + 1).last() == asset@[i as int]@);
            assert(asset_str@ =~= spec_asset_list(sv.take(i + 1)));
        }
        i += 1;
    }
    proof {
        assert(sv.take(asset@.len() as int) =~= sv);
    }
    let mut param = empty_params();
    push_param(&mut param, "asset", asset_str);
    client.post_signed("/sapi/v1/asset/dust", param, timestamp)
}

/// Dividend records, for one asset or for all.
pub fn asset_dividend(
    client: &Client,
    asset: &Option<&str>,
    start_time: Option<u64>,
    end_time: Option<u64>,
    limit: Option<u32>,
    timestamp: u64,
) -> (r: HttpRequest)
    ensures
        r@ == spec_get_signed_request(
            client@,
            "/sapi/v1/asset/assetDividend"@,
            spec_push_opt(
                spec_push_opt(
                    spec_push_opt(
                        spec_push_opt(Seq::empty(), "asset"@, spec_opt_str(*asset)),
                        "startTime"@,
                        spec_opt_u64(start_time),
                    ),
                    "endTime"@,
                    spec_opt_u64(end_time),
                ),
                "limit"@,
                spec_opt_u32(limit),
            ),
            timestamp,
        ),
{
    let mut param = empty_params();
    push_opt_str(&mut param, "asset", asset);
    push_opt_u64(&mut param, "startTime", start_time);
    push_opt_u64(&mut param, "endTime", end_time);
    push_opt_u32(&mut param, "limit", limit);
    client.get_signed("/sapi/v1/asset/assetDividend", param, timestamp)
}

/// Asset details, for one asset or for all.
pub fn asset_detail(client: &Client, asset: &Option<&str>, timestamp: u64) -> (r: HttpRequest)
    ensures
        r@ == spec_get_signed_request(
            client@,
            "/sapi/v1/asset/assetDetail"@,
            spec_push_opt(Seq::empty(), "asset"@, spec_opt_str(*asset)),
            timestamp,
        ),
{
    let mut param = empty_params();
    push_opt_str(&mut param, "asset", asset);
    client.get_signed("/sapi/v1/asset/assetDetail", param, timestamp)
}

/// Trading fees, for one symbol or for all.
pub fn asset_trade_fee(client: &Client, symbol: &Option<&str>, timestamp: u64) -> (r: HttpRequest)
    ensures
        r@ == spec_get_signed_request(
            client@,
            "/sapi/v1/asset/tradeFee"@,
            spec_push_opt(Seq::empty(), "symbol"@, spec_opt_str(*symbol)),
            timestamp,
        ),
{
    let mut param = empty_params();
    push_opt_str(&mut param, "symbol", symbol);
    client.get_signed("/sapi/v1/asset/tradeFee", param, timestamp)
}

/// Moves an asset between the account's wallets. The amount is passed as
/// the already formatted decimal string the exchange should receive.
pub fn make_asset_transfer(
    client: &Client,
    transfer_type: EAssetTransferType,
    asset: &str,
    amount: &str,
    from_symbol: &Option<&str>,
    to_symbol: &Option<&str>,
    timestamp: u64,
) -> (r: HttpRequest)
    ensures
        r@ == spec_post_signed_request(
            client@,
            "/sapi/v1/asset/transfer"@,
            spec_push_opt(
                spec_push_opt(
                    spec_push_param(
                        spec_push_param(
                            spec_push_param(
                                Seq::empty(),
                                "type"@,
                                spec_transfer_type_string(transfer_type),
                            ),
                            "asset"@,
                            asset@,
                        ),
                        "amount"@,
                        amount@,
                    ),
                    "fromSymbol"@,
                    spec_opt_str(*from_symbol),
                ),
                "toSymbol"@,
                spec_opt_str(*to_symbol),
            ),
            timestamp,
        ),
{
    let mut param = empty_params();
    push_param(&mut param, "type", transfer_type.as_string());
    push_param(&mut param, "asset", asset.to_owned());
    push_param(&mut param, "amount", amount.to_owned());
    push_opt_str(&mut param, "fromSymbol", from_symbol);
    push_opt_str(&mut param, "toSymbol", to_symbol);
    client.post_signed("/sapi/v1/asset/transfer", param, timestamp)
}

/// The history of transfers of one direction.
pub fn get_asset_transfer(
    client: &Client,
    transfer_type: EAssetTransferType,
    start_time: Option<u64>,
    end_time: Option<u64>,
    current: Option<i32>,
    size: Option<u32>,
    from_symbol: &Option<&str>,
    to_symbol: &Option<&str>,
    timestamp: u64,
) -> (r: HttpRequest)
    ensures
        r@ == spec_get_signed_request(
            client@,
            "/sapi/v1/asset/transfer"@,
            spec_push_opt(
                spec_push_opt(
                    spec_push_opt(
                        spec_push_opt(
                            spec_push_opt(
                                spec_push_opt(
                                    spec_push_param(
                                        Seq::empty(),
                                        "type"@,
                                        spec_transfer_type_string(transfer_type),
                                    ),
                                    "startTime"@,
                                    spec_opt_u64(start_time),
                                ),
                                "endTime"@,
                                spec_opt_u64(end_time),
                            ),
                            "current"@,
                            spec_opt_i32(current),
                        ),
                        "size"@,
                        spec_opt_u32(size),
                    ),
                    "fromSymbol"@,
                    spec_opt_str(*from_symbol),
                ),
                "toSymbol"@,
                spec_opt_str(*to_symbol),
            ),
            timestamp,
        ),
{
    let mut param = empty_params();
    push_param(&mut param, "type", transfer_type.as_string());
    push_opt_u64(&mut param, "startTime", start_time);
    push_opt_u64(&mut param, "endTime", end_time);
    push_opt_i32(&mut param, "current", current);
    push_opt_u32(&mut param, "size", size);
    push_opt_str(&mut param, "fromSymbol", from_symbol);
    push_opt_str(&mut param, "toSymbol", to_symbol);
    client.get_signed("/sapi/v1/asset/transfer", param, timestamp)
}

/// Funding-wallet balances.
pub fn get_funding_asset(
    client: &Client,
    asset: &Option<&str>,
    need_btc_valuation: &Option<&str>,
    timestamp: u64,
) -> (r: HttpRequest)
    ensures
        r@ == spec_post_signed_request(
            client@,
            "/sapi/v1/asset/get-funding-asset"@,
            spec_push_opt(
                spec_push_opt(Seq::empty(), "asset"@, spec_opt_str(*asset)),
                "needBtcValuation"@,
                spec_opt_str(*need_btc_valuation),
            ),
            timestamp,
        ),
{
    let mut param = empty_params();
    push_opt_str(&mut param, "asset", asset);
    push_opt_str(&mut param, "needBtcValuation", need_btc_valuation);
    client.post_signed("/sapi/v1/asset/get-funding-asset", param, timestamp)
}

/// The API key's permission restrictions.
pub fn account_api_restrictions(client: &Client, timestamp: u64) -> (r: HttpRequest)
    ensures
        r@ == spec_get_signed_request(
            client@,
            "/sapi/v1/account/apiRestrictions"@,
            Seq::empty(),
            timestamp,
        ),
{
    let param = empty_params();
    client.get_signed("/sapi/v1/account/apiRestrictions", param, timestamp)
}

} // verus!
