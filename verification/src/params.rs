//! The parameter codec: an ordered list of key/value pairs and its encoding
//! as a query string / canonical signing string.

use vstd::prelude::*;
use vstd::string::StringExecFns;

verus! {

/// One key/value pair of a request's parameter list. The order of the pairs
/// in the surrounding vector is significant (it determines both the wire
/// representation and the signature input) and duplicate keys are legal.
#[derive(Debug)]
pub struct RequestParam {
    pub key: String,
    pub value: String,
}

/// The mathematical content of a `RequestParam`: its two strings as
/// character sequences.
#[verifier::ext_equal]
pub struct ParamView {
    pub key: Seq<char>,
    pub value: Seq<char>,
}

impl View for RequestParam {
    type V = ParamView;

    open spec fn view(&self) -> ParamView {
        ParamView { key: self.key@, value: self.value@ }
    }
}

/// The views of a whole parameter list.
pub open spec fn params_view(ps: Seq<RequestParam>) -> Seq<ParamView> {
    ps.map_values(|p: RequestParam| p@)
}

/// `key=value`, with no escaping: keys and values are caller-controlled and
/// transmitted verbatim, as the exchange's signing scheme requires.
pub open spec fn spec_pair_string(p: ParamView) -> Seq<char> {
    p.key + seq!['='] + p.value
}

/// `key1=value1&key2=value2&...` in the order given; empty input encodes to
/// the empty string.
pub open spec fn spec_params_string(ps: Seq<ParamView>) -> Seq<char>
    decreases ps.len(),
{
    if ps.len() == 0 {
        Seq::empty()
    } else if ps.len() == 1 {
        spec_pair_string(ps[0])
    } else {
        spec_params_string(ps.drop_last()) + seq!['&'] + spec_pair_string(ps.last())
    }
}

/// Appending a pair to a non-empty list appends `&key=value` to the encoding;
/// a single pair encodes with no separator.
pub proof fn lemma_params_string_push(ps: Seq<ParamView>, p: ParamView)
    ensures
        spec_params_string(ps.push(p)) == (if ps.len() == 0 {
            spec_pair_string(p)
        } else {
            spec_params_string(ps) + seq!['&'] + spec_pair_string(p)
        }),
{
    assert(ps.push(p).drop_last() =~= ps);
    assert(ps.push(p).last() == p);
}

/// Order preservation, in algebraic form: the encoding of a concatenation of
/// two non-empty parameter lists is the encoding of the first, then `&`, then
/// the encoding of the second. Every pair therefore appears in the output
/// exactly where the input order puts it.
pub proof fn lemma_params_string_concat(a: Seq<ParamView>, b: Seq<ParamView>)
    requires
        a.len() > 0,
        b.len() > 0,
    ensures
        spec_params_string(a + b) == spec_params_string(a) + seq!['&'] + spec_params_string(b),
    decreases b.len(),
{
    if b.len() == 1 {
        assert((a + b).drop_last() =~= a);
        assert((a + b).last() == b[0]);
        assert(spec_params_string(b) == spec_pair_string(b[0]));
    } else {
        lemma_params_string_concat(a, b.drop_last());
        assert((a + b).drop_last() =~= a + b.drop_last());
        assert((a + b).last() == b.last());
        assert(spec_params_string(a + b) == spec_params_string(a + b.drop_last()) + seq!['&']
            + spec_pair_string(b.last()));
        assert(spec_params_string(a) + seq!['&'] + (spec_params_string(b.drop_last()) + seq!['&']
            + spec_pair_string(b.last())) =~= (spec_params_string(a) + seq!['&']
            + spec_params_string(b.drop_last())) + seq!['&'] + spec_pair_string(b.last()));
    }
}

/// Mapping a parameter list to its views commutes with `push`.
pub proof fn lemma_params_view_push(ps: Seq<RequestParam>, p: RequestParam)
    ensures
        params_view(ps.push(p)) == params_view(ps).push(p@),
{
    assert(params_view(ps.push(p)) =~= params_view(ps).push(p@));
}

/// Encodes the parameter list as `key1=value1&key2=value2&...`, preserving
/// the caller's order. An empty list yields the empty string. This single
/// string serves both as the wire query/body and as the canonical signing
/// input, so it is computed once and reused.
pub fn param2string(param: &Vec<RequestParam>) -> (r: String)
    ensures
        r@ == spec_params_string(params_view(param@)),
{
    let ghost pvs = params_view(param@);
    let mut s = String::new();
    let mut i: usize = 0;
    while i < param.len()
        invariant
            i <= param@.len(),
            pvs == params_view(param@),
            s@ == spec_params_string(pvs.take(i as int)),
        decreases param@.len() - i,
    {
        if i > 0 {
            s.append("&");
        }
        s.append(param[i].key.as_str());
        s.append("=");
        s.append(param[i].value.as_str());
        proof {
            reveal_strlit("&");
            reveal_strlit("=");
            assert(pvs.take(i + 1).drop_last() =~= pvs.take(i as int));
            assert(pvs.take(i + 1).last() == param@[i as int]@);
            lemma_params_string_push(pvs.take(i as int), param@[i as int]@);
            assert(pvs.take(i as int).push(param@[i as int]@) =~= pvs.take(i + 1));
            assert(s@ =~= spec_params_string(pvs.take(i + 1)));
        }
        i += 1;
    }
    proof {
        assert(pvs.take(param@.len() as int) =~= pvs);
    }
    s
}

/// The character for one decimal digit.
pub open spec fn spec_digit_char(d: nat) -> char
    recommends
        d < 10,
{
    ((0x30 + d) as u8) as char
}

/// The base-ten representation of a natural number, most significant digit
/// first, with no sign and no leading zeros (except for zero itself).
pub open spec fn spec_u64_string(n: nat) -> Seq<char>
    decreases n,
{
    if n < 10 {
        seq![spec_digit_char(n)]
    } else {
        spec_u64_string(n / 10).push(spec_digit_char(n % 10))
    }
}

/// Relies on the standard library's `Display` implementation for `u64` (via
/// `ToString`): unsigned integers format as their base-ten digits, with no
/// sign and no separators.
#[verifier::external_body]
pub fn u64_to_string(n: u64) -> (r: String)
    ensures
        r@ == spec_u64_string(n as nat),
{
    n.to_string()
}

/// The base-ten representation of a signed number: a leading `-` for
/// negative values, digits as for the unsigned case.
pub open spec fn spec_i32_string(n: int) -> Seq<char> {
    if n < 0 {
        seq!['-'] + spec_u64_string((-n) as nat)
    } else {
        spec_u64_string(n as nat)
    }
}

/// Formats a signed number in base ten, as its `Display` implementation
/// would.
pub fn i32_to_string(n: i32) -> (r: String)
    ensures
        r@ == spec_i32_string(n as int),
{
    if n < 0 {
        let m: u64 = (-(n as i64)) as u64;
        let mut s = "-".to_owned();
        let digits = u64_to_string(m);
        s.append(digits.as_str());
        proof {
            reveal_strlit("-");
            assert(s@ =~= spec_i32_string(n as int));
        }
        s
    } else {
        u64_to_string(n as u64)
    }
}

/// Appends one pair to a parameter list.
pub open spec fn spec_push_param(ps: Seq<ParamView>, key: Seq<char>, value: Seq<char>) -> Seq<
    ParamView,
> {
    ps.push(ParamView { key: key, value: value })
}

/// Appends one pair when the value is present, leaves the list unchanged
/// otherwise.
pub open spec fn spec_push_opt(ps: Seq<ParamView>, key: Seq<char>, v: Option<Seq<char>>) -> Seq<
    ParamView,
> {
    match v {
        Some(s) => ps.push(ParamView { key: key, value: s }),
        None => ps,
    }
}

/// An optional number as an optional decimal string.
pub open spec fn spec_opt_u64(v: Option<u64>) -> Option<Seq<char>> {
    match v {
        Some(n) => Some(spec_u64_string(n as nat)),
        None => None,
    }
}

/// An optional number as an optional decimal string.
pub open spec fn spec_opt_u32(v: Option<u32>) -> Option<Seq<char>> {
    match v {
        Some(n) => Some(spec_u64_string(n as nat)),
        None => None,
    }
}

/// An optional number as an optional decimal string.
pub open spec fn spec_opt_u8(v: Option<u8>) -> Option<Seq<char>> {
    match v {
        Some(n) => Some(spec_u64_string(n as nat)),
        None => None,
    }
}

/// An optional signed number as an optional decimal string.
pub open spec fn spec_opt_i32(v: Option<i32>) -> Option<Seq<char>> {
    match v {
        Some(n) => Some(spec_i32_string(n as int)),
        None => None,
    }
}

/// An optional string slice's view.
pub open spec fn spec_opt_str(v: Option<&str>) -> Option<Seq<char>> {
    match v {
        Some(s) => Some(s@),
        None => None,
    }
}

/// An optional owned string's view.
pub open spec fn spec_opt_string(v: Option<String>) -> Option<Seq<char>> {
    match v {
        Some(s) => Some(s@),
        None => None,
    }
}

/// An optional boolean as an optional `true`/`false` string.
pub open spec fn spec_opt_bool(v: Option<bool>) -> Option<Seq<char>> {
    match v {
        Some(b) => Some(spec_bool_string(b)),
        None => None,
    }
}

/// An empty parameter list.
pub fn empty_params() -> (r: Vec<RequestParam>)
    ensures
        params_view(r@) == Seq::<ParamView>::empty(),
{
    let r: Vec<RequestParam> = Vec::new();
    proof {
        assert(params_view(r@) =~= Seq::<ParamView>::empty());
    }
    r
}

/// Appends one pair to a parameter list.
pub fn push_param(param: &mut Vec<RequestParam>, key: &str, value: String)
    ensures
        params_view(final(param)@) == spec_push_param(params_view(old(param)@), key@, value@),
{
    let rp = RequestParam { key: key.to_owned(), value };
    proof {
        lemma_params_view_push(param@, rp);
    }
    param.push(rp);
}

/// Appends `key=<n>` when the number is present.
pub fn push_opt_u64(param: &mut Vec<RequestParam>, key: &str, v: Option<u64>)
    ensures
        params_view(final(param)@) == spec_push_opt(params_view(old(param)@), key@, spec_opt_u64(v)),
{
    if let Some(n) = v {
        push_param(param, key, u64_to_string(n));
    }
}

/// Appends `key=<n>` when the number is present.
pub fn push_opt_u32(param: &mut Vec<RequestParam>, key: &str, v: Option<u32>)
    ensures
        params_view(final(param)@) == spec_push_opt(params_view(old(param)@), key@, spec_opt_u32(v)),
{
    if let Some(n) = v {
        push_param(param, key, u64_to_string(n as u64));
    }
}

/// Appends `key=<n>` when the number is present.
pub fn push_opt_u8(param: &mut Vec<RequestParam>, key: &str, v: Option<u8>)
    ensures
        params_view(final(param)@) == spec_push_opt(params_view(old(param)@), key@, spec_opt_u8(v)),
{
    if let Some(n) = v {
        push_param(param, key, u64_to_string(n as u64));
    }
}

/// Appends `key=<n>` when the number is present.
pub fn push_opt_i32(param: &mut Vec<RequestParam>, key: &str, v: Option<i32>)
    ensures
        params_view(final(param)@) == spec_push_opt(params_view(old(param)@), key@, spec_opt_i32(v)),
{
    if let Some(n) = v {
        push_param(param, key, i32_to_string(n));
    }
}

/// Appends `key=<s>` when the string is present.
pub fn push_opt_str(param: &mut Vec<RequestParam>, key: &str, v: &Option<&str>)
    ensures
        params_view(final(param)@) == spec_push_opt(params_view(old(param)@), key@, spec_opt_str(*v)),
{
    if let Some(s) = v {
        push_param(param, key, (*s).to_owned());
    }
}

/// Appends `key=<s>` when the string is present.
pub fn push_opt_string(param: &mut Vec<RequestParam>, key: &str, v: &Option<String>)
    ensures
        params_view(final(param)@) == spec_push_opt(
            params_view(old(param)@),
            key@,
            spec_opt_string(*v),
        ),
{
    if let Some(s) = v {
        push_param(param, key, s.clone());
    }
}

/// Appends `key=true` or `key=false` when the flag is present.
pub fn push_opt_bool(param: &mut Vec<RequestParam>, key: &str, v: &Option<bool>)
    ensures
        params_view(final(param)@) == spec_push_opt(
            params_view(old(param)@),
            key@,
            spec_opt_bool(*v),
        ),
{
    if let Some(b) = v {
        push_param(param, key, bool_to_string(*b));
    }
}

/// `true` or `false`, as the `Display` implementation for `bool` writes
/// them.
pub open spec fn spec_bool_string(b: bool) -> Seq<char> {
    if b {
        "true"@
    } else {
        "false"@
    }
}

/// Formats a boolean as `true` or `false`.
pub fn bool_to_string(b: bool) -> (r: String)
    ensures
        r@ == spec_bool_string(b),
{
    if b {
        "true".to_owned()
    } else {
        "false".to_owned()
    }
}

} // verus!
