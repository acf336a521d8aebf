//! The text of a JSON-RPC 2.0 request object.

use vstd::prelude::*;

verus! {

/// The JSON text that serde_json writes for a value.
pub uninterp spec fn json_text(v: serde_json::Value) -> Seq<char>;


/// The decimal digit for `d < 10`.
pub open spec fn digit_char(d: nat) -> char {
    if d == 0 { '0' }
    else if d == 1 { '1' }
    else if d == 2 { '2' }
    else if d == 3 { '3' }
    else if d == 4 { '4' }
    else if d == 5 { '5' }
    else if d == 6 { '6' }
    else if d == 7 { '7' }
    else if d == 8 { '8' }
    else { '9' }
}

/// The lower-case hexadecimal digit for `d < 16`.
pub open spec fn hex_digit(d: nat) -> char {
    if d < 10 { digit_char(d) }
    else if d == 10 { 'a' }
    else if d == 11 { 'b' }
    else if d == 12 { 'c' }
    else if d == 13 { 'd' }
    else if d == 14 { 'e' }
    else { 'f' }
}

/// How one character stands inside a JSON string literal: quote and backslash
/// are escaped, the control characters with a short escape take it, the other
/// control characters take `\u00XX`, and every other character stands as it is.
pub open spec fn escaped_char(c: char) -> Seq<char> {
    if c == '"' { seq!['\\', '"'] }
    else if c == '\\' { seq!['\\', '\\'] }
    else if c == '\u{8}' { seq!['\\', 'b'] }
    else if c == '\t' { seq!['\\', 't'] }
    else if c == '\n' { seq!['\\', 'n'] }
    else if c == '\u{c}' { seq!['\\', 'f'] }
    else if c == '\r' { seq!['\\', 'r'] }
    else if (c as u32) < 0x20 {
        seq!['\\', 'u', '0', '0', hex_digit((c as u32 / 16) as nat), hex_digit((c as u32 % 16) as nat)]
    } else {
        seq![c]
    }
}

/// The characters of `s`, each escaped.
pub open spec fn escaped(s: Seq<char>) -> Seq<char>
    decreases s.len(),
{
    if s.len() == 0 {
        seq![]
    } else {
        escaped(s.drop_last()) + escaped_char(s.last())
    }
}

/// The JSON string literal for `s`.
pub open spec fn json_string_text(s: Seq<char>) -> Seq<char> {
    seq!['"'] + escaped(s) + seq!['"']
}

/// The decimal numeral of `n`, without leading zeros.
pub open spec fn decimal(n: nat) -> Seq<char>
    decreases n,
{
    if n < 10 {
        seq![digit_char(n)]
    } else {
        decimal(n / 10).push(digit_char(n % 10))
    }
}

/// The first `n` parameters, each as JSON text, separated by commas.
pub open spec fn elements_text(params: Seq<serde_json::Value>, n: nat) -> Seq<char>
    decreases n,
{
    if n == 0 {
        seq![]
    } else if n == 1 {
        json_text(params[0])
    } else {
        elements_text(params, (n - 1) as nat) + seq![','] + json_text(params[n - 1])
    }
}

/// The parameters as a JSON array.
pub open spec fn array_text(params: Seq<serde_json::Value>) -> Seq<char> {
    seq!['['] + elements_text(params, params.len()) + seq![']']
}

/// The request object `{"jsonrpc":"2.0","method":..,"params":[..],"id":..}`.
pub open spec fn request_text(id: nat, method: Seq<char>, params: Seq<serde_json::Value>) -> Seq<char> {
    "{\"jsonrpc\":\"2.0\",\"method\":"@ + json_string_text(method) + ",\"params\":"@
        + array_text(params) + ",\"id\":"@ + decimal(id) + "}"@
}

/// Relies on serde_json's `Display` for `Value`: the compact JSON text of the value.
#[verifier::external_body]
fn json_value(v: &serde_json::Value) -> (r: String)
    ensures
        r@ == json_text(*v),
{
    v.to_string()
}

/// Relies on serde_json's `Display` for `Value::String`: the text in quotes,
/// escaped by serde_json's escape table.
#[verifier::external_body]
fn json_string(s: &str) -> (r: String)
    ensures
        r@ == json_string_text(s@),
{
    serde_json::Value::String(s.to_string()).to_string()
}

fn digit_str(d: usize) -> (r: &'static str)
    requires
        d < 10,
    ensures
        r@ == seq![digit_char(d as nat)],
{
    proof {
        reveal_strlit("0");
        reveal_strlit("1");
        reveal_strlit("2");
        reveal_strlit("3");
        reveal_strlit("4");
        reveal_strlit("5");
        reveal_strlit("6");
        reveal_strlit("7");
        reveal_strlit("8");
        reveal_strlit("9");
    }
    let r = match d {
        0 => "0",
        1 => "1",
        2 => "2",
        3 => "3",
        4 => "4",
        5 => "5",
        6 => "6",
        7 => "7",
        8 => "8",
        _ => "9",
    };
    assert(r@ =~= seq![digit_char(d as nat)]);
    r
}

/// Appends the decimal numeral of `n` to `s`.
pub fn append_decimal(s: &mut String, n: usize)
    ensures
        final(s)@ == old(s)@ + decimal(n as nat),
    decreases n,
{
    if n >= 10 {
        append_decimal(s, n / 10);
    }
    s.append(digit_str(n % 10));
    assert(final(s)@ =~= old(s)@ + decimal(n as nat));
}

/// The decimal numeral of `n`.
pub fn decimal_string(n: usize) -> (r: String)
    ensures
        r@ == decimal(n as nat),
{
    let mut s = String::new();
    append_decimal(&mut s, n);
    assert(s@ =~= decimal(n as nat));
    s
}

/// The parameters as a JSON array.
pub fn params_json(params: &Vec<serde_json::Value>) -> (r: String)
    ensures
        r@ == array_text(params@),
{
    let mut s = String::from_str("[");
    proof {
        reveal_strlit("[");
    }
    let mut i: usize = 0;
    while i < params.len()
        invariant
            i <= params@.len(),
            s@ == seq!['['] + elements_text(params@, i as nat),
        decreases params@.len() - i,
    {
        if i > 0 {
            s.append(",");
            proof {
                reveal_strlit(",");
            }
        }
        let t = json_value(&params[i]);
        s.append(t.as_str());
        assert(s@ =~= seq!['['] + elements_text(params@, (i + 1) as nat));
        i = i + 1;
    }
    s.append("]");
    proof {
        reveal_strlit("]");
    }
    assert(s@ =~= array_text(params@));
    s
}

/// The JSON-RPC 2.0 request text for a call of `method` with `params`, under `id`.
pub fn build_request(id: usize, method: &str, params: &Vec<serde_json::Value>) -> (r: String)
    ensures
        r@ == request_text(id as nat, method@, params@),
{
    let mut s = String::from_str("{\"jsonrpc\":\"2.0\",\"method\":");
    let m = json_string(method);
    s.append(m.as_str());
    s.append(",\"params\":");
    let p = params_json(params);
    s.append(p.as_str());
    s.append(",\"id\":");
    append_decimal(&mut s, id);
    s.append("}");
    assert(s@ =~= request_text(id as nat, method@, params@));
    s
}

} // verus!
