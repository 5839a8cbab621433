//! Wire formatting for the protocol: decimal rendering of integers, JSON
//! string escaping, the JSON request bodies of the four operations, and
//! endpoint URLs. Every function here is pure text construction with an
//! exact contract.

use vstd::prelude::*;

verus! {

use vstd::string::StrSliceExecFns;
use vstd::string::StringExecFns;

/// The character for one digit value (decimal digits and lowercase hex).
pub open spec fn digit_char(d: int) -> char {
    if d == 0 {
        '0'
    } else if d == 1 {
        '1'
    } else if d == 2 {
        '2'
    } else if d == 3 {
        '3'
    } else if d == 4 {
        '4'
    } else if d == 5 {
        '5'
    } else if d == 6 {
        '6'
    } else if d == 7 {
        '7'
    } else if d == 8 {
        '8'
    } else if d == 9 {
        '9'
    } else if d == 10 {
        'a'
    } else if d == 11 {
        'b'
    } else if d == 12 {
        'c'
    } else if d == 13 {
        'd'
    } else if d == 14 {
        'e'
    } else if d == 15 {
        'f'
    } else {
        '0'
    }
}

/// Decimal digits of a non-negative number, most significant first.
pub open spec fn dec_digits(n: nat) -> Seq<char>
    decreases n,
{
    if n < 10 {
        seq![digit_char(n as int)]
    } else {
        dec_digits(n / 10) + seq![digit_char((n % 10) as int)]
    }
}

/// Decimal rendering of an integer: a leading '-' for negative values.
pub open spec fn dec_int(n: int) -> Seq<char> {
    if n < 0 {
        seq!['-'] + dec_digits((-n) as nat)
    } else {
        dec_digits(n as nat)
    }
}

fn u32_to_dec(n: u32) -> (r: String)
    ensures
        r@ == dec_digits(n as nat),
    decreases n,
{
    proof {
        reveal_strlit("0123456789");
    }
    let digits: &str = "0123456789";
    let d: usize = (n % 10) as usize;
    let piece = digits.substring_char(d, d + 1);
    proof {
        assert(piece@ =~= seq![digit_char(d as int)]);
    }
    if n < 10 {
        let r = piece.to_owned();
        proof {
            assert(r@ =~= dec_digits(n as nat));
        }
        r
    } else {
        let prefix = u32_to_dec(n / 10);
        let r = prefix.concat(piece);
        proof {
            assert(r@ =~= dec_digits(n as nat));
        }
        r
    }
}

/// Decimal rendering of a signed 32-bit integer.
pub fn i32_to_dec(n: i32) -> (r: String)
    ensures
        r@ == dec_int(n as int),
{
    if n >= 0 {
        u32_to_dec(n as u32)
    } else {
        let wide: i64 = n as i64;
        let mag: u32 = (-wide) as u32;
        assert(mag as nat == (-(n as int)) as nat);
        let mut r = String::from_str("-");
        let tail = u32_to_dec(mag);
        r.append(tail.as_str());
        proof {
            reveal_strlit("-");
            assert(r@ =~= dec_int(n as int));
        }
        r
    }
}

/// How one character is written inside a JSON string literal: quote,
/// backslash and the common control characters get a two-character escape,
/// other control characters a `\u00..` escape, anything else stands as is.
pub open spec fn json_escape_char(c: char) -> Seq<char> {
    if c == '"' {
        "\\\""@
    } else if c == '\\' {
        "\\\\"@
    } else if c == '\n' {
        "\\n"@
    } else if c == '\r' {
        "\\r"@
    } else if c == '\t' {
        "\\t"@
    } else if (c as u32) < 32 {
        "\\u00"@ + seq![digit_char(((c as u32) / 16) as int), digit_char(((c as u32) % 16) as int)]
    } else {
        seq![c]
    }
}

/// The body of a JSON string literal: each character escaped in turn.
pub open spec fn json_escape(s: Seq<char>) -> Seq<char>
    decreases s.len(),
{
    if s.len() == 0 {
        Seq::empty()
    } else {
        json_escape_char(s[0]) + json_escape(s.skip(1))
    }
}

proof fn lemma_json_escape_push(s: Seq<char>, c: char)
    ensures
        json_escape(s.push(c)) == json_escape(s) + json_escape_char(c),
    decreases s.len(),
{
    if s.len() == 0 {
        assert(s.push(c)[0] == c);
        assert(s.push(c).skip(1) =~= Seq::<char>::empty());
        assert(json_escape(s.push(c)) == json_escape_char(c) + json_escape(Seq::<char>::empty()));
        assert(json_escape_char(c) + Seq::<char>::empty() =~= json_escape_char(c));
        assert(json_escape(s) =~= Seq::<char>::empty());
        assert(json_escape(s) + json_escape_char(c) =~= json_escape_char(c));
    } else {
        assert(s.push(c).skip(1) =~= s.skip(1).push(c));
        lemma_json_escape_push(s.skip(1), c);
        assert(json_escape(s.push(c)) =~= json_escape(s) + json_escape_char(c));
    }
}

/// Escapes `s` for use inside a JSON string literal.
pub fn escape_json(s: &str) -> (r: String)
    ensures
        r@ == json_escape(s@),
{
    let n = s.unicode_len();
    let mut out = String::new();
    let mut i: usize = 0;
    while i < n
        invariant
            n == s@.len(),
            i <= n,
            out@ == json_escape(s@.take(i as int)),
        decreases n - i,
    {
        let c = s.get_char(i);
        proof {
            assert(s@.take(i as int).push(c) =~= s@.take(i as int + 1));
            lemma_json_escape_push(s@.take(i as int), c);
        }
        if c == '"' {
            out.append("\\\"");
        } else if c == '\\' {
            out.append("\\\\");
        } else if c == '\n' {
            out.append("\\n");
        } else if c == '\r' {
            out.append("\\r");
        } else if c == '\t' {
            out.append("\\t");
        } else if (c as u32) < 32 {
            out.append("\\u00");
            proof {
                reveal_strlit("0123456789abcdef");
            }
            let hx: &str = "0123456789abcdef";
            let hi: usize = ((c as u32) / 16) as usize;
            let lo: usize = ((c as u32) % 16) as usize;
            let p1 = hx.substring_char(hi, hi + 1);
            proof {
                assert(p1@ =~= seq![digit_char(hi as int)]);
            }
            out.append(p1);
            let p2 = hx.substring_char(lo, lo + 1);
            proof {
                assert(p2@ =~= seq![digit_char(lo as int)]);
            }
            out.append(p2);
            proof {
                assert(out@ =~= json_escape(s@.take(i as int + 1)));
            }
        } else {
            let piece = s.substring_char(i, i + 1);
            proof {
                assert(piece@ =~= seq![c]);
            }
            out.append(piece);
        }
        i = i + 1;
    }
    proof {
        assert(s@.take(n as int) =~= s@);
    }
    out
}

/// A JSON string literal: the escaped text between double quotes.
pub open spec fn json_string(s: Seq<char>) -> Seq<char> {
    "\""@ + json_escape(s) + "\""@
}

/// Renders `s` as a JSON string literal.
pub fn json_string_of(s: &str) -> (r: String)
    ensures
        r@ == json_string(s@),
{
    let mut out = String::from_str("\"");
    let esc = escape_json(s);
    out.append(esc.as_str());
    out.append("\"");
    proof {
        assert(out@ =~= json_string(s@));
    }
    out
}

/// Request body for sending source text: `{"src": <text>}`.
pub open spec fn send_code_body(src: Seq<char>) -> Seq<char> {
    "{"@ + json_string("src"@) + ": "@ + json_string(src) + "}"@
}

/// Request body for retracting a module: `{"module": <name>}`.
pub open spec fn undefine_body(name: Seq<char>) -> Seq<char> {
    "{"@ + json_string("module"@) + ": "@ + json_string(name) + "}"@
}

/// Request body for loading an inclusive block range:
/// `{"start": <int>, "stop": <int>}`.
pub open spec fn load_blocks_body(start: int, stop: int) -> Seq<char> {
    "{"@ + json_string("start"@) + ": "@ + dec_int(start) + ", "@ + json_string("stop"@) + ": "@
        + dec_int(stop) + "}"@
}

/// Request body for executing a module over an inclusive block range:
/// `{"start": <int>, "stop": <int>, "module": <name>}`.
pub open spec fn execute_body(start: int, stop: int, name: Seq<char>) -> Seq<char> {
    "{"@ + json_string("start"@) + ": "@ + dec_int(start) + ", "@ + json_string("stop"@) + ": "@
        + dec_int(stop) + ", "@ + json_string("module"@) + ": "@ + json_string(name) + "}"@
}

/// Builds the `send_code` request body.
pub fn build_send_code_body(code: &str) -> (r: String)
    ensures
        r@ == send_code_body(code@),
{
    let mut out = String::from_str("{");
    let key = json_string_of("src");
    out.append(key.as_str());
    out.append(": ");
    let val = json_string_of(code);
    out.append(val.as_str());
    out.append("}");
    proof {
        assert(out@ =~= send_code_body(code@));
    }
    out
}

/// Builds the `undefine_module` request body.
pub fn build_undefine_body(name: &str) -> (r: String)
    ensures
        r@ == undefine_body(name@),
{
    let mut out = String::from_str("{");
    let key = json_string_of("module");
    out.append(key.as_str());
    out.append(": ");
    let val = json_string_of(name);
    out.append(val.as_str());
    out.append("}");
    proof {
        assert(out@ =~= undefine_body(name@));
    }
    out
}

/// Builds the `load_blocks` request body.
pub fn build_load_blocks_body(start: i32, stop: i32) -> (r: String)
    ensures
        r@ == load_blocks_body(start as int, stop as int),
{
    let mut out = String::from_str("{");
    let k1 = json_string_of("start");
    out.append(k1.as_str());
    out.append(": ");
    let v1 = i32_to_dec(start);
    out.append(v1.as_str());
    out.append(", ");
    let k2 = json_string_of("stop");
    out.append(k2.as_str());
    out.append(": ");
    let v2 = i32_to_dec(stop);
    out.append(v2.as_str());
    out.append("}");
    proof {
        assert(out@ =~= load_blocks_body(start as int, stop as int));
    }
    out
}

/// Builds the `execute_module` request body.
pub fn build_execute_body(start: i32, stop: i32, name: &str) -> (r: String)
    ensures
        r@ == execute_body(start as int, stop as int, name@),
{
    let mut out = String::from_str("{");
    let k1 = json_string_of("start");
    out.append(k1.as_str());
    out.append(": ");
    let v1 = i32_to_dec(start);
    out.append(v1.as_str());
    out.append(", ");
    let k2 = json_string_of("stop");
    out.append(k2.as_str());
    out.append(": ");
    let v2 = i32_to_dec(stop);
    out.append(v2.as_str());
    out.append(", ");
    let k3 = json_string_of("module");
    out.append(k3.as_str());
    out.append(": ");
    let v3 = json_string_of(name);
    out.append(v3.as_str());
    out.append("}");
    proof {
        assert(out@ =~= execute_body(start as int, stop as int, name@));
    }
    out
}

/// An endpoint URL: `http://<host>:<port>/<route>`.
pub open spec fn url_spec(host: Seq<char>, port: int, route: Seq<char>) -> Seq<char> {
    "http://"@ + host + ":"@ + dec_int(port) + "/"@ + route
}

/// Builds an endpoint URL from a host, a port and a route.
pub fn build_url(host: &str, port: i32, route: &str) -> (r: String)
    ensures
        r@ == url_spec(host@, port as int, route@),
{
    let mut out = String::from_str("http://");
    out.append(host);
    out.append(":");
    let p = i32_to_dec(port);
    out.append(p.as_str());
    out.append("/");
    out.append(route);
    proof {
        assert(out@ =~= url_spec(host@, port as int, route@));
    }
    out
}

} // verus!
