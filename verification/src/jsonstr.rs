//! JSON string literals: the one JSON fragment this client builds itself,
//! since every RPC parameter is the transaction hex wrapped as a JSON string.

use vstd::prelude::*;
use vstd::string::StrSliceExecFns;
use vstd::string::StringExecFns;

use crate::hexstr::hex_digit;
use crate::hexstr::hex_digit_char;
use crate::hexstr::push_char;

verus! {

/// The escape of one character inside a JSON string literal: quotes and
/// backslashes are escaped, control characters take the `\u00XX` form, and
/// every other character stands for itself.
pub open spec fn json_escape_char(c: char) -> Seq<char> {
    if c == '"' {
        seq!['\\', '"']
    } else if c == '\\' {
        seq!['\\', '\\']
    } else if (c as int) < 32 {
        seq!['\\', 'u', '0', '0', hex_digit(c as int / 16), hex_digit(c as int % 16)]
    } else {
        seq![c]
    }
}

/// The body of the JSON string literal for `s`.
pub open spec fn json_escaped(s: Seq<char>) -> Seq<char>
    decreases s.len(),
{
    if s.len() == 0 {
        Seq::empty()
    } else {
        json_escape_char(s.first()) + json_escaped(s.drop_first())
    }
}

/// The JSON string literal for `s`: quoted and escaped.
pub open spec fn json_string_lit(s: Seq<char>) -> Seq<char> {
    seq!['"'] + json_escaped(s) + seq!['"']
}

/// Encodes a string as a JSON string literal.
pub fn json_string(s: &str) -> (r: String)
    ensures
        r@ == json_string_lit(s@),
{
    let mut body = String::new();
    let n = s.unicode_len();
    assert(s@.skip(0) =~= s@);
    for i in 0..n
        invariant
            n == s@.len(),
            json_escaped(s@) =~= body@ + json_escaped(s@.skip(i as int)),
    {
        let c = s.get_char(i);
        if c == '"' {
            push_char(&mut body, '\\');
            push_char(&mut body, '"');
        } else if c == '\\' {
            push_char(&mut body, '\\');
            push_char(&mut body, '\\');
        } else if (c as u32) < 32 {
            let code = c as u32;
            push_char(&mut body, '\\');
            push_char(&mut body, 'u');
            push_char(&mut body, '0');
            push_char(&mut body, '0');
            push_char(&mut body, hex_digit_char((code / 16) as u8));
            push_char(&mut body, hex_digit_char((code % 16) as u8));
        } else {
            push_char(&mut body, c);
        }
        proof {
            let rest = s@.skip(i as int);
            assert(rest.first() == s@[i as int]);
            assert(rest.drop_first() =~= s@.skip(i + 1));
        }
    }
    assert(s@.skip(n as int) =~= Seq::<char>::empty());
    let mut r = String::new();
    push_char(&mut r, '"');
    r.append(body.as_str());
    push_char(&mut r, '"');
    proof {
        assert(r@ =~= json_string_lit(s@));
    }
    r
}

} // verus!
