//! Rendezvous resolver: maps a CONNECT destination `(host, port)` to the
//! filesystem path `{directory}/{host}_{port}` of the backend endpoint.
//! The resolver performs no I/O and no sanitization; the request policy
//! is the sanitizer.
use vstd::prelude::*;
use vstd::string::StringExecFns;

verus! {

/// The character of a decimal digit value.
pub open spec fn digit_char(d: int) -> char
    recommends
        0 <= d <= 9,
{
    if d == 0 {
        '0'
    } else if d == 1 {
        '1'
    } else if d == 2 {
        '2'
    } else if d == 3 {
        '3'
    } else if d == 4 {
        '4'
    } else if d == 5 {
        '5'
    } else if d == 6 {
        '6'
    } else if d == 7 {
        '7'
    } else if d == 8 {
        '8'
    } else {
        '9'
    }
}

/// The decimal digits of `n`, most significant first, without leading
/// zeros (zero itself is the single digit `0`).
pub open spec fn spec_decimal(n: int) -> Seq<char>
    recommends
        n >= 0,
    decreases n,
{
    if n <= 9 {
        seq![digit_char(n)]
    } else {
        spec_decimal(n / 10).push(digit_char(n % 10))
    }
}

/// The decimal rendering never starts with a zero digit unless the
/// value itself is zero.
pub proof fn lemma_decimal_no_leading_zero(n: int)
    requires
        n >= 1,
    ensures
        spec_decimal(n).len() >= 1,
        spec_decimal(n)[0] != '0',
    decreases n,
{
    if n > 9 {
        lemma_decimal_no_leading_zero(n / 10);
    }
}

/// The path of the backend endpoint for `(host, port)` under the
/// rendezvous directory: the directory, a separator, and the filename
/// `{host}_{port}`.
pub open spec fn spec_backend_path(directory: Seq<char>, host: Seq<char>, port: u16) -> Seq<char> {
    directory + seq!['/'] + host + seq!['_'] + spec_decimal(port as int)
}

/// Append one decimal digit to `s`.
fn append_digit(s: &mut String, d: u16)
    requires
        d <= 9,
    ensures
        final (s)@ == old(s)@ + seq![digit_char(d as int)],
{
    let digit: &str = if d == 0 {
        "0"
    } else if d == 1 {
        "1"
    } else if d == 2 {
        "2"
    } else if d == 3 {
        "3"
    } else if d == 4 {
        "4"
    } else if d == 5 {
        "5"
    } else if d == 6 {
        "6"
    } else if d == 7 {
        "7"
    } else if d == 8 {
        "8"
    } else {
        "9"
    };
    proof {
        reveal_strlit("0");
        reveal_strlit("1");
        reveal_strlit("2");
        reveal_strlit("3");
        reveal_strlit("4");
        reveal_strlit("5");
        reveal_strlit("6");
        reveal_strlit("7");
        reveal_strlit("8");
        reveal_strlit("9");
        assert(digit@ =~= seq![digit_char(d as int)]);
    }
    s.append(digit);
}

/// Append the decimal digits of `n` to `s`, most significant first,
/// without leading zeros.
pub fn append_decimal(s: &mut String, n: u16)
    ensures
        final (s)@ == old(s)@ + spec_decimal(n as int),
    decreases n,
{
    if n <= 9 {
        append_digit(s, n);
    } else {
        append_decimal(s, n / 10);
        append_digit(s, n % 10);
        proof {
            assert(old(s)@ + spec_decimal((n / 10) as int) + seq![digit_char((n % 10) as int)]
                =~= old(s)@ + spec_decimal(n as int));
        }
    }
}

/// Resolve `(host, port)` to the backend endpoint path
/// `{directory}/{host}_{port}`.
pub fn resolve_backend_path(directory: &str, host: &str, port: u16) -> (p: String)
    ensures
        p@ == spec_backend_path(directory@, host@, port),
{
    let mut p = directory.to_owned();
    p.append("/");
    p.append(host);
    p.append("_");
    append_decimal(&mut p, port);
    proof {
        reveal_strlit("/");
        reveal_strlit("_");
        assert(p@ =~= spec_backend_path(directory@, host@, port));
    }
    p
}

} // verus!
