//! Base URLs on the loopback host and the health endpoint beneath them.
use vstd::prelude::*;

verus! {

/// The character of a decimal digit.
pub open spec fn digit_char(d: nat) -> char {
    if d == 0 {
        '0'
    } else if d == 1 {
        '1'
    } else if d == 2 {
        '2'
    } else if d == 3 {
        '3'
    } else if d == 4 {
        '4'
    } else if d == 5 {
        '5'
    } else if d == 6 {
        '6'
    } else if d == 7 {
        '7'
    } else if d == 8 {
        '8'
    } else {
        '9'
    }
}

/// The decimal notation of `n`, without leading zeros.
pub open spec fn decimal(n: nat) -> Seq<char>
    decreases n,
{
    if n < 10 {
        seq![digit_char(n)]
    } else {
        decimal(n / 10) + seq![digit_char(n % 10)]
    }
}

/// `http://127.0.0.1:<port>`: where a server on this machine answers.
pub open spec fn local_url_spec(port: nat) -> Seq<char> {
    "http://127.0.0.1:"@ + decimal(port)
}

/// `<base>/health`: the endpoint whose 2xx answer means healthy.
pub open spec fn health_url_spec(base: Seq<char>) -> Seq<char> {
    base + "/health"@
}

fn digit_str(d: u16) -> (r: &'static str)
    requires
        d < 10,
    ensures
        r@ == seq![digit_char(d as nat)],
{
    proof {
        reveal_strlit("0");
        reveal_strlit("1");
        reveal_strlit("2");
        reveal_strlit("3");
        reveal_strlit("4");
        reveal_strlit("5");
        reveal_strlit("6");
        reveal_strlit("7");
        reveal_strlit("8");
        reveal_strlit("9");
    }
    if d == 0 {
        "0"
    } else if d == 1 {
        "1"
    } else if d == 2 {
        "2"
    } else if d == 3 {
        "3"
    } else if d == 4 {
        "4"
    } else if d == 5 {
        "5"
    } else if d == 6 {
        "6"
    } else if d == 7 {
        "7"
    } else if d == 8 {
        "8"
    } else {
        "9"
    }
}

fn append_decimal(out: &mut String, n: u16)
    ensures
        final(out)@ == old(out)@ + decimal(n as nat),
    decreases n,
{
    if n >= 10 {
        append_decimal(out, n / 10);
    }
    out.append(digit_str(n % 10));
    assert(final(out)@ =~= old(out)@ + decimal(n as nat));
}

/// The base URL of a server listening on `port` of the loopback address.
pub fn local_url(port: u16) -> (r: String)
    ensures
        r@ == local_url_spec(port as nat),
{
    proof {
        reveal_strlit("http://127.0.0.1:");
    }
    let mut s = String::from_str("http://127.0.0.1:");
    append_decimal(&mut s, port);
    s
}

/// Whether an HTTP status answered by the health endpoint means healthy:
/// any 2xx status does, every other does not.
pub fn is_healthy_status(code: u16) -> (r: bool)
    ensures
        r == (200 <= code && code < 300),
{
    200 <= code && code < 300
}

/// The URL that a health probe of the server at `base` requests.
pub fn health_url(base: &str) -> (r: String)
    ensures
        r@ == health_url_spec(base@),
{
    proof {
        reveal_strlit("/health");
    }
    let s = String::from_str(base);
    s.concat("/health")
}

} // verus!
