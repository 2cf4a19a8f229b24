//! HTTP status codes as plain numbers, and their text forms.
use vstd::prelude::*;

verus! {

/// "200 OK".
pub const OK: u16 = 200;

/// "404 Not Found": a candidate that does not claim a request answers with it.
pub const NOT_FOUND: u16 = 404;

/// "500 Internal Server Error".
pub const INTERNAL_SERVER_ERROR: u16 = 500;

/// The character of a decimal digit.
pub open spec fn digit_char(d: nat) -> char
    recommends
        d < 10,
{
    if d == 0 { '0' }
    else if d == 1 { '1' }
    else if d == 2 { '2' }
    else if d == 3 { '3' }
    else if d == 4 { '4' }
    else if d == 5 { '5' }
    else if d == 6 { '6' }
    else if d == 7 { '7' }
    else if d == 8 { '8' }
    else { '9' }
}

/// The decimal notation of `n`, without leading zeros.
pub open spec fn decimal(n: nat) -> Seq<char>
    decreases n,
{
    if n < 10 {
        seq![digit_char(n)]
    } else {
        decimal(n / 10).push(digit_char(n % 10))
    }
}

fn digit_str(d: u16) -> (r: &'static str)
    requires
        d < 10,
    ensures
        r@ == seq![digit_char(d as nat)],
{
    proof {
        reveal_strlit("0");
        reveal_strlit("1");
        reveal_strlit("2");
        reveal_strlit("3");
        reveal_strlit("4");
        reveal_strlit("5");
        reveal_strlit("6");
        reveal_strlit("7");
        reveal_strlit("8");
        reveal_strlit("9");
    }
    match d {
        0 => "0",
        1 => "1",
        2 => "2",
        3 => "3",
        4 => "4",
        5 => "5",
        6 => "6",
        7 => "7",
        8 => "8",
        _ => "9",
    }
}

/// Renders a status code in decimal, as a server writes it in a status line.
pub fn status_text(code: u16) -> (r: String)
    ensures
        r@ == decimal(code as nat),
    decreases code,
{
    if code < 10 {
        String::from_str(digit_str(code))
    } else {
        let mut s = status_text(code / 10);
        s.append(digit_str(code % 10));
        s
    }
}


/// The reason phrase that hyper registers for a status code, if it registers one.
pub uninterp spec fn canonical_reason_of(code: u16) -> Option<Seq<char>>;

/// Relies on hyper's `StatusCode::canonical_reason`, reached through
/// `StatusCode::try_from`, which refuses codes outside `100..=599`: the phrase
/// depends on the code alone.
#[verifier::external_body]
pub(crate) fn canonical_reason(code: u16) -> (r: Option<&'static str>)
    ensures
        r matches Some(s) ==> canonical_reason_of(code) == Some(s@),
        r is None ==> canonical_reason_of(code) is None,
        code < 100 || code > 599 ==> r is None,
{
    match hyper::StatusCode::try_from(code) {
        Ok(status) => status.canonical_reason(),
        Err(_) => None,
    }
}

} // verus!
