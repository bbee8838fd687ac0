//! The status checker's decision logic: given the URL that was queried and
//! the HTTP status code that came back, build the annotated outcome.
//!
//! Status 200 yields `Ok("<url> (Ok)")`, statuses 300 and 301 yield
//! `Ok("<url> (Redirect)")`, and every other status yields
//! `Err("Error checking URL: <url> (status code: <code>)")` with the code in
//! decimal. The request itself is network work and stays outside the
//! library; a network-level failure becomes `Err` with the transport's own
//! description and never reaches this classifier.

use vstd::prelude::*;

verus! {

/// The decimal digit `d` (at most 9) as a character.
pub open spec fn digit_char(d: nat) -> char {
    if d == 0 {
        '0'
    } else if d == 1 {
        '1'
    } else if d == 2 {
        '2'
    } else if d == 3 {
        '3'
    } else if d == 4 {
        '4'
    } else if d == 5 {
        '5'
    } else if d == 6 {
        '6'
    } else if d == 7 {
        '7'
    } else if d == 8 {
        '8'
    } else {
        '9'
    }
}

/// The decimal rendering of `n`, most significant digit first, without
/// leading zeros (`0` renders as `"0"`).
pub open spec fn spec_decimal(n: nat) -> Seq<char>
    decreases n,
{
    if n < 10 {
        seq![digit_char(n)]
    } else {
        spec_decimal(n / 10) + seq![digit_char(n % 10)]
    }
}

/// The annotated success message for status 200: `<url> (Ok)`.
pub open spec fn spec_ok_message(url: Seq<char>) -> Seq<char> {
    url + " (Ok)"@
}

/// The annotated success message for statuses 300 and 301: `<url> (Redirect)`.
pub open spec fn spec_redirect_message(url: Seq<char>) -> Seq<char> {
    url + " (Redirect)"@
}

/// The failure message for any other status:
/// `Error checking URL: <url> (status code: <code>)`.
pub open spec fn spec_error_message(url: Seq<char>, status: u16) -> Seq<char> {
    "Error checking URL: "@ + url + " (status code: "@ + spec_decimal(status as nat) + ")"@
}

/// What `classify_status` returns for each status code.
pub open spec fn spec_classify(url: Seq<char>, status: u16) -> Result<Seq<char>, Seq<char>> {
    if status == 200 {
        Ok(spec_ok_message(url))
    } else if status == 300 || status == 301 {
        Ok(spec_redirect_message(url))
    } else {
        Err(spec_error_message(url, status))
    }
}

/// The single decimal digit `d` as a string slice.
fn digit_str(d: u16) -> (r: &'static str)
    requires
        d <= 9,
    ensures
        r@ == seq![digit_char(d as nat)],
{
    let r: &'static str = if d == 0 {
        "0"
    } else if d == 1 {
        "1"
    } else if d == 2 {
        "2"
    } else if d == 3 {
        "3"
    } else if d == 4 {
        "4"
    } else if d == 5 {
        "5"
    } else if d == 6 {
        "6"
    } else if d == 7 {
        "7"
    } else if d == 8 {
        "8"
    } else {
        "9"
    };
    proof {
        reveal_strlit("0");
        reveal_strlit("1");
        reveal_strlit("2");
        reveal_strlit("3");
        reveal_strlit("4");
        reveal_strlit("5");
        reveal_strlit("6");
        reveal_strlit("7");
        reveal_strlit("8");
        reveal_strlit("9");
        assert(r@ =~= seq![digit_char(d as nat)]);
    }
    r
}

/// Renders `n` in decimal, most significant digit first.
pub fn decimal_string(n: u16) -> (r: String)
    ensures
        r@ == spec_decimal(n as nat),
    decreases n,
{
    if n < 10 {
        String::from_str(digit_str(n))
    } else {
        let prefix = decimal_string(n / 10);
        prefix.concat(digit_str(n % 10))
    }
}

/// Classifies one HTTP status code for the given URL: 200 is annotated
/// `(Ok)`, 300 and 301 are annotated `(Redirect)`, and every other code
/// yields the error message with the code in decimal.
pub fn classify_status(url: &str, status: u16) -> (r: Result<String, String>)
    ensures
        r is Ok <==> (status == 200 || status == 300 || status == 301),
        match r {
            Ok(message) => message@ == spec_classify(url@, status)->Ok_0,
            Err(reason) => reason@ == spec_classify(url@, status)->Err_0,
        },
{
    if status == 200 {
        let message = String::from_str(url).concat(" (Ok)");
        Ok(message)
    } else if status == 300 || status == 301 {
        let message = String::from_str(url).concat(" (Redirect)");
        Ok(message)
    } else {
        let code = decimal_string(status);
        let mut reason = String::from_str("Error checking URL: ");
        reason.append(url);
        reason.append(" (status code: ");
        reason.append(code.as_str());
        reason.append(")");
        Err(reason)
    }
}

} // verus!
