//! Transport-executor logic: outcome classification and request addressing.
//!
//! The network call itself lives outside the library; what is verified here
//! is the classification of whatever came back (success, HTTP error, or
//! transport error), the connectivity probe's gate, the URL a request is
//! sent to, and the text recorded for a failed attempt.

use vstd::prelude::*;

use vstd::string::StringExecFns;

verus! {

/// The classified outcome of one attempt to replay an entry: a 2xx response
/// with its body, a non-2xx response with status and body text, or no
/// response at all.
#[derive(Debug)]
pub enum ItemOutcome {
    Success { body: String },
    HttpError { status: u16, body: String },
    TransportFailure { message: String },
}

/// A 2xx status.
pub open spec fn is_success_status(status: u16) -> bool {
    200 <= status < 300
}

/// The decimal digit character for one digit value.
pub open spec fn spec_digit_char(d: nat) -> char {
    if d == 0 {
        '0'
    } else if d == 1 {
        '1'
    } else if d == 2 {
        '2'
    } else if d == 3 {
        '3'
    } else if d == 4 {
        '4'
    } else if d == 5 {
        '5'
    } else if d == 6 {
        '6'
    } else if d == 7 {
        '7'
    } else if d == 8 {
        '8'
    } else {
        '9'
    }
}

/// The decimal representation of a number, without leading zeros (a lone
/// zero for zero itself).
pub open spec fn dec_rep(n: nat) -> Seq<char>
    decreases n,
{
    if n < 10 {
        seq![spec_digit_char(n)]
    } else {
        dec_rep(n / 10).push(spec_digit_char(n % 10))
    }
}

/// The text recorded for a failed attempt: status and body for an HTTP
/// error, the transport's message otherwise.  (A success records nothing.)
pub open spec fn outcome_error_text(o: ItemOutcome) -> Seq<char> {
    match o {
        ItemOutcome::Success { .. } => Seq::<char>::empty(),
        ItemOutcome::HttpError { status, body } => "HTTP "@ + dec_rep(
            status as nat,
        ) + " - "@ + body@,
        ItemOutcome::TransportFailure { message } => message@,
    }
}

/// The default backend the client replays against.
pub fn default_base_url() -> (r: String)
    ensures
        r@ == "https://api.isms.helevon.org/api/v1"@,
{
    "https://api.isms.helevon.org/api/v1".to_owned()
}

/// The full URL for a queued endpoint path: base followed by the path.
pub fn full_url(base: &String, endpoint: &String) -> (r: String)
    ensures
        r@ == base@ + endpoint@,
{
    base.clone().concat(endpoint.as_str())
}

/// The `Authorization` header value carrying a bearer credential.
pub fn bearer_header_value(token: &String) -> (r: String)
    ensures
        r@ == "Bearer "@ + token@,
{
    "Bearer ".to_owned().concat(token.as_str())
}

/// The prober's gate: online only when a response arrived and was 2xx.
pub fn probe_is_online(status: Option<u16>) -> (r: bool)
    ensures
        r == (status matches Some(s) && is_success_status(s)),
{
    match status {
        Some(s) => 200 <= s && s < 300,
        None => false,
    }
}

/// Classify a response that did arrive: 2xx is a success, anything else an
/// HTTP error carrying status and body text.
pub fn classify_response(status: u16, body: String) -> (r: ItemOutcome)
    ensures
        is_success_status(status) ==> r == (ItemOutcome::Success { body }),
        !is_success_status(status) ==> r == (ItemOutcome::HttpError { status, body }),
{
    if 200 <= status && status < 300 {
        ItemOutcome::Success { body }
    } else {
        ItemOutcome::HttpError { status, body }
    }
}

/// The one-character text of a decimal digit.
fn digit_str(d: u16) -> (r: &'static str)
    requires
        d < 10,
    ensures
        r@ == seq![spec_digit_char(d as nat)],
{
    proof {
        reveal_strlit("0");
        reveal_strlit("1");
        reveal_strlit("2");
        reveal_strlit("3");
        reveal_strlit("4");
        reveal_strlit("5");
        reveal_strlit("6");
        reveal_strlit("7");
        reveal_strlit("8");
        reveal_strlit("9");
    }
    if d == 0 {
        proof { assert("0"@ =~= seq![spec_digit_char(d as nat)]); }
        "0"
    } else if d == 1 {
        proof { assert("1"@ =~= seq![spec_digit_char(d as nat)]); }
        "1"
    } else if d == 2 {
        proof { assert("2"@ =~= seq![spec_digit_char(d as nat)]); }
        "2"
    } else if d == 3 {
        proof { assert("3"@ =~= seq![spec_digit_char(d as nat)]); }
        "3"
    } else if d == 4 {
        proof { assert("4"@ =~= seq![spec_digit_char(d as nat)]); }
        "4"
    } else if d == 5 {
        proof { assert("5"@ =~= seq![spec_digit_char(d as nat)]); }
        "5"
    } else if d == 6 {
        proof { assert("6"@ =~= seq![spec_digit_char(d as nat)]); }
        "6"
    } else if d == 7 {
        proof { assert("7"@ =~= seq![spec_digit_char(d as nat)]); }
        "7"
    } else if d == 8 {
        proof { assert("8"@ =~= seq![spec_digit_char(d as nat)]); }
        "8"
    } else {
        proof { assert("9"@ =~= seq![spec_digit_char(d as nat)]); }
        "9"
    }
}

/// The decimal text of a status code.
pub fn u16_to_string(n: u16) -> (r: String)
    ensures
        r@ == dec_rep(n as nat),
    decreases n,
{
    if n < 10 {
        String::from_str(digit_str(n))
    } else {
        let prefix = u16_to_string(n / 10);
        let r = prefix.concat(digit_str(n % 10));
        proof {
            assert(dec_rep((n / 10) as nat).push(spec_digit_char((n % 10) as nat)) =~= dec_rep(
                (n / 10) as nat,
            ) + seq![spec_digit_char((n % 10) as nat)]);
            assert(dec_rep(n as nat) == dec_rep((n / 10) as nat).push(
                spec_digit_char((n % 10) as nat),
            ));
        }
        r
    }
}

/// The text recorded on a failed attempt, exactly `outcome_error_text`.
pub fn outcome_error_message(o: &ItemOutcome) -> (r: String)
    ensures
        r@ == outcome_error_text(*o),
{
    match o {
        ItemOutcome::Success { .. } => String::new(),
        ItemOutcome::HttpError { status, body } => {
            let mut s = "HTTP ".to_owned();
            let digits = u16_to_string(*status);
            s.append(digits.as_str());
            s.append(" - ");
            s.append(body.as_str());
            proof {
                assert(s@ =~= "HTTP "@ + dec_rep(*status as nat) + " - "@ + body@);
            }
            s
        },
        ItemOutcome::TransportFailure { message } => message.clone(),
    }
}

} // verus!
