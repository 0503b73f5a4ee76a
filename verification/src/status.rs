use vstd::prelude::*;

verus! {

/// The fixed, deterministic mapping from a command's numeric error code to a
/// protocol status code. Code 0 marks success; the remaining entries cover the
/// command errors this gateway reports, and anything unlisted is a server error.
pub open spec fn spec_status_code(code: i32) -> u16 {
    if code == 0 {
        200
    } else if code == 13 {
        403
    } else if code == 18 {
        401
    } else if code == 26 || code == 59 {
        404
    } else if code == 50 {
        504
    } else {
        500
    }
}

/// Maps a numeric command error code to a protocol status code.
pub fn error_code_to_status_code(code: i32) -> (r: u16)
    ensures
        r == spec_status_code(code),
{
    if code == 0 {
        200
    } else if code == 13 {
        403
    } else if code == 18 {
        401
    } else if code == 26 || code == 59 {
        404
    } else if code == 50 {
        504
    } else {
        500
    }
}

/// The class bucket of a status code: its hundreds digit for 100..=599, and a
/// defensive catch-all bucket for anything outside that range.
pub open spec fn spec_status_class(status: u16) -> Seq<char> {
    let bucket = status / 100;
    if bucket == 1 {
        "1xx"@
    } else if bucket == 2 {
        "2xx"@
    } else if bucket == 3 {
        "3xx"@
    } else if bucket == 4 {
        "4xx"@
    } else if bucket == 5 {
        "5xx"@
    } else {
        "6xx"@
    }
}

/// Buckets a status code by its hundreds digit, with a catch-all for values
/// outside 100..=599.
pub fn status_code_to_class(status: u16) -> (r: &'static str)
    ensures
        r@ == spec_status_class(status),
{
    let trunc: u16 = status / 100;
    match trunc {
        1 => "1xx",
        2 => "2xx",
        3 => "3xx",
        4 => "4xx",
        5 => "5xx",
        _ => "6xx",
    }
}

pub uninterp spec fn reason_text(status: int) -> Seq<char>;

/// Relies on `http::StatusCode::from_u16` and `http::StatusCode::canonical_reason`:
/// the standardised reason phrase is a fixed table keyed by the numeric code
/// alone; a code outside 100..=999, or one without a registered phrase, gives
/// the empty string.
#[verifier::external_body]
pub(crate) fn status_text_of(status: u16) -> (r: String)
    ensures
        r@ == reason_text(status as int),
{
    match http::StatusCode::from_u16(status) {
        Ok(s) => s.canonical_reason().unwrap_or_default().to_string(),
        Err(_) => String::new(),
    }
}

/// Every status code falls into one of the six class buckets, and into the
/// defensive bucket exactly when its hundreds digit lies outside 1..=5.
pub proof fn lemma_status_class_total(status: u16)
    ensures
        spec_status_class(status) == "1xx"@ || spec_status_class(status) == "2xx"@
            || spec_status_class(status) == "3xx"@ || spec_status_class(status) == "4xx"@
            || spec_status_class(status) == "5xx"@ || spec_status_class(status) == "6xx"@,
        (spec_status_class(status) == "6xx"@) <==> !(1 <= status / 100 <= 5),
{
    reveal_strlit("1xx");
    reveal_strlit("2xx");
    reveal_strlit("3xx");
    reveal_strlit("4xx");
    reveal_strlit("5xx");
    reveal_strlit("6xx");
    assert(("1xx"@)[0] != ("6xx"@)[0]);
    assert(("2xx"@)[0] != ("6xx"@)[0]);
    assert(("3xx"@)[0] != ("6xx"@)[0]);
    assert(("4xx"@)[0] != ("6xx"@)[0]);
    assert(("5xx"@)[0] != ("6xx"@)[0]);
}

/// The status class of every mapped error code is a real protocol class: the
/// mapping lands inside 100..=599, so the defensive bucket never appears for it.
pub proof fn lemma_mapped_status_class_real(code: i32)
    ensures
        100 <= spec_status_code(code) < 600,
        spec_status_class(spec_status_code(code)) != "6xx"@,
{
    lemma_status_class_total(spec_status_code(code));
}

} // verus!
