//! Response policy: map the outcome of the pipeline to an HTTP status code, a
//! `Cache-Control` directive, and a body.
//!
//! Failures are cached for different lengths of time: a missing source may
//! reappear soon (8 hours), while bytes that are not an image are unlikely to
//! ever become one (7 days); successful conversions are cached longest (30
//! days).

use vstd::prelude::*;

verus! {

/// Structured per-request facts for the surrounding shell to log: the source
/// dimensions and the dimensions of the resized output.
#[derive(Clone, Copy, PartialEq, Eq, Structural, Debug)]
pub struct Metrics {
    pub source_width: u32,
    pub source_height: u32,
    pub target_width: u32,
    pub target_height: u32,
}

/// Result of running the pipeline on one request.
#[derive(Debug)]
pub enum Outcome {
    /// The resized JPEG, with the dimensions that were involved.
    Success { body: Vec<u8>, metrics: Metrics },
    /// Neither the local directory nor the remote origin had the path.
    SourceNotFound,
    /// The fetched bytes could not be decoded as an image.
    DecodeFailed,
    /// The resampler failed on a valid image (an internal error).
    ResizeFailed,
}

/// What is sent back over HTTP: a status code, the rendered `Cache-Control`
/// header value, whether the body is a JPEG, and the body itself (JPEG bytes
/// on success, a short diagnostic text otherwise).
pub struct HttpResponse {
    pub status: u16,
    pub cache_control: String,
    pub content_type_jpeg: bool,
    pub jpeg_body: Vec<u8>,
    pub message: String,
}

/// HTTP status code for an outcome.
pub open spec fn status_spec(o: &Outcome) -> int {
    match o {
        Outcome::Success { .. } => 200,
        Outcome::SourceNotFound => 404,
        Outcome::DecodeFailed => 500,
        Outcome::ResizeFailed => 500,
    }
}

/// Seconds of shared-cache lifetime for an outcome.
pub open spec fn max_age_spec(o: &Outcome) -> int {
    match o {
        Outcome::Success { .. } => 2592000,  // 30 days
        Outcome::SourceNotFound => 28800,  // 8 hours
        Outcome::DecodeFailed => 604800,  // 7 days
        Outcome::ResizeFailed => 28800,  // 8 hours
    }
}

/// The decimal digit `d` as a character.
pub open spec fn digit_char(d: nat) -> char {
    if d == 0 {
        '0'
    } else if d == 1 {
        '1'
    } else if d == 2 {
        '2'
    } else if d == 3 {
        '3'
    } else if d == 4 {
        '4'
    } else if d == 5 {
        '5'
    } else if d == 6 {
        '6'
    } else if d == 7 {
        '7'
    } else if d == 8 {
        '8'
    } else {
        '9'
    }
}

/// The decimal digits of `n`, most significant first, with no leading zeros
/// (except for `n == 0`, which is the single digit `0`).
pub open spec fn dec_chars(n: nat) -> Seq<char>
    decreases n,
{
    if n < 10 {
        seq![digit_char(n)]
    } else {
        dec_chars(n / 10).push(digit_char(n % 10))
    }
}

/// The rendered `Cache-Control` value for a lifetime of `n` seconds.
pub open spec fn cache_control_chars(n: nat) -> Seq<char> {
    "public, s-maxage="@ + dec_chars(n)
}

/// Law: a missing source is answered 404 and cached for eight hours.
pub proof fn lemma_not_found_policy()
    ensures
        status_spec(&Outcome::SourceNotFound) == 404,
        max_age_spec(&Outcome::SourceNotFound) == 28800,
        cache_control_chars(28800) == "public, s-maxage=28800"@,
{
    reveal_strlit("public, s-maxage=");
    reveal_strlit("public, s-maxage=28800");
    assert(dec_chars(2) =~= seq!['2']);
    assert(dec_chars(28) =~= seq!['2', '8']);
    assert(dec_chars(288) =~= seq!['2', '8', '8']);
    assert(dec_chars(2880) =~= seq!['2', '8', '8', '0']);
    assert(dec_chars(28800) =~= seq!['2', '8', '8', '0', '0']);
    assert(cache_control_chars(28800) =~= "public, s-maxage=28800"@);
}

/// Law: bytes that are not a decodable image are answered 500 and cached
/// for seven days, longer than a missing source, since they are unlikely to
/// ever become a valid image.
pub proof fn lemma_decode_failed_policy()
    ensures
        status_spec(&Outcome::DecodeFailed) == 500,
        max_age_spec(&Outcome::DecodeFailed) == 604800,
        cache_control_chars(604800) == "public, s-maxage=604800"@,
        max_age_spec(&Outcome::DecodeFailed) > max_age_spec(&Outcome::SourceNotFound),
{
    reveal_strlit("public, s-maxage=");
    reveal_strlit("public, s-maxage=604800");
    assert(dec_chars(6) =~= seq!['6']);
    assert(dec_chars(60) =~= seq!['6', '0']);
    assert(dec_chars(604) =~= seq!['6', '0', '4']);
    assert(dec_chars(6048) =~= seq!['6', '0', '4', '8']);
    assert(dec_chars(60480) =~= seq!['6', '0', '4', '8', '0']);
    assert(dec_chars(604800) =~= seq!['6', '0', '4', '8', '0', '0']);
    assert(cache_control_chars(604800) =~= "public, s-maxage=604800"@);
}

/// Law: a resampler failure is answered 500 and cached for eight hours, like
/// a missing source, since it may be transient.
pub proof fn lemma_resize_failed_policy()
    ensures
        status_spec(&Outcome::ResizeFailed) == 500,
        max_age_spec(&Outcome::ResizeFailed) == 28800,
        cache_control_chars(28800) == "public, s-maxage=28800"@,
{
    lemma_not_found_policy();
}

/// Law: a success is answered 200 and cached for thirty days.
pub proof fn lemma_success_policy(o: &Outcome)
    requires
        o is Success,
    ensures
        status_spec(o) == 200,
        max_age_spec(o) == 2592000,
        cache_control_chars(2592000) == "public, s-maxage=2592000"@,
{
    reveal_strlit("public, s-maxage=");
    reveal_strlit("public, s-maxage=2592000");
    assert(dec_chars(2) =~= seq!['2']);
    assert(dec_chars(25) =~= seq!['2', '5']);
    assert(dec_chars(259) =~= seq!['2', '5', '9']);
    assert(dec_chars(2592) =~= seq!['2', '5', '9', '2']);
    assert(dec_chars(25920) =~= seq!['2', '5', '9', '2', '0']);
    assert(dec_chars(259200) =~= seq!['2', '5', '9', '2', '0', '0']);
    assert(dec_chars(2592000) =~= seq!['2', '5', '9', '2', '0', '0', '0']);
    assert(cache_control_chars(2592000) =~= "public, s-maxage=2592000"@);
}

/// The decimal digit `d` as a one-character string slice.
fn digit_str(d: u32) -> (r: &'static str)
    requires
        d < 10,
    ensures
        r@ == seq![digit_char(d as nat)],
{
    proof {
        reveal_strlit("0");
        reveal_strlit("1");
        reveal_strlit("2");
        reveal_strlit("3");
        reveal_strlit("4");
        reveal_strlit("5");
        reveal_strlit("6");
        reveal_strlit("7");
        reveal_strlit("8");
        reveal_strlit("9");
    }
    let r: &'static str = if d == 0 {
        "0"
    } else if d == 1 {
        "1"
    } else if d == 2 {
        "2"
    } else if d == 3 {
        "3"
    } else if d == 4 {
        "4"
    } else if d == 5 {
        "5"
    } else if d == 6 {
        "6"
    } else if d == 7 {
        "7"
    } else if d == 8 {
        "8"
    } else {
        "9"
    };
    assert(r@ =~= seq![digit_char(d as nat)]);
    r
}

/// Render `n` in decimal.
pub fn decimal_string(n: u32) -> (s: String)
    ensures
        s@ == dec_chars(n as nat),
    decreases n,
{
    if n < 10 {
        let s = digit_str(n).to_owned();
        assert(s@ =~= dec_chars(n as nat));
        s
    } else {
        let mut s = decimal_string(n / 10);
        s.append(digit_str(n % 10));
        assert(s@ =~= dec_chars(n as nat));
        s
    }
}

/// Render the `Cache-Control` header value for a lifetime of `n` seconds.
pub fn cache_control_value(n: u32) -> (s: String)
    ensures
        s@ == cache_control_chars(n as nat),
{
    let mut s = "public, s-maxage=".to_owned();
    let digits = decimal_string(n);
    s.append(digits.as_str());
    assert(s@ =~= cache_control_chars(n as nat));
    s
}

/// Map an outcome to the HTTP response described by the policy table: the
/// status code, the `Cache-Control` value, the content type, and the body.
pub fn respond(outcome: Outcome) -> (r: HttpResponse)
    ensures
        r.status as int == status_spec(&outcome),
        r.cache_control@ == cache_control_chars(max_age_spec(&outcome) as nat),
        r.content_type_jpeg <==> outcome matches Outcome::Success { .. },
        outcome matches Outcome::Success { body, metrics } ==> r.jpeg_body@ == body@
            && r.message@.len() == 0,
        outcome matches Outcome::SourceNotFound ==> r.message@.len() == 0 && r.jpeg_body@.len()
            == 0,
        outcome matches Outcome::DecodeFailed ==> r.message@ == "Decode image error"@
            && r.jpeg_body@.len() == 0,
        outcome matches Outcome::ResizeFailed ==> r.message@ == "Resize image error"@
            && r.jpeg_body@.len() == 0,
{
    proof {
        reveal_strlit("");
    }
    match outcome {
        Outcome::Success { body, metrics: _ } => HttpResponse {
            status: 200,
            cache_control: cache_control_value(2592000),
            content_type_jpeg: true,
            jpeg_body: body,
            message: "".to_owned(),
        },
        Outcome::SourceNotFound => HttpResponse {
            status: 404,
            cache_control: cache_control_value(28800),
            content_type_jpeg: false,
            jpeg_body: Vec::new(),
            message: "".to_owned(),
        },
        Outcome::DecodeFailed => HttpResponse {
            status: 500,
            cache_control: cache_control_value(604800),
            content_type_jpeg: false,
            jpeg_body: Vec::new(),
            message: "Decode image error".to_owned(),
        },
        Outcome::ResizeFailed => HttpResponse {
            status: 500,
            cache_control: cache_control_value(28800),
            content_type_jpeg: false,
            jpeg_body: Vec::new(),
            message: "Resize image error".to_owned(),
        },
    }
}

} // verus!
