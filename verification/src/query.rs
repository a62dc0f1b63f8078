//! Requested-dimension parameters: turn the raw query-parameter values into
//! the optional positive target width and height.
//!
//! Each dimension has a long name (`width`, `height`) and a short alias
//! (`w`, `h`); when both are supplied the long name wins. A value that is
//! not a plain decimal numeral, is zero, or does not fit in a `u32` is
//! treated as if the parameter had not been supplied.

use vstd::prelude::*;
use vstd::string::*;

verus! {

/// `c` is a decimal digit.
pub open spec fn is_digit(c: char) -> bool {
    48 <= c as int <= 57
}

/// The numeric value of the digit `c`.
pub open spec fn digit_val(c: char) -> int {
    c as int - 48
}

/// The value of a digit string, most significant digit first.
pub open spec fn digits_val(s: Seq<char>) -> int
    decreases s.len(),
{
    if s.len() == 0 {
        0
    } else {
        digits_val(s.drop_last()) * 10 + digit_val(s.last())
    }
}

/// What a query-parameter value denotes: a positive integer that fits in a
/// `u32`, written as a nonempty string of decimal digits; anything else
/// denotes nothing.
pub open spec fn parse_positive_spec(s: Seq<char>) -> Option<u32> {
    if s.len() >= 1 && (forall|i: int| 0 <= i < s.len() ==> is_digit(s[i])) && 1 <= digits_val(s)
        <= u32::MAX {
        Some(digits_val(s) as u32)
    } else {
        None
    }
}

/// Parse a query-parameter value as a positive `u32` written in decimal.
pub fn parse_positive(s: &str) -> (r: Option<u32>)
    ensures
        r == parse_positive_spec(s@),
{
    let len = s.unicode_len();
    if len == 0 {
        return None;
    }
    let mut acc: u64 = 0;
    let mut too_big = false;
    let mut i: usize = 0;
    while i < len
        invariant
            0 <= i <= len,
            len == s@.len(),
            forall|j: int| 0 <= j < i ==> is_digit(s@[j]),
            !too_big ==> acc == digits_val(s@.take(i as int)) && acc <= u32::MAX,
            too_big ==> digits_val(s@.take(i as int)) > u32::MAX,
        decreases len - i,
    {
        let c = s.get_char(i);
        let code = c as u32;
        if code < 48 || code > 57 {
            assert(!is_digit(s@[i as int]));
            return None;
        }
        let d: u64 = (code - 48) as u64;
        proof {
            assert(s@.take(i as int + 1).drop_last() =~= s@.take(i as int));
            assert(s@.take(i as int + 1).last() == s@[i as int]);
        }
        if too_big {
            proof {
                let prev = digits_val(s@.take(i as int));
                assert(digits_val(s@.take(i as int + 1)) == prev * 10 + digit_val(s@[i as int]));
                assert(prev * 10 > u32::MAX * 10) by (nonlinear_arith)
                    requires
                        prev > u32::MAX,
                ;
            }
        } else {
            acc = acc * 10 + d;
            if acc > u32::MAX as u64 {
                too_big = true;
            }
        }
        i = i + 1;
    }
    proof {
        assert(s@.take(len as int) =~= s@);
    }
    if too_big {
        return None;
    }
    if acc == 0 {
        return None;
    }
    Some(acc as u32)
}

/// Index of the end of the segment that starts at `i`: the first position
/// at or after `i` holding `'&'`, or the end of the string.
pub open spec fn seg_end(q: Seq<char>, i: int) -> int
    decreases q.len() - i,
{
    if i < 0 || i >= q.len() {
        q.len() as int
    } else if q[i] == '&' {
        i
    } else {
        seg_end(q, i + 1)
    }
}

/// `seg_end` stays within bounds, skips no separator, and stops at one.
proof fn lemma_seg_end(q: Seq<char>, i: int)
    requires
        0 <= i <= q.len(),
    ensures
        i <= seg_end(q, i) <= q.len(),
        forall|j: int| i <= j < seg_end(q, i) ==> q[j] != '&',
        seg_end(q, i) < q.len() ==> q[seg_end(q, i)] == '&',
    decreases q.len() - i,
{
    if i < q.len() && q[i] != '&' {
        lemma_seg_end(q, i + 1);
    }
}

/// A scan that finds no separator before `e` and a separator (or the end)
/// at `e` has found exactly `seg_end`.
proof fn lemma_seg_end_unique(q: Seq<char>, i: int, e: int)
    requires
        0 <= i <= e <= q.len(),
        forall|j: int| i <= j < e ==> q[j] != '&',
        e < q.len() ==> q[e] == '&',
    ensures
        seg_end(q, i) == e,
    decreases e - i,
{
    if i < e {
        lemma_seg_end_unique(q, i + 1, e);
    }
}

/// The segment `[i, e)` of `q` is a `key=value` binding for `key`.
pub open spec fn seg_matches(q: Seq<char>, key: Seq<char>, i: int, e: int) -> bool {
    &&& e - i > key.len()
    &&& q.subrange(i, i + key.len()) == key
    &&& q[i + key.len()] == '='
}

/// The value of the first `key=value` segment at or after `i`, segments
/// being separated by `'&'`.
pub open spec fn lookup_from(q: Seq<char>, key: Seq<char>, i: int) -> Option<Seq<char>>
    decreases q.len() - i,
    via lookup_from_decreases
{
    if 0 <= i <= q.len() {
        let e = seg_end(q, i);
        if seg_matches(q, key, i, e) {
            Some(q.subrange(i + key.len() + 1, e))
        } else if e >= q.len() {
            None
        } else {
            lookup_from(q, key, e + 1)
        }
    } else {
        None
    }
}

#[via_fn]
proof fn lookup_from_decreases(q: Seq<char>, key: Seq<char>, i: int) {
    if 0 <= i <= q.len() {
        lemma_seg_end(q, i);
    }
}

/// What the raw value of `key` in the query string `q` is: the value of the
/// first `key=value` segment, or nothing when no segment binds `key`.
pub open spec fn lookup_spec(q: Seq<char>, key: Seq<char>) -> Option<Seq<char>> {
    lookup_from(q, key, 0)
}

/// Find the raw value of `key` in the query string `q`. Segments are
/// separated by `'&'`; the first segment of the form `key=value` wins.
pub fn query_value(q: &str, key: &str) -> (r: Option<String>)
    ensures
        r matches Some(v) ==> lookup_spec(q@, key@) == Some(v@),
        r is None ==> lookup_spec(q@, key@) is None,
{
    let qlen = q.unicode_len();
    let klen = key.unicode_len();
    let mut i: usize = 0;
    loop
        invariant
            i <= qlen,
            qlen == q@.len(),
            klen == key@.len(),
            lookup_from(q@, key@, i as int) == lookup_spec(q@, key@),
        decreases qlen - i,
    {
        let ghost gq = q@;
        let ghost gkey = key@;
        let mut e: usize = i;
        while e < qlen && q.get_char(e) != '&'
            invariant
                i <= e <= qlen,
                qlen == gq.len(),
                gq == q@,
                forall|j: int| i <= j < e ==> gq[j] != '&',
            decreases qlen - e,
        {
            e = e + 1;
        }
        proof {
            lemma_seg_end_unique(gq, i as int, e as int);
        }
        if e - i > klen {
            let mut eq = true;
            let mut k: usize = 0;
            while k < klen
                invariant
                    k <= klen,
                    klen == gkey.len(),
                    gq == q@,
                    gkey == key@,
                    i + klen < e <= qlen,
                    qlen == gq.len(),
                    eq <==> (forall|j: int| 0 <= j < k ==> gq[i + j] == gkey[j]),
                decreases klen - k,
            {
                eq = eq && q.get_char(i + k) == key.get_char(k);
                k = k + 1;
            }
            if eq && q.get_char(i + klen) == '=' {
                proof {
                    assert(gq.subrange(i as int, i + klen) =~= gkey);
                    assert(seg_matches(gq, gkey, i as int, e as int));
                }
                let v = q.substring_char(i + klen + 1, e).to_owned();
                proof {
                    assert(lookup_from(gq, gkey, i as int) == Some(
                        gq.subrange(i + klen + 1, e as int),
                    ));
                }
                return Some(v);
            }
            proof {
                if !eq {
                    assert(exists|j: int| 0 <= j < klen && gq[i + j] != gkey[j]);
                    let j0 = choose|j: int| 0 <= j < klen && gq[i + j] != gkey[j];
                    assert(gq.subrange(i as int, i + klen)[j0] != gkey[j0]);
                    assert(gq.subrange(i as int, i + klen) != gkey);
                }
                assert(!seg_matches(gq, gkey, i as int, e as int));
            }
        } else {
            proof {
                assert(!seg_matches(gq, gkey, i as int, e as int));
            }
        }
        if e == qlen {
            proof {
                assert(lookup_from(gq, gkey, i as int) is None);
            }
            return None;
        }
        proof {
            assert(lookup_from(gq, gkey, i as int) == lookup_from(gq, gkey, e as int + 1));
        }
        i = e + 1;
    }
}

/// The requested value for a dimension whose long alias is `long_key` and
/// whose short alias is `short_key`: the long name wins, and a value that
/// does not denote a positive `u32` counts as absent.
pub open spec fn requested_spec(q: Seq<char>, long_key: Seq<char>, short_key: Seq<char>) -> Option<
    u32,
> {
    let long = match lookup_spec(q, long_key) {
        Some(v) => parse_positive_spec(v),
        None => None,
    };
    let short = match lookup_spec(q, short_key) {
        Some(v) => parse_positive_spec(v),
        None => None,
    };
    if long is Some {
        long
    } else {
        short
    }
}

/// Resolve the requested width and height from a raw query string, honoring
/// the `width`/`w` and `height`/`h` aliases with the long names winning.
pub fn parse_query(q: &str) -> (r: (Option<u32>, Option<u32>))
    ensures
        r.0 == requested_spec(q@, "width"@, "w"@),
        r.1 == requested_spec(q@, "height"@, "h"@),
        r.0 matches Some(v) ==> v >= 1,
        r.1 matches Some(v) ==> v >= 1,
{
    let width = requested_dimension(
        parse_param(&query_value(q, "width")),
        parse_param(&query_value(q, "w")),
    );
    let height = requested_dimension(
        parse_param(&query_value(q, "height")),
        parse_param(&query_value(q, "h")),
    );
    (width, height)
}

/// Parse an optional query-parameter value; an absent parameter denotes
/// nothing.
pub fn parse_param(v: &Option<String>) -> (r: Option<u32>)
    ensures
        r == match v {
            Some(s) => parse_positive_spec(s@),
            None => None::<u32>,
        },
{
    match v {
        Some(s) => parse_positive(s.as_str()),
        None => None,
    }
}

/// Resolve the two aliases of one dimension parameter: the long name wins
/// over the short one whenever both are supplied.
pub fn requested_dimension(long: Option<u32>, short: Option<u32>) -> (r: Option<u32>)
    ensures
        r == if long is Some {
            long
        } else {
            short
        },
{
    match long {
        Some(v) => Some(v),
        None => short,
    }
}

} // verus!
