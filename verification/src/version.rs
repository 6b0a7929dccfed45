use vstd::prelude::*;
use crate::text::{spec_find, find_char, chars_eq_str, lemma_find_is, lemma_find_range};

verus! {

/// A concrete semantic version: the terminal value of resolution.
#[derive(Clone, Copy, Debug, PartialEq, Eq, Structural)]
pub struct Version {
    pub major: u64,
    pub minor: u64,
    pub patch: u64,
}

pub open spec fn spec_is_digit(c: char) -> bool {
    '0' <= c && c <= '9'
}

pub open spec fn all_digits(s: Seq<char>) -> bool {
    forall|i: int| 0 <= i < s.len() ==> spec_is_digit(#[trigger] s[i])
}

pub open spec fn spec_digit_char(d: u64) -> char {
    if d == 0 { '0' }
    else if d == 1 { '1' }
    else if d == 2 { '2' }
    else if d == 3 { '3' }
    else if d == 4 { '4' }
    else if d == 5 { '5' }
    else if d == 6 { '6' }
    else if d == 7 { '7' }
    else if d == 8 { '8' }
    else { '9' }
}

/// The canonical decimal rendering of `n`, most significant digit first.
pub open spec fn spec_u64_digits(n: u64) -> Seq<char>
    decreases n,
{
    if n < 10 {
        seq![spec_digit_char(n)]
    } else {
        spec_u64_digits(n / 10).push(spec_digit_char(n % 10))
    }
}

/// The number a digit string denotes, folding from the right; `None` on a
/// non-digit character or on a value above `u64::MAX`. The empty string
/// denotes zero here; callers rule it out separately.
pub open spec fn spec_parse_digits(s: Seq<char>) -> Option<u64>
    decreases s.len(),
{
    if s.len() == 0 {
        Some(0u64)
    } else {
        let c = s.last();
        if !spec_is_digit(c) {
            None
        } else {
            match spec_parse_digits(s.drop_last()) {
                Option::None => None,
                Option::Some(hi) => {
                    let d = ((c as u32) - 48) as u64;
                    if hi > (u64::MAX - d) / 10 {
                        None
                    } else {
                        Some(((hi * 10 + d) as u64))
                    }
                },
            }
        }
    }
}

/// A non-empty digit string's value, or `None`.
pub open spec fn parse_u64_spec(s: Seq<char>) -> Option<u64> {
    if s.len() == 0 {
        None
    } else {
        spec_parse_digits(s)
    }
}

/// Rendering a number and reading it back yields the number; the rendering
/// is a non-empty, all-digit string.
pub proof fn lemma_digits_roundtrip(n: u64)
    ensures
        spec_u64_digits(n).len() >= 1,
        all_digits(spec_u64_digits(n)),
        spec_parse_digits(spec_u64_digits(n)) == Some(n),
        parse_u64_spec(spec_u64_digits(n)) == Some(n),
    decreases n,
{
    if n < 10 {
        let s = spec_u64_digits(n);
        assert(s =~= seq![spec_digit_char(n)]);
        assert(s.drop_last() =~= Seq::<char>::empty());
        assert(spec_parse_digits(Seq::<char>::empty()) == Some(0u64));
        assert(spec_is_digit(spec_digit_char(n)));
        assert(((spec_digit_char(n) as u32) - 48) as u64 == n);
        assert(spec_parse_digits(s) == Some(n));
    } else {
        lemma_digits_roundtrip(n / 10);
        let hi = (n / 10) as u64;
        let d = (n % 10) as u64;
        assert(d < 10 && hi * 10 + d == n) by (nonlinear_arith)
            requires
                n >= 10,
                hi == n / 10,
                d == n % 10,
        ;
        let s = spec_u64_digits(n);
        assert(s == spec_u64_digits(hi).push(spec_digit_char(d)));
        assert(s.drop_last() =~= spec_u64_digits(hi));
        assert(s.last() == spec_digit_char(d));
        assert(((spec_digit_char(d) as u32) - 48) as u64 == d);
        assert(hi <= (u64::MAX - d) / 10) by (nonlinear_arith)
            requires
                hi * 10 + d == n,
                d < 10,
                n <= u64::MAX,
        ;
        assert(spec_parse_digits(s) == Some(n));
        assert(forall|i: int| 0 <= i < s.len() ==> spec_is_digit(#[trigger] s[i]));
    }
}

/// One decimal digit as a string slice.
fn digit_str(d: u64) -> (r: &'static str)
    requires
        d < 10,
    ensures
        r@ =~= seq![spec_digit_char(d)],
{
    proof {
        reveal_strlit("0");
        reveal_strlit("1");
        reveal_strlit("2");
        reveal_strlit("3");
        reveal_strlit("4");
        reveal_strlit("5");
        reveal_strlit("6");
        reveal_strlit("7");
        reveal_strlit("8");
        reveal_strlit("9");
    }
    if d == 0 { "0" }
    else if d == 1 { "1" }
    else if d == 2 { "2" }
    else if d == 3 { "3" }
    else if d == 4 { "4" }
    else if d == 5 { "5" }
    else if d == 6 { "6" }
    else if d == 7 { "7" }
    else if d == 8 { "8" }
    else { "9" }
}

/// The canonical decimal rendering of `n`.
pub fn u64_to_string(n: u64) -> (r: String)
    ensures
        r@ == spec_u64_digits(n),
    decreases n,
{
    if n < 10 {
        digit_str(n).to_owned()
    } else {
        let hi = u64_to_string(n / 10);
        let r = hi.concat(digit_str(n % 10));
        proof {
            assert(n % 10 < 10) by (nonlinear_arith);
            assert(r@ =~= spec_u64_digits(n));
        }
        r
    }
}

/// The value of the digit run `v[start..end]`, or `None`.
pub fn parse_u64_range(v: &Vec<char>, start: usize, end: usize) -> (r: Option<u64>)
    requires
        start <= end <= v@.len(),
    ensures
        r == spec_parse_digits(v@.subrange(start as int, end as int)),
    decreases end - start,
{
    if start == end {
        proof {
            assert(v@.subrange(start as int, end as int) =~= Seq::<char>::empty());
        }
        Some(0)
    } else {
        let c = v[end - 1];
        proof {
            let s = v@.subrange(start as int, end as int);
            assert(s.last() == v@[end - 1]);
            assert(s.drop_last() =~= v@.subrange(start as int, end as int - 1));
        }
        if !('0' <= c && c <= '9') {
            None
        } else {
            match parse_u64_range(v, start, end - 1) {
                Option::None => None,
                Option::Some(hi) => {
                    let d = ((c as u32) - 48) as u64;
                    if hi > (u64::MAX - d) / 10 {
                        None
                    } else {
                        proof {
                            assert(hi * 10 + d <= u64::MAX) by (nonlinear_arith)
                                requires
                                    hi <= (u64::MAX - d) / 10,
                                    d <= 9,
                            ;
                        }
                        Some(hi * 10 + d)
                    }
                },
            }
        }
    }
}

/// The value of the non-empty digit run `v[start..end]`, or `None`.
pub fn parse_u64_chars(v: &Vec<char>, start: usize, end: usize) -> (r: Option<u64>)
    requires
        start <= end <= v@.len(),
    ensures
        r == parse_u64_spec(v@.subrange(start as int, end as int)),
{
    if start == end {
        None
    } else {
        parse_u64_range(v, start, end)
    }
}

/// The text of a version: digits, dot, digits, dot, digits.
pub open spec fn version_chars(v: Version) -> Seq<char> {
    spec_u64_digits(v.major) + seq!['.'] + spec_u64_digits(v.minor) + seq!['.']
        + spec_u64_digits(v.patch)
}

/// `"X.Y.Z"` as a string.
pub fn version_to_string(v: &Version) -> (r: String)
    ensures
        r@ == version_chars(*v),
{
    proof {
        reveal_strlit(".");
    }
    let mut r = u64_to_string(v.major);
    r.append(".");
    r.append(u64_to_string(v.minor).as_str());
    r.append(".");
    r.append(u64_to_string(v.patch).as_str());
    proof {
        assert(r@ =~= version_chars(*v));
    }
    r
}

/// The version a string denotes: exactly three dot-separated digit runs.
pub open spec fn spec_parse_version(s: Seq<char>) -> Option<Version> {
    let d1 = spec_find(s, '.', 0);
    if d1 >= s.len() {
        None
    } else {
        let d2 = spec_find(s, '.', d1 + 1);
        if d2 >= s.len() || spec_find(s, '.', d2 + 1) < s.len() {
            None
        } else {
            match (
                parse_u64_spec(s.subrange(0, d1)),
                parse_u64_spec(s.subrange(d1 + 1, d2)),
                parse_u64_spec(s.subrange(d2 + 1, s.len() as int)),
            ) {
                (Option::Some(a), Option::Some(b), Option::Some(c)) => Some(
                    Version { major: a, minor: b, patch: c },
                ),
                _ => None,
            }
        }
    }
}

pub fn parse_version(v: &Vec<char>) -> (r: Option<Version>)
    ensures
        r == spec_parse_version(v@),
{
    let d1 = find_char(v, '.', 0);
    if d1 >= v.len() {
        return None;
    }
    let d2 = find_char(v, '.', d1 + 1);
    if d2 >= v.len() {
        return None;
    }
    if find_char(v, '.', d2 + 1) < v.len() {
        return None;
    }
    match (
        parse_u64_chars(v, 0, d1),
        parse_u64_chars(v, d1 + 1, d2),
        parse_u64_chars(v, d2 + 1, v.len()),
    ) {
        (Option::Some(a), Option::Some(b), Option::Some(c)) => Some(
            Version { major: a, minor: b, patch: c },
        ),
        _ => None,
    }
}

/// Reading back the text of a version yields that version.
pub proof fn lemma_version_roundtrip(ver: Version)
    ensures
        spec_parse_version(version_chars(ver)) == Some(ver),
{
    let a = spec_u64_digits(ver.major);
    let b = spec_u64_digits(ver.minor);
    let c = spec_u64_digits(ver.patch);
    lemma_digits_roundtrip(ver.major);
    lemma_digits_roundtrip(ver.minor);
    lemma_digits_roundtrip(ver.patch);
    let s = version_chars(ver);
    let d1 = a.len() as int;
    let d2 = (a.len() + 1 + b.len()) as int;
    assert(s.len() == a.len() + b.len() + c.len() + 2);
    assert(forall|j: int| 0 <= j < d1 ==> s[j] == a[j]);
    assert(s[d1] == '.');
    assert(forall|j: int| 0 <= j < b.len() ==> s[d1 + 1 + j] == b[j]);
    assert(s[d2 as int] == '.');
    assert(forall|j: int| 0 <= j < c.len() ==> s[d2 + 1 + j] == c[j]);
    assert(forall|j: int| 0 <= j < d1 ==> s[j] != '.');
    lemma_find_is(s, '.', 0, d1);
    assert(forall|j: int| d1 + 1 <= j < d2 ==> s[j] != '.');
    lemma_find_is(s, '.', d1 + 1, d2 as int);
    assert(forall|j: int| d2 + 1 <= j < s.len() ==> s[j] != '.');
    lemma_find_is(s, '.', d2 + 1, s.len() as int);
    assert(s.subrange(0, d1) =~= a);
    assert(s.subrange(d1 + 1, d2 as int) =~= b);
    assert(s.subrange(d2 + 1, s.len() as int) =~= c);
}

/// A partial requirement: a major alone, or a major with a minor; a
/// trailing `*` component stands for "any".
pub open spec fn spec_parse_partial(s: Seq<char>) -> Option<(u64, Option<u64>)> {
    let d1 = spec_find(s, '.', 0);
    if d1 >= s.len() {
        match parse_u64_spec(s) {
            Option::Some(m) => Some((m, None)),
            Option::None => None,
        }
    } else {
        let first = s.subrange(0, d1);
        let d2 = spec_find(s, '.', d1 + 1);
        if d2 >= s.len() {
            let second = s.subrange(d1 + 1, s.len() as int);
            if second == seq!['*'] {
                match parse_u64_spec(first) {
                    Option::Some(m) => Some((m, None)),
                    Option::None => None,
                }
            } else {
                match (parse_u64_spec(first), parse_u64_spec(second)) {
                    (Option::Some(m), Option::Some(n)) => Some((m, Some(n))),
                    _ => None,
                }
            }
        } else {
            if spec_find(s, '.', d2 + 1) < s.len() {
                None
            } else {
                let second = s.subrange(d1 + 1, d2);
                let third = s.subrange(d2 + 1, s.len() as int);
                if third == seq!['*'] {
                    match (parse_u64_spec(first), parse_u64_spec(second)) {
                        (Option::Some(m), Option::Some(n)) => Some((m, Some(n))),
                        _ => None,
                    }
                } else {
                    None
                }
            }
        }
    }
}

pub fn parse_partial(v: &Vec<char>) -> (r: Option<(u64, Option<u64>)>)
    ensures
        r == spec_parse_partial(v@),
{
    let d1 = find_char(v, '.', 0);
    if d1 >= v.len() {
        proof {
            assert(v@.subrange(0, v@.len() as int) =~= v@);
        }
        match parse_u64_chars(v, 0, v.len()) {
            Option::Some(m) => Some((m, None)),
            Option::None => None,
        }
    } else {
        let d2 = find_char(v, '.', d1 + 1);
        if d2 >= v.len() {
            let second = crate::text::sub_chars(v, d1 + 1, v.len());
            if chars_eq_str(&second, "*") {
                proof {
                    reveal_strlit("*");
                    assert(second@ =~= seq!['*']);
                }
                match parse_u64_chars(v, 0, d1) {
                    Option::Some(m) => Some((m, None)),
                    Option::None => None,
                }
            } else {
                proof {
                    reveal_strlit("*");
                    if second@ == seq!['*'] {
                        assert(second@ =~= "*"@);
                    }
                }
                match (parse_u64_chars(v, 0, d1), parse_u64_chars(v, d1 + 1, d2)) {
                    (Option::Some(m), Option::Some(n)) => Some((m, Some(n))),
                    _ => None,
                }
            }
        } else {
            if find_char(v, '.', d2 + 1) < v.len() {
                None
            } else {
                let third = crate::text::sub_chars(v, d2 + 1, v.len());
                proof {
                    reveal_strlit("*");
                    if third@ == seq!['*'] {
                        assert(third@ =~= "*"@);
                    }
                    if third@ =~= "*"@ {
                        assert(third@ =~= seq!['*']);
                    }
                }
                if chars_eq_str(&third, "*") {
                    match (parse_u64_chars(v, 0, d1), parse_u64_chars(v, d1 + 1, d2)) {
                        (Option::Some(m), Option::Some(n)) => Some((m, Some(n))),
                        _ => None,
                    }
                } else {
                    None
                }
            }
        }
    }
}

/// Ordering of versions: by major, then minor, then patch.
pub open spec fn spec_version_le(a: Version, b: Version) -> bool {
    a.major < b.major || (a.major == b.major && (a.minor < b.minor || (a.minor == b.minor
        && a.patch <= b.patch)))
}

pub fn version_le(a: &Version, b: &Version) -> (r: bool)
    ensures
        r == spec_version_le(*a, *b),
{
    a.major < b.major || (a.major == b.major && (a.minor < b.minor || (a.minor == b.minor
        && a.patch <= b.patch)))
}

pub fn contains_version(list: &Vec<Version>, v: &Version) -> (r: bool)
    ensures
        r == list@.contains(*v),
{
    let mut i: usize = 0;
    while i < list.len()
        invariant
            0 <= i <= list@.len(),
            forall|j: int| 0 <= j < i ==> list@[j] != *v,
        decreases list@.len() - i,
    {
        if list[i] == *v {
            return true;
        }
        i += 1;
    }
    false
}

/// Whether `v` satisfies the partial requirement `(maj, min)`.
pub open spec fn req_matches(v: Version, maj: u64, min: Option<u64>) -> bool {
    v.major == maj && (min matches Some(m) ==> v.minor == m)
}

/// The highest version in `list` matching the partial requirement, if any.
pub open spec fn spec_best(list: Seq<Version>, maj: u64, min: Option<u64>) -> Option<Version>
    decreases list.len(),
{
    if list.len() == 0 {
        None
    } else {
        let h = list[0];
        let rest = spec_best(list.drop_first(), maj, min);
        if req_matches(h, maj, min) {
            match rest {
                Option::None => Some(h),
                Option::Some(b) => if spec_version_le(b, h) {
                    Some(h)
                } else {
                    Some(b)
                },
            }
        } else {
            rest
        }
    }
}

/// What the best match is: a matching member of the list that every other
/// matching member is at or below; `None` exactly when nothing matches.
pub proof fn lemma_spec_best_props(list: Seq<Version>, maj: u64, min: Option<u64>)
    ensures
        spec_best(list, maj, min) is None ==> forall|i: int|
            0 <= i < list.len() ==> !req_matches(#[trigger] list[i], maj, min),
        spec_best(list, maj, min) matches Some(b) ==> list.contains(b) && req_matches(
            b,
            maj,
            min,
        ) && forall|i: int|
            0 <= i < list.len() && req_matches(#[trigger] list[i], maj, min)
                ==> spec_version_le(list[i], b),
    decreases list.len(),
{
    if list.len() > 0 {
        let rest = list.drop_first();
        lemma_spec_best_props(rest, maj, min);
        match spec_best(list, maj, min) {
            Option::None => {
                assert forall|i: int| 0 <= i < list.len() implies !req_matches(
                    list[i],
                    maj,
                    min,
                ) by {
                    if i > 0 {
                        assert(rest[i - 1] == list[i]);
                    }
                }
            },
            Option::Some(b) => {
                match spec_best(rest, maj, min) {
                    Option::None => {
                        assert(b == list[0]);
                        assert(list.contains(list[0]));
                        assert forall|i: int|
                            0 <= i < list.len() && req_matches(list[i], maj, min) implies
                            spec_version_le(list[i], b) by {
                            if i > 0 {
                                assert(rest[i - 1] == list[i]);
                            }
                        }
                    },
                    Option::Some(br) => {
                        let j = choose|j: int| 0 <= j < rest.len() && rest[j] == br;
                        assert(list[j + 1] == br);
                        assert(list.contains(br));
                        assert(list.contains(list[0]));
                        assert forall|i: int|
                            0 <= i < list.len() && req_matches(list[i], maj, min) implies
                            spec_version_le(list[i], b) by {
                            if i > 0 {
                                assert(rest[i - 1] == list[i]);
                                assert(spec_version_le(rest[i - 1], br));
                            }
                        }
                    },
                }
            },
        }
    }
}

fn best_from(list: &Vec<Version>, maj: u64, min: Option<u64>, i: usize) -> (r: Option<Version>)
    requires
        i <= list@.len(),
    ensures
        r == spec_best(list@.skip(i as int), maj, min),
    decreases list@.len() - i,
{
    if i >= list.len() {
        proof {
            assert(list@.skip(i as int) =~= Seq::<Version>::empty());
        }
        None
    } else {
        proof {
            assert(list@.skip(i as int)[0] == list@[i as int]);
            assert(list@.skip(i as int).drop_first() =~= list@.skip(i as int + 1));
        }
        let h = list[i];
        let rest = best_from(list, maj, min, i + 1);
        let matches_req = h.major == maj && (match min {
            Option::Some(m) => h.minor == m,
            Option::None => true,
        });
        if matches_req {
            match rest {
                Option::None => Some(h),
                Option::Some(b) => if version_le(&b, &h) {
                    Some(h)
                } else {
                    Some(b)
                },
            }
        } else {
            rest
        }
    }
}

/// The highest version in `list` matching the partial requirement, if any.
pub fn best_match(list: &Vec<Version>, maj: u64, min: Option<u64>) -> (r: Option<Version>)
    ensures
        r == spec_best(list@, maj, min),
{
    proof {
        assert(list@.skip(0) =~= list@);
    }
    best_from(list, maj, min, 0)
}

/// A string whose digits parse is made of digit characters only.
pub proof fn lemma_parse_digits_all_digits(s: Seq<char>)
    requires
        spec_parse_digits(s) is Some,
    ensures
        all_digits(s),
    decreases s.len(),
{
    if s.len() > 0 {
        lemma_parse_digits_all_digits(s.drop_last());
        assert forall|i: int| 0 <= i < s.len() implies spec_is_digit(s[i]) by {
            if i < s.len() - 1 {
                assert(s.drop_last()[i] == s[i]);
            } else {
                assert(s[i] == s.last());
            }
        }
    }
}

/// The text of a version begins with a digit, so it carries no `v` prefix.
pub proof fn lemma_parse_version_first_digit(s: Seq<char>)
    requires
        spec_parse_version(s) is Some,
    ensures
        s.len() > 0,
        spec_is_digit(s[0]),
{
    let d1 = spec_find(s, '.', 0);
    lemma_find_range(s, '.', 0);
    let first = s.subrange(0, d1);
    assert(parse_u64_spec(first) is Some);
    lemma_parse_digits_all_digits(first);
    assert(first[0] == s[0]);
}

} // verus!
