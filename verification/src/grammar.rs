use vstd::prelude::*;
use crate::fields::{FieldSet, all_digits, is_digit_char, opt_text_view};

verus! {

/// The index just past the maximal run of digit characters starting at `i`.
pub open spec fn digit_run_end(s: Seq<char>, i: int) -> int
    decreases s.len() - i,
{
    if i < s.len() && is_digit_char(s[i]) {
        digit_run_end(s, i + 1)
    } else {
        i
    }
}

/// A digit run neither starts before its origin nor leaves the string.
pub proof fn lemma_run_bounds(s: Seq<char>, i: int)
    requires
        0 <= i <= s.len(),
    ensures
        i <= digit_run_end(s, i) <= s.len(),
    decreases s.len() - i,
{
    if i < s.len() && is_digit_char(s[i]) {
        lemma_run_bounds(s, i + 1);
    }
}

/// Every character strictly inside a digit run is a digit.
pub proof fn lemma_run_digits(s: Seq<char>, i: int, k: int)
    requires
        0 <= i <= k < digit_run_end(s, i),
        i <= s.len(),
    ensures
        is_digit_char(s[k]),
    decreases k - i,
{
    if i == k {
        assert(i < s.len() && is_digit_char(s[i]));
    } else {
        assert(i < s.len() && is_digit_char(s[i]));
        lemma_run_digits(s, i + 1, k);
    }
}

/// A suffix-tagged component `digits x` is present at `i` when a non-empty
/// digit run there is followed by the suffix character `x`.
pub open spec fn comp_present(s: Seq<char>, i: int, x: char) -> bool {
    let e = digit_run_end(s, i);
    e > i && e < s.len() && s[e] == x
}

/// The index just past the component at `i` (unchanged when it is absent).
pub open spec fn comp_end(s: Seq<char>, i: int, x: char) -> int {
    if comp_present(s, i, x) {
        digit_run_end(s, i) + 1
    } else {
        i
    }
}

/// The digits of the run starting at `i`.
pub open spec fn comp_text(s: Seq<char>, i: int) -> Seq<char> {
    s.subrange(i, digit_run_end(s, i))
}

/// The captured digits of the component at `i`, if it is present.
pub open spec fn comp_field(s: Seq<char>, i: int, x: char) -> Option<Seq<char>> {
    if comp_present(s, i, x) {
        Some(comp_text(s, i))
    } else {
        None
    }
}

pub proof fn lemma_comp_end_bounds(s: Seq<char>, i: int, x: char)
    requires
        0 <= i <= s.len(),
    ensures
        i <= comp_end(s, i, x) <= s.len(),
{
    lemma_run_bounds(s, i);
}

/// Every character of a present component is a digit or its suffix.
pub proof fn lemma_comp_chars(s: Seq<char>, i: int, x: char, k: int)
    requires
        0 <= i <= s.len(),
        i <= k < comp_end(s, i, x),
    ensures
        is_digit_char(s[k]) || s[k] == x,
{
    if comp_present(s, i, x) {
        let e = digit_run_end(s, i);
        if k < e {
            lemma_run_digits(s, i, k);
        }
    }
}

/// A closing component: a non-empty digit run followed by any number of `x`
/// up to the end of the string, the whole being allowed to be empty.
pub open spec fn tail_matches(s: Seq<char>, i: int, x: char) -> bool {
    i == s.len() || {
        let e = digit_run_end(s, i);
        e > i && (forall|j: int| e <= j < s.len() ==> s[j] == x)
    }
}

/// The captured digits of a closing component, absent when it is empty.
pub open spec fn tail_field(s: Seq<char>, i: int, x: char) -> Option<Seq<char>> {
    if i < s.len() && tail_matches(s, i, x) {
        Some(comp_text(s, i))
    } else {
        None
    }
}

/// The absolute dialect: exactly `HH:MM` or `HH:MM:SS`, two digits per field.
pub open spec fn abs_matches(s: Seq<char>) -> bool {
    &&& (s.len() == 5 || s.len() == 8)
    &&& is_digit_char(s[0])
    &&& is_digit_char(s[1])
    &&& s[2] == ':'
    &&& is_digit_char(s[3])
    &&& is_digit_char(s[4])
    &&& (s.len() == 8 ==> s[5] == ':' && is_digit_char(s[6]) && is_digit_char(s[7]))
}

pub open spec fn abs_hours(s: Seq<char>) -> Seq<char> {
    s.subrange(0, 2)
}

pub open spec fn abs_minutes(s: Seq<char>) -> Seq<char> {
    s.subrange(3, 5)
}

pub open spec fn abs_seconds(s: Seq<char>) -> Option<Seq<char>> {
    if s.len() == 8 {
        Some(s.subrange(6, 8))
    } else {
        None
    }
}

/// The `[Nh][Nm][Ns]` dialect: the index past the optional hours component,
pub open spec fn hms_i1(s: Seq<char>) -> int {
    comp_end(s, 0, 'h')
}

/// ... past the optional minutes component,
pub open spec fn hms_i2(s: Seq<char>) -> int {
    comp_end(s, hms_i1(s), 'm')
}

/// ... and past the optional seconds component.
pub open spec fn hms_i3(s: Seq<char>) -> int {
    comp_end(s, hms_i2(s), 's')
}

/// The `[Nh][Nm][Ns]` dialect matches when its three optional components
/// consume the whole string (the empty string matches).
pub open spec fn hms_matches(s: Seq<char>) -> bool {
    hms_i3(s) == s.len()
}

pub open spec fn hms_hours(s: Seq<char>) -> Option<Seq<char>> {
    comp_field(s, 0, 'h')
}

pub open spec fn hms_minutes(s: Seq<char>) -> Option<Seq<char>> {
    comp_field(s, hms_i1(s), 'm')
}

pub open spec fn hms_seconds(s: Seq<char>) -> Option<Seq<char>> {
    comp_field(s, hms_i2(s), 's')
}

/// The `[Nh][N['m'...]]` dialect: optional hours component, then an optional
/// trailing minutes field whose `m` suffix may be repeated or absent.
pub open spec fn hm_matches(s: Seq<char>) -> bool {
    tail_matches(s, comp_end(s, 0, 'h'), 'm')
}

pub open spec fn hm_hours(s: Seq<char>) -> Option<Seq<char>> {
    comp_field(s, 0, 'h')
}

pub open spec fn hm_minutes(s: Seq<char>) -> Option<Seq<char>> {
    tail_field(s, comp_end(s, 0, 'h'), 'm')
}

/// The `[Nm][N['s'...]]` dialect: optional minutes component, then an optional
/// trailing seconds field whose `s` suffix may be repeated or absent.
pub open spec fn ms_matches(s: Seq<char>) -> bool {
    tail_matches(s, comp_end(s, 0, 'm'), 's')
}

pub open spec fn ms_minutes(s: Seq<char>) -> Option<Seq<char>> {
    comp_field(s, 0, 'm')
}

pub open spec fn ms_seconds(s: Seq<char>) -> Option<Seq<char>> {
    tail_field(s, comp_end(s, 0, 'm'), 's')
}

/// Every character of a `[Nh][Nm][Ns]` match is a digit or a suffix letter.
pub proof fn lemma_hms_chars(s: Seq<char>, k: int)
    requires
        hms_matches(s),
        0 <= k < s.len(),
    ensures
        is_digit_char(s[k]) || s[k] == 'h' || s[k] == 'm' || s[k] == 's',
{
    let i1 = hms_i1(s);
    let i2 = hms_i2(s);
    lemma_comp_end_bounds(s, 0, 'h');
    lemma_comp_end_bounds(s, i1, 'm');
    lemma_comp_end_bounds(s, i2, 's');
    if k < i1 {
        lemma_comp_chars(s, 0, 'h', k);
    } else if k < i2 {
        lemma_comp_chars(s, i1, 'm', k);
    } else {
        lemma_comp_chars(s, i2, 's', k);
    }
}

/// No string matches both the absolute dialect and `[Nh][Nm][Ns]`: the former
/// demands a colon, which the latter never contains.
pub proof fn lemma_hms_excludes_absolute(s: Seq<char>)
    requires
        hms_matches(s),
    ensures
        !abs_matches(s),
{
    if abs_matches(s) {
        lemma_hms_chars(s, 2);
        assert(s[2] == ':');
        assert(false);
    }
}

/// Whether the character at `i` is a decimal digit.
fn is_digit_at(s: &str, i: usize) -> (r: bool)
    requires
        i < s@.len(),
    ensures
        r == is_digit_char(s@[i as int]),
{
    let u = s.get_char(i) as u32;
    48 <= u && u <= 57
}

/// Scans the maximal digit run of `s` starting at `from`.
fn digit_run_scan(s: &str, from: usize, l: usize) -> (r: usize)
    requires
        l == s@.len(),
        from <= l,
    ensures
        r == digit_run_end(s@, from as int),
        from <= r <= l,
{
    let mut i: usize = from;
    loop
        invariant_except_break
            from <= i <= l,
            l == s@.len(),
            digit_run_end(s@, from as int) == digit_run_end(s@, i as int),
        ensures
            from <= i <= l,
            i == digit_run_end(s@, from as int),
        decreases l - i,
    {
        if i >= l {
            assert(digit_run_end(s@, i as int) == i as int);
            break;
        }
        if !is_digit_at(s, i) {
            assert(digit_run_end(s@, i as int) == i as int);
            break;
        }
        assert(digit_run_end(s@, i as int) == digit_run_end(s@, i as int + 1));
        i = i + 1;
    }
    i
}

/// Takes the suffix-tagged component `digits x` at `i`, if it is present,
/// returning the index past it and the captured digits.
fn take_component(s: &str, i: usize, x: char, l: usize) -> (r: (usize, Option<String>))
    requires
        l == s@.len(),
        i <= l,
    ensures
        r.0 == comp_end(s@, i as int, x),
        opt_text_view(r.1) == comp_field(s@, i as int, x),
        i <= r.0 <= l,
{
    let e = digit_run_scan(s, i, l);
    if e > i && e < l && s.get_char(e) == x {
        let text = s.substring_char(i, e).to_owned();
        (e + 1, Some(text))
    } else {
        (i, None)
    }
}

/// Takes a closing component `digits x...` reaching the end of the string:
/// whether it (or the empty remainder) matches, and the captured digits.
fn take_tail(s: &str, i: usize, x: char, l: usize) -> (r: (bool, Option<String>))
    requires
        l == s@.len(),
        i <= l,
    ensures
        r.0 == tail_matches(s@, i as int, x),
        opt_text_view(r.1) == tail_field(s@, i as int, x),
{
    if i == l {
        return (true, None);
    }
    let e = digit_run_scan(s, i, l);
    if e == i {
        return (false, None);
    }
    let mut j: usize = e;
    while j < l
        invariant
            e <= j <= l,
            l == s@.len(),
            i < l,
            e == digit_run_end(s@, i as int),
            e > i,
            forall|k: int| e <= k < j ==> s@[k] == x,
        decreases l - j,
    {
        if s.get_char(j) != x {
            assert(s@[j as int] != x);
            return (false, None);
        }
        j = j + 1;
    }
    let text = s.substring_char(i, e).to_owned();
    (true, Some(text))
}

/// Matches the absolute `HH:MM[:SS]` dialect, capturing its two-digit fields.
pub fn match_absolute(s: &str) -> (r: Option<FieldSet>)
    ensures
        r is Some <==> abs_matches(s@),
        r matches Some(f) ==> {
            &&& f.hours_view() == Some(abs_hours(s@))
            &&& f.minutes_view() == Some(abs_minutes(s@))
            &&& f.seconds_view() == abs_seconds(s@)
        },
{
    let l = s.unicode_len();
    if !(l == 5 || l == 8) {
        return None;
    }
    if !(is_digit_at(s, 0) && is_digit_at(s, 1) && s.get_char(2) == ':' && is_digit_at(s, 3)
        && is_digit_at(s, 4)) {
        return None;
    }
    let seconds: Option<String> = if l == 8 {
        if !(s.get_char(5) == ':' && is_digit_at(s, 6) && is_digit_at(s, 7)) {
            return None;
        }
        Some(s.substring_char(6, 8).to_owned())
    } else {
        None
    };
    let hours = s.substring_char(0, 2).to_owned();
    let minutes = s.substring_char(3, 5).to_owned();
    Some(FieldSet { hours: Some(hours), minutes: Some(minutes), seconds })
}

/// Matches the `[Nh][Nm][Ns]` dialect, capturing the present components.
pub fn match_relative_hms(s: &str) -> (r: Option<FieldSet>)
    ensures
        r is Some <==> hms_matches(s@),
        r matches Some(f) ==> {
            &&& f.hours_view() == hms_hours(s@)
            &&& f.minutes_view() == hms_minutes(s@)
            &&& f.seconds_view() == hms_seconds(s@)
        },
{
    let l = s.unicode_len();
    let (i1, hours) = take_component(s, 0, 'h', l);
    let (i2, minutes) = take_component(s, i1, 'm', l);
    let (i3, seconds) = take_component(s, i2, 's', l);
    if i3 == l {
        Some(FieldSet { hours, minutes, seconds })
    } else {
        None
    }
}

/// Matches the `[Nh][N['m'...]]` dialect, capturing hours and minutes.
pub fn match_relative_hm(s: &str) -> (r: Option<FieldSet>)
    ensures
        r is Some <==> hm_matches(s@),
        r matches Some(f) ==> {
            &&& f.hours_view() == hm_hours(s@)
            &&& f.minutes_view() == hm_minutes(s@)
            &&& f.seconds_view() == None::<Seq<char>>
        },
{
    let l = s.unicode_len();
    let (i1, hours) = take_component(s, 0, 'h', l);
    let (matched, minutes) = take_tail(s, i1, 'm', l);
    if matched {
        Some(FieldSet { hours, minutes, seconds: None })
    } else {
        None
    }
}

/// Matches the `[Nm][N['s'...]]` dialect, capturing minutes and seconds.
pub fn match_relative_ms(s: &str) -> (r: Option<FieldSet>)
    ensures
        r is Some <==> ms_matches(s@),
        r matches Some(f) ==> {
            &&& f.hours_view() == None::<Seq<char>>
            &&& f.minutes_view() == ms_minutes(s@)
            &&& f.seconds_view() == ms_seconds(s@)
        },
{
    let l = s.unicode_len();
    let (i1, minutes) = take_component(s, 0, 'm', l);
    let (matched, seconds) = take_tail(s, i1, 's', l);
    if matched {
        Some(FieldSet { hours: None, minutes, seconds })
    } else {
        None
    }
}

} // verus!
