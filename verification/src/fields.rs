use vstd::prelude::*;
use crate::errors::EggError;

verus! {

/// Whether `c` is a decimal digit.
pub open spec fn is_digit_char(c: char) -> bool {
    48 <= c as int && c as int <= 57
}

/// The numeric value of a digit character (meaningful when `is_digit_char(c)`).
pub open spec fn digit_val(c: char) -> int {
    c as int - 48
}

/// Whether every character of `s` is a decimal digit.
pub open spec fn all_digits(s: Seq<char>) -> bool {
    forall|i: int| 0 <= i < s.len() ==> is_digit_char(s[i])
}

/// The value of `s` read as a decimal numeral (most significant digit first).
pub open spec fn digits_value(s: Seq<char>) -> int
    decreases s.len(),
{
    if s.len() == 0 {
        0
    } else {
        digits_value(s.drop_last()) * 10 + digit_val(s.last())
    }
}

/// A digit string's value is non-negative.
pub proof fn lemma_digits_value_nonneg(s: Seq<char>)
    requires
        all_digits(s),
    ensures
        digits_value(s) >= 0,
    decreases s.len(),
{
    if s.len() > 0 {
        assert(all_digits(s.drop_last()));
        lemma_digits_value_nonneg(s.drop_last());
    }
}

/// Reading one more digit multiplies the prefix value by ten and adds it.
pub proof fn lemma_digits_value_step(s: Seq<char>, j: int)
    requires
        0 < j <= s.len(),
    ensures
        digits_value(s.subrange(0, j)) == digits_value(s.subrange(0, j - 1)) * 10 + digit_val(
            s[j - 1],
        ),
{
    let a = s.subrange(0, j);
    assert(a.drop_last() =~= s.subrange(0, j - 1));
    assert(a.last() == s[j - 1]);
}

/// On an all-digit string, a longer prefix never has a smaller value.
pub proof fn lemma_digits_value_prefix_le(s: Seq<char>, i: int, j: int)
    requires
        all_digits(s),
        0 <= i <= j <= s.len(),
    ensures
        digits_value(s.subrange(0, i)) <= digits_value(s.subrange(0, j)),
    decreases j - i,
{
    if i < j {
        lemma_digits_value_prefix_le(s, i, j - 1);
        lemma_digits_value_step(s, j);
        assert(all_digits(s.subrange(0, j - 1)));
        lemma_digits_value_nonneg(s.subrange(0, j - 1));
    }
}

/// A two-digit string's value lies between 0 and 99.
pub proof fn lemma_two_digit_value(s: Seq<char>)
    requires
        s.len() == 2,
        all_digits(s),
    ensures
        0 <= digits_value(s) <= 99,
{
    let d = s.drop_last();
    assert(d.len() == 1);
    assert(d.drop_last().len() == 0);
    assert(digits_value(d.drop_last()) == 0);
    assert(digits_value(d) == digit_val(d.last()));
    assert(digits_value(s) == digits_value(d) * 10 + digit_val(s.last()));
    assert(is_digit_char(d.last()));
    assert(is_digit_char(s.last()));
}

/// The optional textual matches a grammar produced for the three clock fields.
/// A dialect that has no capture for a field leaves it `None`.
pub struct FieldSet {
    pub hours: Option<String>,
    pub minutes: Option<String>,
    pub seconds: Option<String>,
}

/// The characters of an optional textual field.
pub open spec fn opt_text_view(o: Option<String>) -> Option<Seq<char>> {
    match o {
        None => None,
        Some(t) => Some(t@),
    }
}

/// Whether an optional field can be read as a `u32`: absent, or a non-empty
/// digit string whose value fits.
pub open spec fn field_num_ok(f: Option<Seq<char>>) -> bool {
    match f {
        None => true,
        Some(t) => t.len() > 0 && all_digits(t) && digits_value(t) <= u32::MAX as int,
    }
}

/// The numeric value of an optional field, an absent field counting as zero.
pub open spec fn field_num(f: Option<Seq<char>>) -> int {
    match f {
        None => 0,
        Some(t) => digits_value(t),
    }
}

/// Reads a non-empty decimal numeral into a `u32`; `None` on an empty string,
/// a non-digit character, or a value over `u32::MAX`.
pub fn parse_u32(t: &str) -> (r: Option<u32>)
    ensures
        r is Some <==> (t@.len() > 0 && all_digits(t@) && digits_value(t@) <= u32::MAX as int),
        r matches Some(v) ==> v as int == digits_value(t@),
{
    let l = t.unicode_len();
    if l == 0 {
        return None;
    }
    let mut acc: u32 = 0;
    let mut i: usize = 0;
    while i < l
        invariant
            0 <= i <= l,
            l == t@.len(),
            all_digits(t@.subrange(0, i as int)),
            acc as int == digits_value(t@.subrange(0, i as int)),
        decreases l - i,
    {
        let c = t.get_char(i);
        let u = c as u32;
        if !(48 <= u && u <= 57) {
            assert(!is_digit_char(t@[i as int]));
            return None;
        }
        let d = u - 48;
        let wide: u64 = acc as u64 * 10 + d as u64;
        proof {
            lemma_digits_value_step(t@, i as int + 1);
            assert(all_digits(t@.subrange(0, i as int + 1)));
        }
        if wide > u32::MAX as u64 {
            proof {
                if all_digits(t@) {
                    lemma_digits_value_prefix_le(t@, i as int + 1, t@.len() as int);
                    assert(t@.subrange(0, t@.len() as int) =~= t@);
                }
            }
            return None;
        }
        acc = wide as u32;
        i = i + 1;
    }
    proof {
        assert(t@.subrange(0, l as int) =~= t@);
    }
    Some(acc)
}

impl FieldSet {
    /// The characters of the hours field, if present.
    pub open spec fn hours_view(&self) -> Option<Seq<char>> {
        opt_text_view(self.hours)
    }

    /// The characters of the minutes field, if present.
    pub open spec fn minutes_view(&self) -> Option<Seq<char>> {
        opt_text_view(self.minutes)
    }

    /// The characters of the seconds field, if present.
    pub open spec fn seconds_view(&self) -> Option<Seq<char>> {
        opt_text_view(self.seconds)
    }
}

/// Reads an optional textual field as an unsigned integer, an absent field
/// defaulting to zero. A present field that is not a `u32`-sized digit string
/// is reported as `InvalidParameters` carrying the field's text.
pub fn get_number(representation: &Option<String>) -> (r: Result<u32, EggError>)
    ensures
        field_num_ok(opt_text_view(*representation)) ==> (r matches Ok(v) && v as int
            == field_num(opt_text_view(*representation))),
        !field_num_ok(opt_text_view(*representation)) ==> (r matches Err(e) && e matches
            EggError::InvalidParameters(t) && Some(t@) == opt_text_view(*representation)),
{
    match representation {
        None => Ok(0),
        Some(text) => match parse_u32(text.as_str()) {
            Some(v) => Ok(v),
            None => Err(EggError::InvalidParameters(text.clone())),
        },
    }
}

} // verus!
