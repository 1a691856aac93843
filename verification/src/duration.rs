use vstd::prelude::*;

verus! {

/// A non-negative wait: whole seconds plus a sub-second remainder.
#[derive(Clone, Copy, PartialEq, Eq, Structural, Debug)]
pub struct WaitDuration {
    pub secs: u64,
    pub nanos: u32,
}

impl WaitDuration {
    /// The sub-second remainder stays below one second.
    pub open spec fn wf(&self) -> bool {
        self.nanos < 1_000_000_000
    }

    /// The wait as a whole number of nanoseconds.
    pub open spec fn total_nanos(&self) -> int {
        self.secs as int * 1_000_000_000 + self.nanos as int
    }

    /// The zero-length wait.
    pub fn zero() -> (r: WaitDuration)
        ensures
            r.wf(),
            r.total_nanos() == 0,
    {
        WaitDuration { secs: 0, nanos: 0 }
    }

    /// Whether this wait is strictly shorter than `other`.
    pub fn shorter_than(&self, other: &WaitDuration) -> (r: bool)
        requires
            self.wf(),
            other.wf(),
        ensures
            r == (self.total_nanos() < other.total_nanos()),
    {
        self.secs < other.secs || (self.secs == other.secs && self.nanos < other.nanos)
    }

    /// The difference `self - other` (callers supply the shorter `other`).
    pub fn minus(&self, other: &WaitDuration) -> (r: WaitDuration)
        requires
            self.wf(),
            other.wf(),
            other.total_nanos() <= self.total_nanos(),
        ensures
            r.wf(),
            r.total_nanos() == self.total_nanos() - other.total_nanos(),
    {
        if self.nanos >= other.nanos {
            WaitDuration { secs: self.secs - other.secs, nanos: self.nanos - other.nanos }
        } else {
            WaitDuration {
                secs: self.secs - other.secs - 1,
                nanos: 1_000_000_000 - other.nanos + self.nanos,
            }
        }
    }
}

/// The character standing for the decimal digit `d`.
pub open spec fn digit_char(d: int) -> char {
    if d == 0 {
        '0'
    } else if d == 1 {
        '1'
    } else if d == 2 {
        '2'
    } else if d == 3 {
        '3'
    } else if d == 4 {
        '4'
    } else if d == 5 {
        '5'
    } else if d == 6 {
        '6'
    } else if d == 7 {
        '7'
    } else if d == 8 {
        '8'
    } else {
        '9'
    }
}

/// The decimal numeral of `n`, most significant digit first.
pub open spec fn dec_chars(n: nat) -> Seq<char>
    decreases n,
{
    if n < 10 {
        seq![digit_char(n as int)]
    } else {
        dec_chars(n / 10).push(digit_char((n % 10) as int))
    }
}

/// The numeral of `n` padded with a leading zero to at least two digits.
pub open spec fn pad2_chars(n: nat) -> Seq<char> {
    if n < 10 {
        seq!['0'] + dec_chars(n)
    } else {
        dec_chars(n)
    }
}

/// The zero-padded rendering `HH:MM:SS` of an hour, minute, second triple
/// (a field of a hundred or more keeps all its digits).
pub open spec fn fmt_hms_chars(h: nat, m: nat, s: nat) -> Seq<char> {
    pad2_chars(h) + seq![':'] + pad2_chars(m) + seq![':'] + pad2_chars(s)
}

/// The rendering of a whole-second duration as `HH:MM:SS` (hours unbounded).
pub open spec fn fmt_duration_chars(total: nat) -> Seq<char> {
    fmt_hms_chars(total / 60 / 60, total / 60 % 60, total % 60)
}

/// The one-character string of the decimal digit `d`.
fn digit_str(d: u64) -> (r: &'static str)
    requires
        d < 10,
    ensures
        r@ == seq![digit_char(d as int)],
{
    if d == 0 {
        proof {
            reveal_strlit("0");
            assert("0"@ =~= seq![digit_char(0)]);
        }
        "0"
    } else if d == 1 {
        proof {
            reveal_strlit("1");
            assert("1"@ =~= seq![digit_char(1)]);
        }
        "1"
    } else if d == 2 {
        proof {
            reveal_strlit("2");
            assert("2"@ =~= seq![digit_char(2)]);
        }
        "2"
    } else if d == 3 {
        proof {
            reveal_strlit("3");
            assert("3"@ =~= seq![digit_char(3)]);
        }
        "3"
    } else if d == 4 {
        proof {
            reveal_strlit("4");
            assert("4"@ =~= seq![digit_char(4)]);
        }
        "4"
    } else if d == 5 {
        proof {
            reveal_strlit("5");
            assert("5"@ =~= seq![digit_char(5)]);
        }
        "5"
    } else if d == 6 {
        proof {
            reveal_strlit("6");
            assert("6"@ =~= seq![digit_char(6)]);
        }
        "6"
    } else if d == 7 {
        proof {
            reveal_strlit("7");
            assert("7"@ =~= seq![digit_char(7)]);
        }
        "7"
    } else if d == 8 {
        proof {
            reveal_strlit("8");
            assert("8"@ =~= seq![digit_char(8)]);
        }
        "8"
    } else {
        proof {
            reveal_strlit("9");
            assert("9"@ =~= seq![digit_char(9)]);
        }
        "9"
    }
}

/// Appends the decimal numeral of `n` to `out`.
fn push_dec(out: &mut String, n: u64)
    ensures
        final(out)@ == old(out)@ + dec_chars(n as nat),
    decreases n,
{
    if n >= 10 {
        push_dec(out, n / 10);
        out.append(digit_str(n % 10));
        proof {
            assert(dec_chars(n as nat) == dec_chars(n as nat / 10).push(
                digit_char((n % 10) as int),
            ));
            assert(out@ =~= old(out)@ + dec_chars(n as nat));
        }
    } else {
        out.append(digit_str(n));
        proof {
            assert(out@ =~= old(out)@ + dec_chars(n as nat));
        }
    }
}

/// Appends the numeral of `n`, zero-padded to at least two digits, to `out`.
fn push_pad2(out: &mut String, n: u64)
    ensures
        final(out)@ == old(out)@ + pad2_chars(n as nat),
{
    if n < 10 {
        proof {
            reveal_strlit("0");
        }
        out.append("0");
        push_dec(out, n);
        proof {
            assert("0"@ =~= seq!['0']);
            assert(out@ =~= old(out)@ + pad2_chars(n as nat));
        }
    } else {
        push_dec(out, n);
    }
}

/// The zero-padded `HH:MM:SS` rendering of the triple `h:m:s`.
pub fn format_clock(h: u32, m: u32, s: u32) -> (r: String)
    ensures
        r@ == fmt_hms_chars(h as nat, m as nat, s as nat),
{
    let mut out = String::new();
    push_pad2(&mut out, h as u64);
    proof {
        reveal_strlit(":");
    }
    out.append(":");
    push_pad2(&mut out, m as u64);
    out.append(":");
    push_pad2(&mut out, s as u64);
    proof {
        assert(":"@ =~= seq![':']);
        assert(out@ =~= fmt_hms_chars(h as nat, m as nat, s as nat));
    }
    out
}

/// The wait rendered as zero-padded `HH:MM:SS`, whole seconds only; hours
/// are not wrapped at a day boundary.
pub fn format_duration(duration: WaitDuration) -> (r: String)
    ensures
        r@ == fmt_duration_chars(duration.secs as nat),
{
    let total = duration.secs;
    let s = total % 60;
    let m = total / 60 % 60;
    let h = total / 60 / 60;
    let mut out = String::new();
    push_pad2(&mut out, h);
    proof {
        reveal_strlit(":");
    }
    out.append(":");
    push_pad2(&mut out, m);
    out.append(":");
    push_pad2(&mut out, s);
    proof {
        assert(":"@ =~= seq![':']);
        assert(out@ =~= fmt_duration_chars(duration.secs as nat));
    }
    out
}

} // verus!
