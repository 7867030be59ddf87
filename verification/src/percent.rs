//! Percentages, kept as the text of their number.
//!
//! The slicing tool reads a percentage as a number followed by `%`. The
//! number arrives here already rendered, in one of the shapes that a rendered
//! floating-point value takes: `NaN`, `inf`, `-inf`, or an optional minus
//! sign, digits, and optionally a point and more digits.

use vstd::prelude::*;
use vstd::string::is_ascii_spec_bytes;
use crate::text::is_digit;

verus! {

/// Whether `s` is one or more decimal digits.
pub open spec fn all_digits(s: Seq<char>) -> bool {
    s.len() > 0 && forall|i: int| 0 <= i < s.len() ==> is_digit(#[trigger] s[i])
}

/// Whether `s` has a point at place `k`, with digits on both sides of it and
/// nothing else.
pub open spec fn point_at(s: Seq<char>, k: int) -> bool {
    0 < k < s.len() - 1 && s[k] == '.' && all_digits(s.take(k)) && all_digits(s.skip(k + 1))
}

/// Whether `s` is a decimal numeral without sign: digits, optionally followed
/// by a point and more digits.
pub open spec fn is_decimal(s: Seq<char>) -> bool {
    all_digits(s) || exists|k: int| #[trigger] point_at(s, k)
}

/// Whether `s` is what a magnitude renders as: `inf` or a decimal numeral.
pub open spec fn is_magnitude(s: Seq<char>) -> bool {
    s == seq!['i', 'n', 'f'] || is_decimal(s)
}

/// Whether `s` is what a number renders as: `NaN`, or a magnitude with an
/// optional minus sign ahead of it.
pub open spec fn is_number_text(s: Seq<char>) -> bool {
    s == seq!['N', 'a', 'N'] || is_magnitude(s) || (s.len() > 0 && s[0] == '-' && is_magnitude(
        s.skip(1),
    ))
}

/// Whether `c` may occur in the text of a number.
pub open spec fn is_number_char(c: char) -> bool {
    is_digit(c) || c == '.' || c == '-' || c == 'i' || c == 'n' || c == 'f' || c == 'N' || c
        == 'a'
}

/// The text of a number holds no character from outside its small alphabet,
/// so in particular no blank.
pub proof fn lemma_number_text_alphabet(s: Seq<char>)
    requires
        is_number_text(s),
    ensures
        s.len() > 0,
        forall|i: int| 0 <= i < s.len() ==> is_number_char(#[trigger] s[i]),
        forall|i: int| 0 <= i < s.len() ==> #[trigger] s[i] != ' ' && s[i] != '%',
{
    assert forall|i: int| 0 <= i < s.len() implies is_number_char(#[trigger] s[i]) by {
        if s == seq!['N', 'a', 'N'] {
        } else {
            let m = if is_magnitude(s) {
                s
            } else {
                s.skip(1)
            };
            let off = s.len() - m.len();
            if i >= off {
                let j = i - off;
                assert(s[i] == m[j]);
                if m == seq!['i', 'n', 'f'] {
                } else if all_digits(m) {
                } else {
                    let k = choose|k: int| #[trigger] point_at(m, k);
                    if j < k {
                        assert(m.take(k)[j] == m[j]);
                    } else if j > k {
                        assert(m.skip(k + 1)[j - k - 1] == m[j]);
                    }
                }
            }
        }
    }
    if s == seq!['N', 'a', 'N'] {
    } else if is_magnitude(s) {
        if is_decimal(s) {
        } else {
            assert(s.len() == 3);
        }
    }
}

const ZERO: u8 = 0x30;

const NINE: u8 = 0x39;

const POINT: u8 = 0x2e;

const MINUS: u8 = 0x2d;

const UPPER_N: u8 = 0x4e;

const LOWER_A: u8 = 0x61;

const LOWER_F: u8 = 0x66;

const LOWER_I: u8 = 0x69;

const LOWER_N: u8 = 0x6e;

/// Whether `bytes` holds the characters of `s`, one byte for each.
spec fn mirrors(bytes: Seq<u8>, s: Seq<char>) -> bool {
    bytes.len() == s.len() && forall|i: int|
        0 <= i < s.len() ==> #[trigger] s[i] == bytes[i] as char
}

/// The end of the run of digits that starts at `from`.
fn digits_end(bytes: &[u8], from: usize, Ghost(s): Ghost<Seq<char>>) -> (end: usize)
    requires
        mirrors(bytes@, s),
        from <= bytes.len(),
    ensures
        from <= end <= bytes.len(),
        forall|i: int| from <= i < end ==> is_digit(#[trigger] s[i]),
        end < bytes.len() ==> !is_digit(s[end as int]),
{
    let mut end: usize = from;
    while end < bytes.len() && ZERO <= bytes[end] && bytes[end] <= NINE
        invariant
            mirrors(bytes@, s),
            from <= end <= bytes.len(),
            forall|i: int| from <= i < end ==> is_digit(#[trigger] s[i]),
        decreases bytes.len() - end,
    {
        end += 1;
    }
    end
}

/// Whether what follows position `from` is a decimal numeral.
fn decimal_from(bytes: &[u8], from: usize, Ghost(s): Ghost<Seq<char>>) -> (ok: bool)
    requires
        mirrors(bytes@, s),
        from <= bytes.len(),
    ensures
        ok == is_decimal(s.skip(from as int)),
{
    let ghost m = s.skip(from as int);
    let point: usize = digits_end(bytes, from, Ghost(s));
    let ghost p = point - from;
    if point == from {
        proof {
            if m.len() > 0 {
                assert(m[0] == s[from as int]);
            }
            if is_decimal(m) && !all_digits(m) {
                let k = choose|k: int| #[trigger] point_at(m, k);
                assert(m.take(k)[0] == m[0]);
            }
        }
        return false;
    }
    if point == bytes.len() {
        assert(all_digits(m));
        return true;
    }
    assert(m[p] == s[point as int]);
    proof {
        if is_decimal(m) && !all_digits(m) {
            let k = choose|k: int| #[trigger] point_at(m, k);
            if k < p {
                assert(m[k] == s[from + k]);
            } else if k > p {
                assert(m.take(k)[p] == m[p]);
            }
            assert(k == p);
        }
    }
    if bytes[point] != POINT {
        return false;
    }
    let end: usize = digits_end(bytes, point + 1, Ghost(s));
    let ok = end == bytes.len() && end > point + 1;
    proof {
        if ok {
            assert forall|i: int| 0 <= i < m.take(p).len() implies is_digit(
                #[trigger] m.take(p)[i],
            ) by {
                assert(m.take(p)[i] == s[from + i]);
            }
            assert forall|i: int| 0 <= i < m.skip(p + 1).len() implies is_digit(
                #[trigger] m.skip(p + 1)[i],
            ) by {
                assert(m.skip(p + 1)[i] == s[point + 1 + i]);
            }
            assert(point_at(m, p));
        } else if is_decimal(m) {
            assert(all_digits(m.skip(p + 1)));
            if end < bytes.len() {
                assert(m.skip(p + 1)[end - point - 1] == s[end as int]);
            }
        }
    }
    ok
}

/// Decides whether `text` is the text of a number.
pub fn is_number(text: &str) -> (ok: bool)
    ensures
        ok == is_number_text(text@),
{
    if !text.is_ascii() {
        proof {
            if is_number_text(text@) {
                lemma_number_text_alphabet(text@);
            }
        }
        return false;
    }
    let bytes = text.as_bytes();
    let ghost s = text@;
    proof {
        broadcast use is_ascii_spec_bytes;

        assert(mirrors(bytes@, s));
    }
    let n: usize = bytes.len();
    if n == 3 && bytes[0] == UPPER_N && bytes[1] == LOWER_A && bytes[2] == UPPER_N {
        assert(s =~= seq!['N', 'a', 'N']);
        return true;
    }
    let start: usize = if n > 0 && bytes[0] == MINUS {
        1
    } else {
        0
    };
    let ghost m = s.skip(start as int);
    proof {
        if start == 0 {
            assert(m =~= s);
        } else if is_decimal(s) && !all_digits(s) {
            let k = choose|k: int| #[trigger] point_at(s, k);
            assert(s.take(k)[0] == s[0]);
        }
        assert(is_number_text(s) == is_magnitude(m));
    }
    if n - start == 3 && bytes[start] == LOWER_I && bytes[start + 1] == LOWER_N && bytes[start + 2]
        == LOWER_F {
        assert(m =~= seq!['i', 'n', 'f']);
        return true;
    }
    proof {
        if m == seq!['i', 'n', 'f'] {
            assert(m[0] == 'i' && m[1] == 'n' && m[2] == 'f');
        }
    }
    decimal_from(bytes, start, Ghost(s))
}

/// A percentage, kept as the text of its number.
#[derive(Clone, Debug, PartialEq, Eq)]
pub struct Percent {
    text: String,
}

impl View for Percent {
    type V = Seq<char>;

    closed spec fn view(&self) -> Seq<char> {
        self.text@
    }
}

impl Percent {
    /// Whether the value holds the text of a number.
    pub open spec fn wf(&self) -> bool {
        is_number_text(self@)
    }

    /// Takes `text` as a percentage if it is the text of a number.
    pub fn new(text: String) -> (made: Option<Percent>)
        ensures
            made is Some <==> is_number_text(text@),
            made matches Some(p) ==> p@ == text@ && p.wf(),
    {
        if is_number(text.as_str()) {
            Some(Percent { text })
        } else {
            None
        }
    }

    /// The text of the number, without a percent sign.
    pub fn as_str(&self) -> (text: &str)
        ensures
            text@ == self@,
    {
        self.text.as_str()
    }
}

} // verus!
