//! Classification of one line of the human player's input.
//!
//! A line selects a move when, after surrounding whitespace is removed, it
//! is a decimal numeral (an optional leading `+`, then digits) whose value
//! lies in 1..=9. A line that is no numeral at all is rejected differently
//! from a numeral whose value falls outside the range, so the driver can
//! print the matching message.

use vstd::prelude::*;

verus! {

/// What one line of input from the human player turned out to be.
#[derive(PartialEq, Eq, Structural, Copy, Clone, Debug)]
pub enum MoveInput {
    /// The trimmed line is not a decimal numeral.
    NotANumber,
    /// It is a numeral, but its value lies outside 1..=9.
    OutOfRange,
    /// A keypad digit in 1..=9.
    Number(u8),
}

/// Unicode whitespace, removed from the ends of an input line: the
/// characters with the White_Space property.
pub open spec fn is_space(c: char) -> bool {
    ||| (9 <= c as u32 <= 13)
    ||| c as u32 == 32
    ||| c as u32 == 0x85
    ||| c as u32 == 0xA0
    ||| c as u32 == 0x1680
    ||| (0x2000 <= c as u32 <= 0x200A)
    ||| c as u32 == 0x2028
    ||| c as u32 == 0x2029
    ||| c as u32 == 0x202F
    ||| c as u32 == 0x205F
    ||| c as u32 == 0x3000
}

/// A decimal digit.
pub open spec fn is_digit(c: char) -> bool {
    48 <= c as u32 <= 57
}

/// The value of a decimal digit.
pub open spec fn digit_val(c: char) -> int {
    c as u32 - 48
}

/// Every character of the sequence is a decimal digit.
pub open spec fn all_digits(s: Seq<char>) -> bool {
    forall|i: int| 0 <= i < s.len() ==> is_digit(s[i])
}

/// The sequence with leading whitespace removed.
pub open spec fn trim_start(s: Seq<char>) -> Seq<char>
    decreases s.len(),
{
    if s.len() > 0 && is_space(s[0]) {
        trim_start(s.drop_first())
    } else {
        s
    }
}

/// The sequence with trailing whitespace removed.
pub open spec fn trim_end(s: Seq<char>) -> Seq<char>
    decreases s.len(),
{
    if s.len() > 0 && is_space(s[s.len() - 1]) {
        trim_end(s.drop_last())
    } else {
        s
    }
}

/// The sequence with whitespace removed from both ends.
pub open spec fn trimmed(s: Seq<char>) -> Seq<char> {
    trim_end(trim_start(s))
}

/// The value of a digit sequence read left to right, starting from `acc`.
pub open spec fn value_from(s: Seq<char>, acc: int) -> int
    decreases s.len(),
{
    if s.len() == 0 {
        acc
    } else {
        value_from(s.drop_first(), acc * 10 + digit_val(s[0]))
    }
}

/// The digit part of a numeral: what follows an optional leading '+'.
pub open spec fn numeral_digits(s: Seq<char>) -> Seq<char> {
    if s.len() > 0 && s[0] == '+' {
        s.drop_first()
    } else {
        s
    }
}

/// An already-trimmed sequence is a decimal numeral: an optional '+', then
/// at least one digit and nothing else.
pub open spec fn is_numeral(s: Seq<char>) -> bool {
    numeral_digits(s).len() > 0 && all_digits(numeral_digits(s))
}

/// The value of an already-trimmed numeral.
pub open spec fn numeral_value(s: Seq<char>) -> int {
    value_from(numeral_digits(s), 0)
}

/// How one input line is classified: trim it; a line that is no decimal
/// numeral is malformed, a numeral with a value outside 1..=9 is out of
/// range, and one in 1..=9 selects that keypad digit.
pub open spec fn classify_spec(s: Seq<char>) -> MoveInput {
    if !is_numeral(trimmed(s)) {
        MoveInput::NotANumber
    } else if 1 <= numeral_value(trimmed(s)) <= 9 {
        MoveInput::Number(numeral_value(trimmed(s)) as u8)
    } else {
        MoveInput::OutOfRange
    }
}

/// Reading digits can only increase the accumulated value.
proof fn lemma_value_from_lower(s: Seq<char>, acc: int)
    requires
        acc >= 0,
        all_digits(s),
    ensures
        value_from(s, acc) >= acc,
    decreases s.len(),
{
    if s.len() > 0 {
        assert(is_digit(s[0]));
        assert(all_digits(s.drop_first())) by {
            assert forall|i: int| 0 <= i < s.drop_first().len() implies is_digit(
                #[trigger] s.drop_first()[i],
            ) by {
                assert(s.drop_first()[i] == s[i + 1]);
            }
        }
        lemma_value_from_lower(s.drop_first(), acc * 10 + digit_val(s[0]));
    }
}

/// Whether this character is trimmed from the ends of an input line.
fn char_is_space(c: char) -> (r: bool)
    ensures
        r == is_space(c),
{
    let v = c as u32;
    (9 <= v && v <= 13) || v == 32 || v == 0x85 || v == 0xA0 || v == 0x1680 || (0x2000 <= v && v
        <= 0x200A) || v == 0x2028 || v == 0x2029 || v == 0x202F || v == 0x205F || v == 0x3000
}

/// Classify one line of the human player's input.
pub fn classify_move_input(s: &str) -> (r: MoveInput)
    ensures
        r == classify_spec(s@),
{
    let n = s.unicode_len();
    proof {
        assert(s@.subrange(0, n as int) =~= s@);
    }

    let mut lo: usize = 0;
    loop
        invariant
            lo <= n,
            n == s@.len(),
            trim_start(s@) == trim_start(s@.subrange(lo as int, n as int)),
        ensures
            lo <= n,
            n == s@.len(),
            trim_start(s@) == s@.subrange(lo as int, n as int),
        decreases n - lo,
    {
        if lo == n {
            assert(s@.subrange(lo as int, n as int).len() == 0);
            break;
        }
        let c = s.get_char(lo);
        if !char_is_space(c) {
            assert(s@.subrange(lo as int, n as int)[0] == s@[lo as int]);
            assert(!is_space(s@[lo as int]));
            break;
        }
        proof {
            let t0 = s@.subrange(lo as int, n as int);
            assert(is_space(t0[0]));
            assert(t0.drop_first() =~= s@.subrange(lo as int + 1, n as int));
        }
        lo = lo + 1;
    }

    let mut hi: usize = n;
    loop
        invariant
            lo <= hi <= n,
            n == s@.len(),
            trimmed(s@) == trim_end(s@.subrange(lo as int, hi as int)),
        ensures
            lo <= hi <= n,
            n == s@.len(),
            trimmed(s@) == s@.subrange(lo as int, hi as int),
        decreases hi,
    {
        if hi == lo {
            assert(s@.subrange(lo as int, hi as int).len() == 0);
            break;
        }
        let c = s.get_char(hi - 1);
        if !char_is_space(c) {
            proof {
                let u = s@.subrange(lo as int, hi as int);
                assert(u[u.len() - 1] == s@[hi - 1]);
                assert(!is_space(u[u.len() - 1]));
            }
            break;
        }
        proof {
            let u = s@.subrange(lo as int, hi as int);
            assert(is_space(u[u.len() - 1]));
            assert(u.drop_last() =~= s@.subrange(lo as int, hi as int - 1));
        }
        hi = hi - 1;
    }
    let ghost t = s@.subrange(lo as int, hi as int);
    assert(trimmed(s@) == t);

    if hi == lo {
        assert(numeral_digits(t).len() == 0);
        return MoveInput::NotANumber;
    }

    let first = s.get_char(lo);
    let start: usize = if first as u32 == 43 {
        lo + 1
    } else {
        lo
    };
    let ghost d = s@.subrange(start as int, hi as int);
    proof {
        assert(t[0] == s@[lo as int]);
        if s@[lo as int] == '+' {
            assert(t.drop_first() =~= s@.subrange(start as int, hi as int));
        } else {
            assert(numeral_digits(t) == t);
        }
        assert(numeral_digits(t) == d);
    }

    if start == hi {
        assert(d.len() == 0);
        return MoveInput::NotANumber;
    }

    let mut i: usize = start;
    loop
        invariant
            start <= i <= hi <= n,
            n == s@.len(),
            d == s@.subrange(start as int, hi as int),
            trimmed(s@) == t,
            numeral_digits(t) == d,
            forall|j: int| start <= j < i ==> is_digit(s@[j]),
        ensures
            forall|j: int| start <= j < hi ==> is_digit(s@[j]),
        decreases hi - i,
    {
        if i == hi {
            break;
        }
        let c = s.get_char(i);
        let cv = c as u32;
        if !(48 <= cv && cv <= 57) {
            assert(d[i - start] == s@[i as int]);
            assert(!all_digits(d));
            return MoveInput::NotANumber;
        }
        i = i + 1;
    }
    proof {
        assert forall|j: int| 0 <= j < d.len() implies is_digit(#[trigger] d[j]) by {
            assert(d[j] == s@[start + j]);
        }
    }

    let mut acc: u32 = 0;
    let mut k: usize = start;
    loop
        invariant
            start <= k <= hi <= n,
            n == s@.len(),
            d == s@.subrange(start as int, hi as int),
            trimmed(s@) == t,
            numeral_digits(t) == d,
            d.len() > 0,
            all_digits(d),
            acc <= 9,
            value_from(d, 0) == value_from(s@.subrange(k as int, hi as int), acc as int),
        ensures
            acc <= 9,
            value_from(d, 0) == acc as int,
        decreases hi - k,
    {
        if k == hi {
            assert(s@.subrange(k as int, hi as int).len() == 0);
            break;
        }
        let c = s.get_char(k);
        let cv = c as u32;
        assert(d[k - start] == s@[k as int]);
        assert(is_digit(s@[k as int]));
        let next = acc * 10 + (cv - 48);
        proof {
            let rest = s@.subrange(k as int, hi as int);
            assert(rest[0] == s@[k as int]);
            assert(rest.drop_first() =~= s@.subrange(k as int + 1, hi as int));
            assert(value_from(rest, acc as int) == value_from(
                s@.subrange(k as int + 1, hi as int),
                acc * 10 + digit_val(s@[k as int]),
            ));
        }
        if next > 9 {
            proof {
                assert forall|j: int| 0 <= j < s@.subrange(k as int + 1, hi as int).len() implies
                    is_digit(#[trigger] s@.subrange(k as int + 1, hi as int)[j]) by {
                    assert(s@.subrange(k as int + 1, hi as int)[j] == d[k + 1 - start + j]);
                }
                lemma_value_from_lower(s@.subrange(k as int + 1, hi as int), next as int);
            }
            assert(numeral_value(t) > 9);
            return MoveInput::OutOfRange;
        }
        acc = next;
        k = k + 1;
    }
    assert(numeral_value(t) == acc as int);

    if acc >= 1 {
        MoveInput::Number(acc as u8)
    } else {
        MoveInput::OutOfRange
    }
}

} // verus!
