//! Verified parsing of decimal integer text, used for the integer fields of
//! response records (a JSON number arrives as its decimal text).
use vstd::prelude::*;

use vstd::string::StrSliceExecFns;

verus! {

/// Whether `c` is an ASCII decimal digit.
pub open spec fn spec_is_digit(c: char) -> bool {
    48 <= c as int <= 57
}

/// The value of a digit character.
pub open spec fn spec_digit_value(c: char) -> int {
    c as int - 48
}

/// The value of a non-empty, all-digit text; `None` when the text is empty or
/// holds any non-digit.
pub open spec fn spec_digits(s: Seq<char>) -> Option<int>
    decreases s.len(),
{
    if s.len() == 0 {
        None
    } else if !spec_is_digit(s.last()) {
        None
    } else if s.len() == 1 {
        Some(spec_digit_value(s.last()))
    } else {
        match spec_digits(s.drop_last()) {
            None => None,
            Some(v) => Some(v * 10 + spec_digit_value(s.last())),
        }
    }
}

/// The `i32` that a decimal text denotes: an optional leading minus sign, then
/// digits; `None` when the text has any other shape or the value overflows.
pub open spec fn spec_parse_i32(s: Seq<char>) -> Option<i32> {
    if s.len() >= 1 && s[0] == '-' {
        match spec_digits(s.skip(1)) {
            Some(v) => if -v >= i32::MIN {
                Some((-v) as i32)
            } else {
                None
            },
            None => None,
        }
    } else {
        match spec_digits(s) {
            Some(v) => if v <= i32::MAX {
                Some(v as i32)
            } else {
                None
            },
            None => None,
        }
    }
}

/// A digit text's value is never negative.
proof fn lemma_digits_nonneg(s: Seq<char>)
    ensures
        spec_digits(s) matches Some(v) ==> v >= 0,
    decreases s.len(),
{
    if s.len() > 1 {
        lemma_digits_nonneg(s.drop_last());
    }
}

/// Extending a digit text only grows its value: a prefix that already
/// overflows settles the whole text's fate.
proof fn lemma_digits_prefix(s: Seq<char>, i: int)
    requires
        1 <= i <= s.len(),
        spec_digits(s) is Some,
    ensures
        spec_digits(s.subrange(0, i)) matches Some(u) && u <= spec_digits(s)->Some_0,
    decreases s.len() - i,
{
    if i == s.len() {
        assert(s.subrange(0, i) =~= s);
        lemma_digits_nonneg(s);
    } else {
        assert(s.subrange(0, s.len() as int) =~= s);
        assert(s.drop_last() =~= s.subrange(0, s.len() - 1));
        lemma_digits_nonneg(s.drop_last());
        lemma_digits_prefix(s.drop_last(), i);
        assert(s.drop_last().subrange(0, i) =~= s.subrange(0, i));
        lemma_digits_nonneg(s.subrange(0, i));
    }
}

/// A text whose value exists has only digit characters.
proof fn lemma_digits_all_digits(s: Seq<char>)
    ensures
        spec_digits(s) is Some ==> forall|i: int|
            0 <= i < s.len() ==> spec_is_digit(#[trigger] s[i]),
    decreases s.len(),
{
    if s.len() > 1 {
        lemma_digits_all_digits(s.drop_last());
        if spec_digits(s) is Some {
            assert forall|i: int| 0 <= i < s.len() implies spec_is_digit(#[trigger] s[i]) by {
                if i < s.len() - 1 {
                    assert(s.drop_last()[i] == s[i]);
                }
            }
        }
    }
}

/// Reads the all-digit suffix of `s` starting at `from`; `None` when a
/// non-digit occurs or the value exceeds `2^31`.
fn digits_value(s: &str, from: usize, len: usize) -> (r: Option<u64>)
    requires
        from <= len,
        len == s@.len(),
    ensures
        r matches Some(v) ==> spec_digits(s@.skip(from as int)) == Some(v as int) && v
            <= 0x8000_0000,
        r is None ==> match spec_digits(s@.skip(from as int)) {
            Some(v) => v > 0x8000_0000,
            None => true,
        },
{
    let ghost whole = s@.skip(from as int);
    if from == len {
        return None;
    }
    let mut acc: u64 = 0;
    let mut i: usize = from;
    while i < len
        invariant
            from <= i <= len,
            len == s@.len(),
            whole == s@.skip(from as int),
            i > from ==> spec_digits(s@.subrange(from as int, i as int).skip(0)) == Some(
                acc as int,
            ),
            i == from ==> acc == 0,
            acc <= 0x8000_0000,
        decreases len - i,
    {
        let c = s.get_char(i);
        let cv = c as u32;
        if cv < 48 || cv > 57 {
            proof {
                lemma_digits_all_digits(whole);
                assert(whole[i - from] == s@[i as int]);
            }
            return None;
        }
        let d: u64 = (cv - 48) as u64;
        let next: u64 = acc * 10 + d;
        proof {
            let pref = s@.subrange(from as int, i as int);
            let pref1 = s@.subrange(from as int, i as int + 1);
            assert(pref1.drop_last() =~= pref);
            assert(pref1.last() == s@[i as int]);
            assert(pref.skip(0) =~= pref);
            assert(pref1.skip(0) =~= pref1);
        }
        if next > 0x8000_0000 {
            proof {
                if spec_digits(whole) is Some {
                    lemma_digits_prefix(whole, i + 1 - from);
                    assert(whole.subrange(0, i + 1 - from) =~= s@.subrange(
                        from as int,
                        i as int + 1,
                    ));
                }
            }
            return None;
        }
        acc = next;
        i = i + 1;
    }
    proof {
        assert(s@.subrange(from as int, len as int) =~= whole);
        assert(whole.skip(0) =~= whole);
    }
    Some(acc)
}

/// Parses a decimal text as an `i32`: an optional leading minus sign, then
/// digits; rejects any other shape and any value outside the `i32` range.
pub fn parse_i32(s: &str) -> (r: Option<i32>)
    ensures
        r == spec_parse_i32(s@),
{
    let len = s.unicode_len();
    if len >= 1 && s.get_char(0) == '-' {
        match digits_value(s, 1, len) {
            Some(v) => {
                let out: i32 = -(v as i64) as i32;
                assert(out as int == -(v as int)) by (bit_vector)
                    requires
                        v <= 0x8000_0000u64 && out == -(v as i64) as i32,
                ;
                Some(out)
            },
            None => None,
        }
    } else {
        match digits_value(s, 0, len) {
            Some(v) => {
                proof {
                    assert(s@.skip(0) =~= s@);
                }
                if v <= 0x7FFF_FFFF {
                    Some(v as i32)
                } else {
                    None
                }
            },
            None => None,
        }
    }
}

} // verus!
