//! Small string utilities: equality on string slices and decimal rendering
//! of unsigned integers, used when turning domain values into query text.
use vstd::prelude::*;

verus! {

/// Relies on `<str as PartialEq>::eq`: equality of two string slices is
/// equality of their character contents.
#[verifier::external_body]
pub(crate) fn str_eq(a: &str, b: &str) -> (r: bool)
    ensures
        r == (a@ == b@),
{
    a == b
}

/// Relies on `String::from_utf8`: a buffer of ASCII bytes decodes to the
/// string whose characters are those bytes.
#[verifier::external_body]
pub(crate) fn string_from_ascii(bytes: Vec<u8>) -> (r: String)
    requires
        forall|i: int| 0 <= i < bytes@.len() ==> bytes@[i] < 128,
    ensures
        r@ == bytes@.map_values(|b: u8| b as char),
{
    String::from_utf8(bytes).unwrap_or_default()
}

/// The ASCII digit character for a value below ten.
pub open spec fn spec_digit(d: nat) -> char
    recommends
        d < 10,
{
    (48 + d) as char
}

/// The decimal digit characters of `n`, most significant first.
pub open spec fn spec_decimal(n: nat) -> Seq<char>
    decreases n,
{
    if n < 10 {
        seq![spec_digit(n)]
    } else {
        spec_decimal(n / 10).push(spec_digit(n % 10))
    }
}

/// `s` left-padded with ASCII zeroes up to `width` characters.
pub open spec fn spec_zero_pad(s: Seq<char>, width: nat) -> Seq<char>
    decreases width - s.len(),
{
    if s.len() >= width {
        s
    } else {
        spec_zero_pad(seq!['0'].add(s), width)
    }
}

/// The decimal digit bytes of `n`, most significant first.
fn decimal_digit_bytes(n: u64) -> (r: Vec<u8>)
    ensures
        r@.map_values(|b: u8| b as char) == spec_decimal(n as nat),
        forall|i: int| 0 <= i < r@.len() ==> 48 <= #[trigger] r@[i] < 58,
    decreases n,
{
    let d: u8 = (n % 10) as u8;
    if n < 10 {
        let mut out: Vec<u8> = Vec::new();
        out.push(48 + d);
        assert(out@.map_values(|b: u8| b as char) =~= spec_decimal(n as nat));
        out
    } else {
        let mut out = decimal_digit_bytes(n / 10);
        out.push(48 + d);
        assert(out@.map_values(|b: u8| b as char) =~= spec_decimal(n as nat));
        out
    }
}

/// Renders `n` in decimal.
pub fn decimal_string(n: u64) -> (r: String)
    ensures
        r@ == spec_decimal(n as nat),
{
    let bytes = decimal_digit_bytes(n);
    let s = string_from_ascii(bytes);
    assert(s@ =~= spec_decimal(n as nat));
    s
}

/// Renders `n` in decimal, left-padded with zeroes to at least `width` digits.
pub fn zero_padded_decimal(n: u64, width: usize) -> (r: String)
    ensures
        r@ == spec_zero_pad(spec_decimal(n as nat), width as nat),
{
    let mut bytes = decimal_digit_bytes(n);
    while bytes.len() < width
        invariant
            forall|i: int| 0 <= i < bytes@.len() ==> 48 <= #[trigger] bytes@[i] < 58,
            spec_zero_pad(bytes@.map_values(|b: u8| b as char), width as nat) == spec_zero_pad(
                spec_decimal(n as nat),
                width as nat,
            ),
            bytes@.len() >= 1,
        decreases width - bytes@.len(),
    {
        let ghost prev = bytes@.map_values(|b: u8| b as char);
        bytes.insert(0, 48);
        proof {
            assert(bytes@.map_values(|b: u8| b as char) =~= seq!['0'].add(prev));
            assert(prev.len() < width as nat);
            assert(spec_zero_pad(prev, width as nat) == spec_zero_pad(
                seq!['0'].add(prev),
                width as nat,
            ));
        }
    }
    let s = string_from_ascii(bytes);
    assert(s@ =~= spec_zero_pad(spec_decimal(n as nat), width as nat));
    s
}

} // verus!
