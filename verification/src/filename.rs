//! File naming: a saved image is named `<seconds>.png`, where
//! `<seconds>` is the Unix timestamp in whole seconds, written in
//! decimal without sign, leading zeros or separators.

use vstd::prelude::*;

verus! {

/// The decimal digit character for one value below ten.
pub open spec fn digit_char(d: nat) -> char
    recommends
        d < 10,
{
    if d == 0 {
        '0'
    } else if d == 1 {
        '1'
    } else if d == 2 {
        '2'
    } else if d == 3 {
        '3'
    } else if d == 4 {
        '4'
    } else if d == 5 {
        '5'
    } else if d == 6 {
        '6'
    } else if d == 7 {
        '7'
    } else if d == 8 {
        '8'
    } else {
        '9'
    }
}

/// The decimal digit sequence of `n`: most significant digit first, no
/// sign, no leading zeros (`0` itself is the single digit `0`).
pub open spec fn dec_digits(n: nat) -> Seq<char>
    decreases n,
{
    if n < 10 {
        seq![digit_char(n)]
    } else {
        dec_digits(n / 10).push(digit_char(n % 10))
    }
}

/// The digit character for one value below ten.
fn digit_str(d: u64) -> (r: &'static str)
    requires
        d < 10,
    ensures
        r@ =~= seq![digit_char(d as nat)],
{
    proof {
        reveal_strlit("0");
        reveal_strlit("1");
        reveal_strlit("2");
        reveal_strlit("3");
        reveal_strlit("4");
        reveal_strlit("5");
        reveal_strlit("6");
        reveal_strlit("7");
        reveal_strlit("8");
        reveal_strlit("9");
    }
    if d == 0 {
        "0"
    } else if d == 1 {
        "1"
    } else if d == 2 {
        "2"
    } else if d == 3 {
        "3"
    } else if d == 4 {
        "4"
    } else if d == 5 {
        "5"
    } else if d == 6 {
        "6"
    } else if d == 7 {
        "7"
    } else if d == 8 {
        "8"
    } else {
        "9"
    }
}

/// Writes `n` in decimal.
pub fn u64_to_decimal(n: u64) -> (r: String)
    ensures
        r@ == dec_digits(n as nat),
    decreases n,
{
    let d = n % 10;
    let digit = digit_str(d);
    if n < 10 {
        let r = String::from_str(digit);
        proof {
            assert(r@ =~= dec_digits(n as nat));
        }
        r
    } else {
        let r = u64_to_decimal(n / 10).concat(digit);
        proof {
            assert(r@ =~= dec_digits(n as nat));
        }
        r
    }
}

/// The name under which an image captured at `secs` (Unix seconds) is
/// saved in the working directory.
pub open spec fn png_file_name_spec(secs: nat) -> Seq<char> {
    dec_digits(secs) + ".png"@
}

/// Derives the file name `<secs>.png` from a Unix timestamp in whole
/// seconds.
pub fn png_file_name(secs: u64) -> (r: String)
    ensures
        r@ == png_file_name_spec(secs as nat),
{
    u64_to_decimal(secs).concat(".png")
}

/// Whether `c` is a decimal digit character.
pub open spec fn is_digit_char(c: char) -> bool {
    c == '0' || c == '1' || c == '2' || c == '3' || c == '4' || c == '5' || c == '6' || c == '7'
        || c == '8' || c == '9'
}

/// The decimal digit sequence of any value is non-empty and consists of
/// digit characters only.
pub proof fn lemma_dec_digits_shape(n: nat)
    ensures
        dec_digits(n).len() >= 1,
        forall|i: int| 0 <= i < dec_digits(n).len() ==> is_digit_char(#[trigger] dec_digits(n)[i]),
    decreases n,
{
    if n >= 10 {
        lemma_dec_digits_shape(n / 10);
    }
}

/// Every derived file name matches `<digits>.png`: one or more decimal
/// digits, then the literal suffix `.png`.
pub proof fn lemma_png_file_name_shape(secs: nat)
    ensures
        png_file_name_spec(secs).len() >= 5,
        forall|i: int|
            0 <= i < png_file_name_spec(secs).len() - 4 ==> is_digit_char(
                #[trigger] png_file_name_spec(secs)[i],
            ),
        png_file_name_spec(secs).subrange(
            png_file_name_spec(secs).len() - 4,
            png_file_name_spec(secs).len() as int,
        ) == ".png"@,
{
    reveal_strlit(".png");
    lemma_dec_digits_shape(secs);
    assert(png_file_name_spec(secs).subrange(
        png_file_name_spec(secs).len() - 4,
        png_file_name_spec(secs).len() as int,
    ) =~= ".png"@);
}

} // verus!
