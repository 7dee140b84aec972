use vstd::prelude::*;
use vstd::string::StringExecFns;

use crate::word::signed;

verus! {

/// The character for a digit below sixteen, in lower case.
pub open spec fn spec_digit(d: int) -> Seq<char> {
    if d == 0 {
        "0"@
    } else if d == 1 {
        "1"@
    } else if d == 2 {
        "2"@
    } else if d == 3 {
        "3"@
    } else if d == 4 {
        "4"@
    } else if d == 5 {
        "5"@
    } else if d == 6 {
        "6"@
    } else if d == 7 {
        "7"@
    } else if d == 8 {
        "8"@
    } else if d == 9 {
        "9"@
    } else if d == 10 {
        "a"@
    } else if d == 11 {
        "b"@
    } else if d == 12 {
        "c"@
    } else if d == 13 {
        "d"@
    } else if d == 14 {
        "e"@
    } else {
        "f"@
    }
}

pub fn digit(d: u64) -> (text: &'static str)
    requires
        d < 16,
    ensures
        text@ == spec_digit(d as int),
{
    match d {
        0 => "0",
        1 => "1",
        2 => "2",
        3 => "3",
        4 => "4",
        5 => "5",
        6 => "6",
        7 => "7",
        8 => "8",
        9 => "9",
        10 => "a",
        11 => "b",
        12 => "c",
        13 => "d",
        14 => "e",
        _ => "f",
    }
}

/// A natural number in decimal, without leading zeros.
pub open spec fn spec_decimal(n: nat) -> Seq<char>
    decreases n,
{
    if n < 10 {
        spec_digit(n as int)
    } else {
        spec_decimal(n / 10) + spec_digit(n as int % 10)
    }
}

/// An integer in decimal, with a minus sign in front if it is negative.
pub open spec fn spec_signed_decimal(i: int) -> Seq<char> {
    if i < 0 {
        "-"@ + spec_decimal((-i) as nat)
    } else {
        spec_decimal(i as nat)
    }
}

/// A word as `0x` and eight hexadecimal digits.
pub open spec fn spec_hex_word(word: u32) -> Seq<char> {
    "0x"@ + spec_digit(word as int / 0x1000_0000) + spec_digit((word as int / 0x100_0000) % 16)
        + spec_digit((word as int / 0x10_0000) % 16) + spec_digit((word as int / 0x1_0000) % 16)
        + spec_digit((word as int / 0x1000) % 16) + spec_digit((word as int / 0x100) % 16)
        + spec_digit((word as int / 0x10) % 16) + spec_digit(word as int % 16)
}

/// Appends `n` in decimal to `text`.
pub fn push_decimal(text: &mut String, n: u64)
    ensures
        final(text)@ == old(text)@ + spec_decimal(n as nat),
    decreases n,
{
    if n >= 10 {
        push_decimal(text, n / 10);
    }
    text.append(digit(n % 10));
    assert(text@ =~= old(text)@ + spec_decimal(n as nat));
}

/// Appends to `text` the decimal of the integer that `word` stands for in two's complement.
pub fn push_signed_decimal(text: &mut String, word: u32)
    ensures
        final(text)@ == old(text)@ + spec_signed_decimal(signed(word)),
{
    if word >= 0x8000_0000 {
        text.append("-");
        let magnitude: u64 = 0x1_0000_0000u64 - word as u64;
        push_decimal(text, magnitude);
        assert(text@ =~= old(text)@ + spec_signed_decimal(signed(word)));
    } else {
        push_decimal(text, word as u64);
    }
}

/// Appends `word` to `text` as `0x` and eight hexadecimal digits.
pub fn push_hex_word(text: &mut String, word: u32)
    ensures
        final(text)@ == old(text)@ + spec_hex_word(word),
{
    let w: u64 = word as u64;
    text.append("0x");
    text.append(digit(w / 0x1000_0000));
    text.append(digit((w / 0x100_0000) % 16));
    text.append(digit((w / 0x10_0000) % 16));
    text.append(digit((w / 0x1_0000) % 16));
    text.append(digit((w / 0x1000) % 16));
    text.append(digit((w / 0x100) % 16));
    text.append(digit((w / 0x10) % 16));
    text.append(digit(w % 16));
    assert(text@ =~= old(text)@ + spec_hex_word(word));
}

/// Numbers in decimal, with a comma and a space between two of them.
pub open spec fn spec_items(words: Seq<u32>) -> Seq<char>
    decreases words.len(),
{
    if words.len() == 0 {
        Seq::empty()
    } else if words.len() == 1 {
        spec_decimal(words[0] as nat)
    } else {
        spec_items(words.drop_last()) + ", "@ + spec_decimal(words.last() as nat)
    }
}

/// A list of numbers in square brackets.
pub open spec fn spec_list(words: Seq<u32>) -> Seq<char> {
    "["@ + spec_items(words) + "]"@
}

/// Appends the list of `words` to `text`.
pub fn push_list(text: &mut String, words: &Vec<u32>)
    ensures
        final(text)@ == old(text)@ + spec_list(words@),
{
    text.append("[");
    let mut i: usize = 0;
    assert(words@.subrange(0, 0) =~= Seq::<u32>::empty());
    while i < words.len()
        invariant
            i <= words.len(),
            text@ == old(text)@ + "["@ + spec_items(words@.subrange(0, i as int)),
        decreases words.len() - i,
    {
        let ghost before = text@;
        if i > 0 {
            text.append(", ");
        }
        push_decimal(text, words[i] as u64);
        proof {
            let next = words@.subrange(0, i + 1);
            assert(next.drop_last() =~= words@.subrange(0, i as int));
            assert(next.last() == words[i as int]);
            assert(text@ =~= old(text)@ + "["@ + spec_items(next));
        }
        i += 1;
    }
    assert(words@.subrange(0, i as int) =~= words@);
    text.append("]");
    assert(text@ =~= old(text)@ + spec_list(words@));
}

} // verus!
