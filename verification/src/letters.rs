//! The canonical frequency-ordered alphabet, and small helpers on ASCII
//! letters and on vectors of guessed letters.

use vstd::prelude::*;

verus! {

/// The 26 Latin letters, ranked by approximate English-language frequency,
/// most frequent first. Both phases of the letter selector work over this
/// ordering.
pub open spec fn freq_table() -> Seq<char> {
    seq![
        'e', 't', 'a', 'i', 'n', 'o', 's', 'h', 'r', 'd', 'l', 'u', 'c', 'm', 'f', 'w', 'y', 'g',
        'p', 'b', 'v', 'k', 'q', 'j', 'x', 'z',
    ]
}

/// How many letters the frequency table holds.
pub const ALPHABET_LEN: usize = 26;

/// `c` is a lowercase ASCII letter (`a`..`z`).
pub open spec fn is_lower_letter(c: char) -> bool {
    97 <= c as u32 && c as u32 <= 122
}

/// Every entry of the frequency table is a lowercase ASCII letter.
pub proof fn lemma_freq_table_letters()
    ensures
        freq_table().len() == ALPHABET_LEN,
        forall|i: int| 0 <= i < ALPHABET_LEN ==> is_lower_letter(#[trigger] freq_table()[i]),
{
}

/// `c` is an ASCII letter (`A`..`Z` or `a`..`z`).
pub open spec fn is_ascii_letter(c: char) -> bool {
    (65 <= c as u32 && c as u32 <= 90) || (97 <= c as u32 && c as u32 <= 122)
}

/// ASCII lowercasing: uppercase letters move down by 32, everything else is
/// left alone.
pub open spec fn to_lower(c: char) -> char {
    if 65 <= c as u32 && c as u32 <= 90 {
        ((c as u32 + 32) as u8) as char
    } else {
        c
    }
}

/// The entry of the frequency table at position `i`.
pub fn freq_letter(i: usize) -> (c: char)
    requires
        i < ALPHABET_LEN,
    ensures
        c == freq_table()[i as int],
{
    match i {
        0 => 'e',
        1 => 't',
        2 => 'a',
        3 => 'i',
        4 => 'n',
        5 => 'o',
        6 => 's',
        7 => 'h',
        8 => 'r',
        9 => 'd',
        10 => 'l',
        11 => 'u',
        12 => 'c',
        13 => 'm',
        14 => 'f',
        15 => 'w',
        16 => 'y',
        17 => 'g',
        18 => 'p',
        19 => 'b',
        20 => 'v',
        21 => 'k',
        22 => 'q',
        23 => 'j',
        24 => 'x',
        25 => 'z',
        _ => 'e',
    }
}

/// Exec form of `is_ascii_letter`.
pub fn char_is_ascii_letter(c: char) -> (r: bool)
    ensures
        r == is_ascii_letter(c),
{
    let u = c as u32;
    (65 <= u && u <= 90) || (97 <= u && u <= 122)
}

/// Exec form of `to_lower`.
pub fn char_to_lower(c: char) -> (r: char)
    ensures
        r == to_lower(c),
{
    let u = c as u32;
    if 65 <= u && u <= 90 {
        ((u + 32) as u8) as char
    } else {
        c
    }
}

/// The phrase's characters, ASCII-lowercased, as a vector.
pub fn lower_chars(input: &String) -> (v: Vec<char>)
    ensures
        v@.len() == input@.len(),
        forall|i: int| 0 <= i < input@.len() ==> v@[i] == to_lower(#[trigger] input@[i]),
{
    let s = input.as_str();
    let n = s.unicode_len();
    let mut v: Vec<char> = Vec::new();
    let mut i: usize = 0;
    while i < n
        invariant
            n == input@.len(),
            s@ == input@,
            0 <= i <= n,
            v@.len() == i,
            forall|k: int| 0 <= k < i ==> v@[k] == to_lower(#[trigger] input@[k]),
        decreases n - i,
    {
        v.push(char_to_lower(s.get_char(i)));
        i = i + 1;
    }
    v
}

/// Linear search for a character in a vector of guessed letters.
pub fn vec_contains_char(v: &Vec<char>, c: char) -> (r: bool)
    ensures
        r == v@.contains(c),
{
    let mut j: usize = 0;
    while j < v.len()
        invariant
            0 <= j <= v@.len(),
            forall|k: int| 0 <= k < j ==> v@[k] != c,
        decreases v@.len() - j,
    {
        if v[j] == c {
            return true;
        }
        j = j + 1;
    }
    false
}

} // verus!
