//! Masking engine: renders a phrase with every not-yet-guessed letter hidden
//! behind a placeholder, and counts how many alphabetic characters remain
//! hidden.

use vstd::prelude::*;

use crate::letters::{char_is_ascii_letter, char_to_lower, is_ascii_letter, is_lower_letter,
    to_lower, vec_contains_char};

verus! {

/// A character of the phrase is hidden when it is an ASCII letter whose
/// lowercase form has not been guessed.
pub open spec fn is_hidden(c: char, guesses: Seq<char>) -> bool {
    is_ascii_letter(c) && !guesses.contains(to_lower(c))
}

/// One character of the masked render: hidden letters become the placeholder
/// `'_'`, everything else is copied unchanged.
pub open spec fn mask_char(c: char, guesses: Seq<char>) -> char {
    if is_hidden(c, guesses) {
        '_'
    } else {
        c
    }
}

/// The masked render of a whole phrase, character by character.
pub open spec fn mask_seq(phrase: Seq<char>, guesses: Seq<char>) -> Seq<char> {
    Seq::new(phrase.len(), |i: int| mask_char(phrase[i], guesses))
}

/// The number of hidden characters: ASCII letters of `phrase` whose lowercase
/// form is not in `guesses`. Non-letters never count.
pub open spec fn hidden_count(phrase: Seq<char>, guesses: Seq<char>) -> nat
    decreases phrase.len(),
{
    if phrase.len() == 0 {
        0
    } else {
        hidden_count(phrase.drop_last(), guesses) + if is_hidden(phrase.last(), guesses) {
            1nat
        } else {
            0nat
        }
    }
}

/// Counting hidden characters distributes over appending one character.
pub proof fn lemma_hidden_count_push(phrase: Seq<char>, guesses: Seq<char>, c: char)
    ensures
        hidden_count(phrase.push(c), guesses) == hidden_count(phrase, guesses) + if is_hidden(
            c,
            guesses,
        ) {
            1nat
        } else {
            0nat
        },
{
    assert(phrase.push(c).drop_last() =~= phrase);
}

/// `g1` holds no letter outside `g2`.
pub open spec fn subset_of(g1: Seq<char>, g2: Seq<char>) -> bool {
    forall|c: char| g1.contains(c) ==> g2.contains(c)
}

/// The hidden count equals the length of the subsequence of hidden
/// characters: it counts exactly the ASCII letters whose lowercase form is
/// not guessed, and nothing else.
pub proof fn lemma_hidden_count_is_filter_len(phrase: Seq<char>, guesses: Seq<char>)
    ensures
        hidden_count(phrase, guesses) == phrase.filter(|c: char| is_hidden(c, guesses)).len(),
    decreases phrase.len(),
{
    reveal(Seq::filter);
    if phrase.len() > 0 {
        lemma_hidden_count_is_filter_len(phrase.drop_last(), guesses);
    }
}

/// Growing the guessed set never re-hides a character: the hidden count is
/// monotonically non-increasing as guesses are added.
pub proof fn lemma_hidden_count_monotone(phrase: Seq<char>, g1: Seq<char>, g2: Seq<char>)
    requires
        subset_of(g1, g2),
    ensures
        hidden_count(phrase, g2) <= hidden_count(phrase, g1),
    decreases phrase.len(),
{
    if phrase.len() > 0 {
        lemma_hidden_count_monotone(phrase.drop_last(), g1, g2);
    }
}

/// Every guessed set is covered by itself extended with one more letter.
pub proof fn lemma_push_grows(guesses: Seq<char>, c: char)
    ensures
        subset_of(guesses, guesses.push(c)),
        guesses.push(c).contains(c),
{
    assert forall|x: char| guesses.contains(x) implies guesses.push(c).contains(x) by {
        let i = choose|i: int| 0 <= i < guesses.len() && guesses[i] == x;
        assert(guesses.push(c)[i] == x);
    }
    assert(guesses.push(c)[guesses.len() as int] == c);
}

/// Guessing a fresh lowercase letter that occurs (case-insensitively) in the
/// phrase strictly lowers the hidden count: at least one character is
/// revealed.
pub proof fn lemma_new_letter_reveals(phrase: Seq<char>, guesses: Seq<char>, c: char)
    requires
        is_lower_letter(c),
        !guesses.contains(c),
        exists|i: int| 0 <= i < phrase.len() && to_lower(#[trigger] phrase[i]) == c,
    ensures
        hidden_count(phrase, guesses.push(c)) < hidden_count(phrase, guesses),
    decreases phrase.len(),
{
    lemma_push_grows(guesses, c);
    let w = choose|i: int| 0 <= i < phrase.len() && to_lower(#[trigger] phrase[i]) == c;
    assert(is_ascii_letter(phrase[w]));
    if w == phrase.len() - 1 {
        lemma_hidden_count_monotone(phrase.drop_last(), guesses, guesses.push(c));
        assert(is_hidden(phrase.last(), guesses));
        assert(!is_hidden(phrase.last(), guesses.push(c)));
    } else {
        assert(phrase.drop_last()[w] == phrase[w]);
        lemma_new_letter_reveals(phrase.drop_last(), guesses, c);
    }
}

/// Under a fixed guessed set the masked render is a fixed point of masking:
/// rendering the masked string again changes nothing, since revealed letters
/// stay revealed and placeholders are not letters.
pub proof fn lemma_mask_idempotent(phrase: Seq<char>, guesses: Seq<char>)
    ensures
        mask_seq(mask_seq(phrase, guesses), guesses) == mask_seq(phrase, guesses),
{
    assert(mask_seq(mask_seq(phrase, guesses), guesses) =~= mask_seq(phrase, guesses));
}

/// Non-letter characters (spaces, punctuation, digits) are copied into the
/// render unchanged.
pub proof fn lemma_nonletter_copied(phrase: Seq<char>, guesses: Seq<char>)
    ensures
        forall|i: int|
            0 <= i < phrase.len() && !is_ascii_letter(phrase[i]) ==> mask_seq(phrase, guesses)[i]
                == phrase[i],
{
}

/// A non-letter character never contributes to the hidden count.
pub proof fn lemma_nonletter_not_counted(phrase: Seq<char>, guesses: Seq<char>, c: char)
    requires
        !is_ascii_letter(c),
    ensures
        hidden_count(phrase.push(c), guesses) == hidden_count(phrase, guesses),
{
    lemma_hidden_count_push(phrase, guesses, c);
}

/// Renders `input` under the guessed letters: every ASCII letter whose
/// lowercase form has been guessed is copied through (case preserved), every
/// other ASCII letter becomes `'_'`, and every non-letter is copied unchanged.
/// Also returns how many characters were hidden.
pub fn obfuscate_input(input: &String, guesses: &Vec<char>) -> (r: (String, u128))
    ensures
        r.0@ == mask_seq(input@, guesses@),
        r.1 == hidden_count(input@, guesses@),
{
    let s = input.as_str();
    let n = s.unicode_len();
    let mut result = String::new();
    let mut missing: u128 = 0;
    let mut i: usize = 0;
    proof {
        reveal_strlit("_");
    }
    while i < n
        invariant
            n == input@.len(),
            s@ == input@,
            0 <= i <= n,
            result@ == mask_seq(input@, guesses@).take(i as int),
            missing == hidden_count(input@.take(i as int), guesses@),
            missing <= i,
            "_"@ =~= seq!['_'],
        decreases n - i,
    {
        let ghost prefix = input@.take(i as int);
        let c = s.get_char(i);
        let hide = if char_is_ascii_letter(c) {
            !vec_contains_char(guesses, char_to_lower(c))
        } else {
            false
        };
        if hide {
            result.append("_");
            missing = missing + 1;
        } else {
            let piece = s.substring_char(i, i + 1);
            result.append(piece);
            assert(piece@ =~= seq![input@[i as int]]);
        }
        proof {
            assert(input@.take(i + 1 as int) =~= prefix.push(input@[i as int]));
            lemma_hidden_count_push(prefix, guesses@, input@[i as int]);
            assert(result@ =~= mask_seq(input@, guesses@).take(i + 1 as int));
        }
        i = i + 1;
    }
    proof {
        assert(input@.take(n as int) =~= input@);
        assert(mask_seq(input@, guesses@).take(n as int) =~= mask_seq(input@, guesses@));
    }
    (result, missing)
}

} // verus!
