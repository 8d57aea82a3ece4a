//! Phase-two letter selection: a seeded, rejection-sampling search over the
//! letters that actually occur in the phrase.
//!
//! A fresh generator is seeded with the same fixed constant on every call, so
//! the candidate indices drawn within one call always start from the same
//! deterministic point; the routine carries no generator state across calls.

use vstd::prelude::*;

use crate::letters::{
    freq_letter, freq_table, is_lower_letter, lemma_freq_table_letters, lower_chars, to_lower,
    vec_contains_char, ALPHABET_LEN,
};
use crate::rng::{pcg_draw, DrawStream};

verus! {

/// The fixed seed every search starts its generator from.
pub const RNG_SEED: u64 = 2;

/// How many rejected draws the search tolerates before giving up; a guard
/// against an otherwise infinite loop when every letter of the phrase has
/// already been guessed.
pub const SEARCH_BUDGET: usize = 100000;

/// The failure of a search that exhausted its retry budget.
#[derive(Clone, Copy, Debug, PartialEq, Eq, Structural)]
pub enum SelectError {
    Exhausted,
}

/// The search accepts `c` when it has not been guessed yet and occurs,
/// case-insensitively, somewhere in the phrase.
pub open spec fn accepts(phrase: Seq<char>, guesses: Seq<char>, c: char) -> bool {
    &&& !guesses.contains(c)
    &&& exists|i: int| 0 <= i < phrase.len() && to_lower(#[trigger] phrase[i]) == c
}

/// The candidate drawn at position `k` of the search's stream: the entry of
/// the frequency table at the drawn index. The reduction into the table's
/// range makes the lookup total; the draw itself already lies below
/// `ALPHABET_LEN`.
pub open spec fn candidate_at(k: nat) -> char {
    freq_table()[(pcg_draw(RNG_SEED, ALPHABET_LEN, k) % ALPHABET_LEN) as int]
}

/// The outcome of the search from draw position `k` on: the first accepted
/// candidate at or after `k`, or the exhaustion error once more than
/// `SEARCH_BUDGET` draws have been rejected.
pub open spec fn search_from(phrase: Seq<char>, guesses: Seq<char>, k: nat) -> Result<
    char,
    SelectError,
>
    decreases SEARCH_BUDGET + 1 - k,
{
    if k > SEARCH_BUDGET {
        Err(SelectError::Exhausted)
    } else if accepts(phrase, guesses, candidate_at(k)) {
        Ok(candidate_at(k))
    } else {
        search_from(phrase, guesses, k + 1)
    }
}

/// What the whole search returns for a phrase and a guessed set.
pub open spec fn spec_selected_letter(phrase: Seq<char>, guesses: Seq<char>) -> Result<
    char,
    SelectError,
> {
    search_from(phrase, guesses, 0)
}

/// A successful search only ever returns a lowercase letter that is not in
/// the guessed set and occurs, case-insensitively, in the phrase.
pub proof fn lemma_search_from_sound(phrase: Seq<char>, guesses: Seq<char>, k: nat)
    ensures
        search_from(phrase, guesses, k) matches Ok(c) ==> accepts(phrase, guesses, c)
            && is_lower_letter(c),
    decreases SEARCH_BUDGET + 1 - k,
{
    lemma_freq_table_letters();
    if k <= SEARCH_BUDGET && !accepts(phrase, guesses, candidate_at(k)) {
        lemma_search_from_sound(phrase, guesses, k + 1);
    }
}

/// The selection never returns a letter absent from the phrase or already
/// present in the guessed set.
pub proof fn lemma_selected_letter_sound(phrase: Seq<char>, guesses: Seq<char>)
    ensures
        spec_selected_letter(phrase, guesses) matches Ok(c) ==> accepts(phrase, guesses, c)
            && is_lower_letter(c),
{
    lemma_search_from_sound(phrase, guesses, 0);
}

/// Draws candidates from a freshly seeded stream until one is accepted:
/// returns the first drawn letter that is unguessed and occurs,
/// case-insensitively, in `input`, or the exhaustion error once the retry
/// budget is spent.
pub fn random_unguessed_letter_from_input(input: &String, guesses: &Vec<char>) -> (r: Result<
    char,
    SelectError,
>)
    ensures
        r == spec_selected_letter(input@, guesses@),
{
    let mut stream = DrawStream::new(RNG_SEED, ALPHABET_LEN);
    let lowered = lower_chars(input);
    let mut k: usize = 0;
    loop
        invariant
            stream.spec_seed() == RNG_SEED,
            stream.spec_bound() == ALPHABET_LEN,
            stream.spec_count() == k,
            k <= SEARCH_BUDGET + 1,
            lowered@.len() == input@.len(),
            forall|i: int| 0 <= i < input@.len() ==> lowered@[i] == to_lower(#[trigger] input@[i]),
            search_from(input@, guesses@, k as nat) == spec_selected_letter(input@, guesses@),
        decreases SEARCH_BUDGET + 1 - k,
    {
        if k > SEARCH_BUDGET {
            return Err(SelectError::Exhausted);
        }
        let idx = stream.draw();
        let c = freq_letter(idx % ALPHABET_LEN);
        assert(c == candidate_at(k as nat));
        if !vec_contains_char(guesses, c) && vec_contains_char(&lowered, c) {
            proof {
                let w = choose|i: int| 0 <= i < lowered@.len() && lowered@[i] == c;
                assert(to_lower(input@[w]) == c);
                assert(accepts(input@, guesses@, c));
            }
            return Ok(c);
        }
        proof {
            if !guesses@.contains(c) {
                assert(forall|i: int| 0 <= i < input@.len() ==> to_lower(#[trigger] input@[i])
                    != c) by {
                    assert(forall|i: int| 0 <= i < lowered@.len() ==> lowered@[i] != c);
                }
                assert(!accepts(input@, guesses@, c));
            }
        }
        k = k + 1;
    }
}

} // verus!
