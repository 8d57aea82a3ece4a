//! The driving loop of one round: alternates the masking engine and the
//! letter selector until few enough characters remain hidden, and records a
//! report of every step. Categories file each phrase under a hint.

use vstd::prelude::*;

use crate::letters::freq_letter;
use crate::letters::freq_table;
use crate::masking::{
    hidden_count, lemma_hidden_count_monotone, lemma_new_letter_reveals, lemma_push_grows,
    mask_seq, obfuscate_input,
};
use crate::selector::{
    lemma_selected_letter_sound, random_unguessed_letter_from_input, spec_selected_letter,
    SelectError,
};

verus! {

/// How many guesses the frequency phase issues before the random search takes
/// over.
pub const COMMON_GUESSES: usize = 4;

/// A round ends once no more than this many characters remain hidden.
pub const REVEAL_THRESHOLD: u128 = 3;

/// The closed set of categories a phrase may be filed under.
#[derive(Clone, Copy, Debug, PartialEq, Eq, Structural)]
pub enum Category {
    Actors,
    Scientists,
    Fruits,
}

/// Which category a name denotes; anything outside the closed set is
/// unrecognized.
pub open spec fn spec_category_of(name: Seq<char>) -> Option<Category> {
    if name == "actors"@ {
        Some(Category::Actors)
    } else if name == "scientists"@ {
        Some(Category::Scientists)
    } else if name == "fruits"@ {
        Some(Category::Fruits)
    } else {
        None
    }
}

impl Category {
    /// Parses a category name; returns `None` exactly on an unrecognized one.
    pub fn from_name(name: &String) -> (r: Option<Category>)
        ensures
            r == spec_category_of(name@),
    {
        if *name == String::from_str("actors") {
            Some(Category::Actors)
        } else if *name == String::from_str("scientists") {
            Some(Category::Scientists)
        } else if *name == String::from_str("fruits") {
            Some(Category::Fruits)
        } else {
            None
        }
    }

    /// The hint line shown for this category.
    pub open spec fn spec_hint(self) -> Seq<char> {
        match self {
            Category::Actors => "This person is an actor."@,
            Category::Scientists => "This person is a scientist."@,
            Category::Fruits => "This is a fruit."@,
        }
    }

    /// Exec form of `spec_hint`.
    pub fn hint(&self) -> (r: &'static str)
        ensures
            r@ == self.spec_hint(),
    {
        match self {
            Category::Actors => "This person is an actor.",
            Category::Scientists => "This person is a scientist.",
            Category::Fruits => "This is a fruit.",
        }
    }
}

/// One reported step of a round: the render before the guess, the letter
/// guessed at that point, and how many characters the guess revealed.
#[derive(Debug, PartialEq, Eq)]
pub struct GuessStep {
    pub masked: String,
    pub guess: char,
    pub revealed: u128,
}

/// The letters guessed in the first `k` steps of a round, in order.
pub open spec fn step_guesses(steps: Seq<GuessStep>, k: int) -> Seq<char> {
    steps.take(k).map_values(|s: GuessStep| s.guess)
}

/// All letters guessed over a round.
pub open spec fn round_guesses(steps: Seq<GuessStep>) -> Seq<char> {
    step_guesses(steps, steps.len() as int)
}

/// Step `k` of a round over `phrase` is correctly formed: it was taken while
/// more than `REVEAL_THRESHOLD` characters were hidden, it rendered the
/// phrase under the letters guessed so far, its guess came from the
/// frequency table during the first `COMMON_GUESSES` steps and from the
/// random search afterwards, and it reported exactly the drop in the hidden
/// count that the guess caused.
pub open spec fn step_ok(phrase: Seq<char>, steps: Seq<GuessStep>, k: int) -> bool {
    let g = step_guesses(steps, k);
    let g2 = g.push(steps[k].guess);
    &&& hidden_count(phrase, g) > REVEAL_THRESHOLD
    &&& steps[k].masked@ == mask_seq(phrase, g)
    &&& (if k < COMMON_GUESSES {
        steps[k].guess == freq_table()[k]
    } else {
        spec_selected_letter(phrase, g) == Ok::<char, SelectError>(steps[k].guess)
    })
    &&& steps[k].revealed == hidden_count(phrase, g) - hidden_count(phrase, g2)
}

/// A correctly formed round never guesses a letter twice: the guessed-letter
/// set grows append-only, unique over the round. The first guesses are
/// distinct entries of the frequency table, and every later one is a letter
/// the search found unguessed.
pub proof fn lemma_round_guesses_unique(phrase: Seq<char>, steps: Seq<GuessStep>)
    requires
        forall|k: int| 0 <= k < steps.len() ==> step_ok(phrase, steps, k),
    ensures
        forall|k1: int, k2: int|
            0 <= k1 < k2 < steps.len() ==> steps[k1].guess != steps[k2].guess,
{
    assert forall|k1: int, k2: int|
        0 <= k1 < k2 < steps.len() implies steps[k1].guess != steps[k2].guess by {
        assert(step_ok(phrase, steps, k1));
        assert(step_ok(phrase, steps, k2));
        if k2 < COMMON_GUESSES {
            assert(freq_table()[0] == 'e' && freq_table()[1] == 't' && freq_table()[2] == 'a'
                && freq_table()[3] == 'i');
        } else {
            let g = step_guesses(steps, k2);
            lemma_selected_letter_sound(phrase, g);
            assert(g[k1] == steps[k1].guess);
            assert(g.contains(steps[k1].guess));
        }
    }
}

/// Plays one round over `phrase`: guesses letters until no more than
/// `REVEAL_THRESHOLD` characters remain hidden, reporting each step. The
/// first `COMMON_GUESSES` guesses walk the frequency table in order, without
/// consulting the phrase; after that each guess comes from the seeded random
/// search. If that search ever exhausts its budget, the steps taken so far
/// are returned together with the error.
pub fn play_round(phrase: &String) -> (r: (Vec<GuessStep>, Result<(), SelectError>))
    ensures
        forall|k: int| 0 <= k < r.0@.len() ==> step_ok(phrase@, r.0@, k),
        r.1 is Ok ==> hidden_count(phrase@, round_guesses(r.0@)) <= REVEAL_THRESHOLD,
        r.1 matches Err(e) ==> {
            &&& hidden_count(phrase@, round_guesses(r.0@)) > REVEAL_THRESHOLD
            &&& r.0@.len() >= COMMON_GUESSES
            &&& spec_selected_letter(phrase@, round_guesses(r.0@)) == Err::<char, SelectError>(e)
        },
{
    let mut guessed: Vec<char> = Vec::new();
    let mut steps: Vec<GuessStep> = Vec::new();
    let mut common: usize = 0;
    let initial = obfuscate_input(phrase, &guessed);
    let mut missing: u128 = initial.1;
    proof {
        assert(guessed@ =~= steps@.map_values(|s: GuessStep| s.guess));
    }
    while missing > REVEAL_THRESHOLD
        invariant
            guessed@ == steps@.map_values(|s: GuessStep| s.guess),
            missing == hidden_count(phrase@, guessed@),
            common <= COMMON_GUESSES,
            common < COMMON_GUESSES ==> common == steps@.len(),
            common == COMMON_GUESSES ==> steps@.len() >= COMMON_GUESSES,
            forall|k: int| 0 <= k < steps@.len() ==> step_ok(phrase@, steps@, k),
        decreases COMMON_GUESSES - common, missing,
    {
        let round = obfuscate_input(phrase, &guessed);
        let masked = round.0;
        let ghost g0 = guessed@;
        let ghost steps0 = steps@;
        proof {
            assert(steps0.take(steps0.len() as int) =~= steps0);
        }
        let next_letter: char;
        if common < COMMON_GUESSES {
            next_letter = freq_letter(common);
            common = common + 1;
        } else {
            match random_unguessed_letter_from_input(phrase, &guessed) {
                Ok(c) => {
                    next_letter = c;
                    proof {
                        lemma_selected_letter_sound(phrase@, g0);
                        lemma_new_letter_reveals(phrase@, g0, c);
                    }
                },
                Err(e) => {
                    proof {
                        assert(steps@.take(steps@.len() as int) =~= steps@);
                    }
                    return (steps, Err(e));
                },
            }
        }
        guessed.push(next_letter);
        proof {
            lemma_push_grows(g0, next_letter);
            lemma_hidden_count_monotone(phrase@, g0, g0.push(next_letter));
        }
        let after = obfuscate_input(phrase, &guessed);
        let revealed = missing - after.1;
        steps.push(GuessStep { masked, guess: next_letter, revealed });
        proof {
            assert(steps@.take(steps0.len() as int) =~= steps0);
            assert(guessed@ =~= steps@.map_values(|s: GuessStep| s.guess));
            assert(step_guesses(steps@, steps0.len() as int) == g0);
            assert forall|k: int| 0 <= k < steps0.len() implies step_ok(phrase@, steps@, k) by {
                assert(step_ok(phrase@, steps0, k));
                assert(steps@.take(k) =~= steps0.take(k));
                assert(step_guesses(steps@, k) == step_guesses(steps0, k));
                assert(steps@[k] == steps0[k]);
            }
            assert(step_ok(phrase@, steps@, steps0.len() as int));
        }
        missing = after.1;
    }
    proof {
        assert(steps@.take(steps@.len() as int) =~= steps@);
    }
    (steps, Ok(()))
}

} // verus!
