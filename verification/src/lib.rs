//! An automated hangman-style guesser.
//!
//! Given a secret phrase, the library progressively reveals its letters: the
//! first guesses walk a canonical frequency-ordered alphabet, after which a
//! seeded, rejection-sampling search picks letters that actually occur in the
//! phrase, until few enough characters remain hidden. The masking engine
//! renders the reveal state; the game loop composes the two and reports every
//! step.

pub mod game;
pub mod letters;
pub mod masking;
pub mod rng;
pub mod selector;
