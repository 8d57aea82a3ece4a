use hangman::game::{play_round, Category, GuessStep};

fn step(masked: &str, guess: char, revealed: u128) -> GuessStep {
    GuessStep {
        masked: String::from(masked),
        guess,
        revealed,
    }
}

#[test]
fn test_play_round_frequency_phase_only() {
    // "beet tea" is fully carried by the first two frequency guesses:
    // 'e' reveals three characters, 't' two more, and only two stay hidden.
    let (steps, outcome) = play_round(&String::from("beet tea"));
    assert_eq!(Ok(()), outcome);
    assert_eq!(
        vec![step("____ ___", 'e', 3), step("_ee_ _e_", 't', 2)],
        steps
    );
}

#[test]
fn test_play_round_switches_to_random_phase() {
    // After the four frequency guesses (e, t, a, i) four characters of
    // "asdff" are still hidden, so the seeded search supplies the fifth
    // guess: 'd', the first draw that is present and unguessed.
    let (steps, outcome) = play_round(&String::from("asdff"));
    assert_eq!(Ok(()), outcome);
    assert_eq!(
        vec![
            step("_____", 'e', 0),
            step("_____", 't', 0),
            step("_____", 'a', 1),
            step("a____", 'i', 0),
            step("a____", 'd', 1),
        ],
        steps
    );
}

#[test]
fn test_play_round_short_phrase_needs_no_guess() {
    let (steps, outcome) = play_round(&String::from("ox!"));
    assert_eq!(Ok(()), outcome);
    assert!(steps.is_empty());
}

#[test]
fn test_category_from_name() {
    assert_eq!(
        Some(Category::Actors),
        Category::from_name(&String::from("actors"))
    );
    assert_eq!(
        Some(Category::Scientists),
        Category::from_name(&String::from("scientists"))
    );
    assert_eq!(
        Some(Category::Fruits),
        Category::from_name(&String::from("fruits"))
    );
    assert_eq!(None, Category::from_name(&String::from("animals")));
    assert_eq!(None, Category::from_name(&String::from("")));
}

#[test]
fn test_category_hint() {
    assert_eq!("This person is an actor.", Category::Actors.hint());
    assert_eq!("This person is a scientist.", Category::Scientists.hint());
    assert_eq!("This is a fruit.", Category::Fruits.hint());
}

#[test]
fn test_play_round_masks_match_obfuscation() {
    // Every reported render agrees with masking the phrase under the letters
    // guessed before that step.
    let phrase = String::from("Tom Cruise");
    let (steps, outcome) = play_round(&phrase);
    assert_eq!(Ok(()), outcome);
    let mut guessed: Vec<char> = Vec::new();
    for s in &steps {
        let (masked, before) = hangman::masking::obfuscate_input(&phrase, &guessed);
        assert_eq!(masked, s.masked);
        assert!(before > 3);
        guessed.push(s.guess);
        let (_, after) = hangman::masking::obfuscate_input(&phrase, &guessed);
        assert_eq!(before - after, s.revealed);
    }
    let (_, left) = hangman::masking::obfuscate_input(&phrase, &guessed);
    assert!(left <= 3);
}
