use hangman::masking::obfuscate_input;

#[test]
fn test_obfuscate_input() {
    assert_eq!(
        (String::from("_____"), 5),
        obfuscate_input(&String::from("asdff"), &vec![])
    );
    assert_eq!(
        (String::from("a____"), 4),
        obfuscate_input(&String::from("asdff"), &vec!['a'])
    );
    assert_eq!(
        (String::from("a__ff"), 2),
        obfuscate_input(&String::from("asdff"), &vec!['a', 'f'])
    );
    assert_eq!(
        (String::from("asdff"), 0),
        obfuscate_input(&String::from("asdff"), &vec!['a', 's', 'd', 'f'])
    );
    assert_eq!(
        (String::from("___ ______"), 9),
        obfuscate_input(&String::from("Tom Cruise"), &vec![])
    );
    assert_eq!(
        (String::from("T__ ______"), 8),
        obfuscate_input(&String::from("Tom Cruise"), &vec!['t'])
    );
    assert_eq!(
        (String::from("T_m ______"), 7),
        obfuscate_input(&String::from("Tom Cruise"), &vec!['t', 'm'])
    );
    assert_eq!(
        (String::from("T_m C_____"), 6),
        obfuscate_input(&String::from("Tom Cruise"), &vec!['t', 'm', 'c'])
    );
    assert_eq!(
        (String::from("Tom Cr____"), 4),
        obfuscate_input(&String::from("Tom Cruise"), &vec!['t', 'o', 'm', 'c', 'r'])
    );
    assert_eq!(
        (String::from("Tom Cr____"), 4),
        obfuscate_input(
            &String::from("Tom Cruise"),
            &vec!['t', 'o', 'm', 'c', 'r', 'z']
        )
    );
    assert_eq!(
        (String::from("Tom Cruise"), 0),
        obfuscate_input(
            &String::from("Tom Cruise"),
            &vec!['t', 'o', 'm', 'c', 'r', 'u', 'i', 's', 'e']
        )
    );
}

#[test]
fn test_obfuscate_nonletters_unchanged() {
    assert_eq!(
        (String::from("_1! _"), 2),
        obfuscate_input(&String::from("a1! b"), &vec![])
    );
    assert_eq!(
        (String::from("3, 2, 1..."), 0),
        obfuscate_input(&String::from("3, 2, 1..."), &vec![])
    );
}

#[test]
fn test_obfuscate_deterministic() {
    let phrase = String::from("Tom Cruise");
    let guesses = vec!['t', 'm'];
    assert_eq!(
        obfuscate_input(&phrase, &guesses),
        obfuscate_input(&phrase, &guesses)
    );
}

#[test]
fn test_obfuscate_masked_render_is_fixed_point() {
    let phrase = String::from("Tom Cruise");
    let guesses = vec!['t', 'm', 'c'];
    let (masked, _) = obfuscate_input(&phrase, &guesses);
    let (again, _) = obfuscate_input(&masked, &guesses);
    assert_eq!(masked, again);
}

#[test]
fn test_hidden_count_monotone_under_more_guesses() {
    let phrase = String::from("Tom Cruise");
    let smaller = vec!['t', 'm'];
    let larger = vec!['t', 'm', 'c', 'z'];
    let (_, before) = obfuscate_input(&phrase, &smaller);
    let (_, after) = obfuscate_input(&phrase, &larger);
    assert!(after <= before);
}

#[test]
fn test_obfuscate_empty_phrase() {
    assert_eq!(
        (String::from(""), 0),
        obfuscate_input(&String::from(""), &vec![])
    );
}
