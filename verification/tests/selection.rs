use hangman::selector::{random_unguessed_letter_from_input, SelectError};

#[test]
fn test_random_unguessed_letter_from_input() {
    assert_eq!(
        Ok('a'),
        random_unguessed_letter_from_input(&String::from("asdff"), &vec![])
    );
    assert_eq!(
        Ok('d'),
        random_unguessed_letter_from_input(&String::from("asdff"), &vec!['a'])
    );
    assert_eq!(
        Ok('s'),
        random_unguessed_letter_from_input(&String::from("asdff"), &vec!['a', 'd'])
    );
    assert_eq!(
        Ok('d'),
        random_unguessed_letter_from_input(&String::from("sdff"), &vec![])
    );
    assert_eq!(
        Ok('u'),
        random_unguessed_letter_from_input(&String::from("foobarbazqux"), &vec![])
    );
    assert_eq!(
        Ok('a'),
        random_unguessed_letter_from_input(&String::from("foobarbazqux"), &vec!['u'])
    );
}

#[test]
fn test_random_unguessed_letter_from_input_exhausted() {
    assert_eq!(
        Err(SelectError::Exhausted),
        random_unguessed_letter_from_input(&String::from("asd"), &vec!['a', 's', 'd'])
    );
}

#[test]
fn test_selection_ignores_case_of_phrase() {
    assert_eq!(
        Ok('a'),
        random_unguessed_letter_from_input(&String::from("ASDFF"), &vec![])
    );
}

#[test]
fn test_selection_on_phrase_without_letters() {
    assert_eq!(
        Err(SelectError::Exhausted),
        random_unguessed_letter_from_input(&String::from("123 !?"), &vec![])
    );
}
