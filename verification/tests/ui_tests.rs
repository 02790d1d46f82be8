use cdrip::ui::UserInterface;

#[test]
fn prompt_choice_accepts_numbers_in_range() {
    assert_eq!(UserInterface::prompt_choice("2", 1, 5), Some(2));
    assert_eq!(UserInterface::prompt_choice("1", 1, 5), Some(1));
    assert_eq!(UserInterface::prompt_choice("5", 1, 5), Some(5));
    assert_eq!(UserInterface::prompt_choice("007", 1, 9), Some(7));
}

#[test]
fn prompt_choice_zero_means_no_choice() {
    assert_eq!(UserInterface::prompt_choice("0", 1, 5), None);
    assert_eq!(UserInterface::prompt_choice("0", 0, 5), None);
}

#[test]
fn prompt_choice_rejects_out_of_range_and_garbage() {
    assert_eq!(UserInterface::prompt_choice("6", 1, 5), None);
    assert_eq!(UserInterface::prompt_choice("abc", 1, 5), None);
    assert_eq!(UserInterface::prompt_choice("", 1, 5), None);
    assert_eq!(UserInterface::prompt_choice("2x", 1, 5), None);
    assert_eq!(UserInterface::prompt_choice("-1", 1, 5), None);
    assert_eq!(UserInterface::prompt_choice("99999999999999999999999999", 1, 5), None);
}

#[test]
fn affirmative_answers_in_both_languages() {
    assert!(UserInterface::is_affirmative("o"));
    assert!(UserInterface::is_affirmative("O"));
    assert!(UserInterface::is_affirmative("oui"));
    assert!(UserInterface::is_affirmative("OUI"));
    assert!(UserInterface::is_affirmative("y"));
    assert!(UserInterface::is_affirmative("yes"));
    assert!(UserInterface::is_affirmative("YeS"));
    assert!(!UserInterface::is_affirmative("n"));
    assert!(!UserInterface::is_affirmative("non"));
    assert!(!UserInterface::is_affirmative(""));
    assert!(!UserInterface::is_affirmative("maybe"));
}
