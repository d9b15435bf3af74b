use wordle::Words;

fn bank(answers: &[&str], extra: &[&str]) -> Words {
    Words::new(
        answers.iter().map(|s| s.to_string()).collect(),
        extra.iter().map(|s| s.to_string()).collect(),
    )
}

#[test]
fn answers_load() {
    let words = bank(&["heart", "sound"], &["earth"]);
    let answer = words.get_answer();
    assert_eq!(answer.len(), 5);
}

#[test]
fn validates_guesses() {
    let words = bank(&["heart"], &["sound", "earth"]);
    assert!(words.valid_guess("heart"));
    assert!(!words.valid_guess("abcde"));
}

#[test]
fn answer_pool_words_are_valid_guesses() {
    let words = bank(&["heart", "sound"], &["earth"]);
    assert!(words.valid_guess("heart"));
    assert!(words.valid_guess("sound"));
    assert!(words.valid_guess("earth"));
}

#[test]
fn chosen_answer_comes_from_the_pool() {
    let words = bank(&["heart", "sound", "earth"], &[]);
    for _ in 0..20 {
        let answer = words.get_answer();
        assert!(words.answers.contains(&answer));
    }
}
