use fortuna::named::best_alias_score;
use fortuna::utils::compare_words;

#[test]
fn score_whole_word() {
    assert_eq!(compare_words("go", "go"), 2);
    assert_eq!(compare_words("look", "look"), 4);
}

#[test]
fn score_word_followed_by_more_input() {
    assert_eq!(compare_words("north east", "north"), 5);
    assert_eq!(compare_words("go north", "go"), 2);
}

#[test]
fn score_empty_input() {
    assert_eq!(compare_words("", "go"), 0);
    assert_eq!(compare_words("", ""), 0);
    assert_eq!(compare_words("", "north"), 0);
}

#[test]
fn score_input_exhausted_inside_word() {
    // The input ends while still matching the word: all of it is consumed.
    assert_eq!(compare_words("g", "go"), 1);
    assert_eq!(compare_words("nort", "north"), 4);
    assert_eq!(compare_words("ex", "exit"), 2);
}

#[test]
fn score_space_where_input_and_word_diverge() {
    assert_eq!(compare_words("ex amulet", "exit"), 2);
    assert_eq!(compare_words("take amulet", "take"), 4);
}

#[test]
fn score_other_divergence_is_zero() {
    assert_eq!(compare_words("goo", "go"), 0);
    assert_eq!(compare_words("exam", "exit"), 0);
    assert_eq!(compare_words("x", "exit"), 0);
    assert_eq!(compare_words(" go", "go"), 0);
    assert_eq!(compare_words("Go", "go"), 0);
}

#[test]
fn best_alias_keeps_greatest_score() {
    let aliases = vec!["take".to_string(), "grab".to_string()];
    assert_eq!(best_alias_score(&aliases, "grab amulet"), 4);
    assert_eq!(best_alias_score(&aliases, "ta"), 2);
    assert_eq!(best_alias_score(&aliases, "drop"), 0);
    let none: Vec<String> = Vec::new();
    assert_eq!(best_alias_score(&none, "take"), 0);
}
