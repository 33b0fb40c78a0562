use atpolis::models::VoteValue;
use atpolis::tags::{
    add_tag, initial_watched_tags, remove_tag, STATUS_CREATED, STATUS_NOT_FOUND,
    STATUS_NO_CONTENT, STATUS_OK,
};
use atpolis::text::{contains_text, position_of_text, same_text};

fn strings(xs: &[&str]) -> Vec<String> {
    xs.iter().map(|s| s.to_string()).collect()
}

#[test]
fn vote_words_are_stored_and_read_back() {
    for v in [VoteValue::Agree, VoteValue::Disagree, VoteValue::Pass] {
        assert_eq!(VoteValue::from_stored(v.as_str()), v);
    }
    assert_eq!(VoteValue::Agree.as_str(), "agree");
    assert_eq!(VoteValue::Disagree.as_str(), "disagree");
    assert_eq!(VoteValue::Pass.as_str(), "pass");
}

#[test]
fn unknown_stored_word_reads_as_pass() {
    assert_eq!(VoteValue::from_stored("maybe"), VoteValue::Pass);
    assert_eq!(VoteValue::from_stored(""), VoteValue::Pass);
    assert_eq!(VoteValue::from_stored("Agree"), VoteValue::Pass);
}

#[test]
fn request_words_are_read_in_lowercase() {
    assert_eq!(VoteValue::parse_choice("agree"), Some(VoteValue::Agree));
    assert_eq!(VoteValue::parse_choice("AGREE"), Some(VoteValue::Agree));
    assert_eq!(VoteValue::parse_choice("DisAgree"), Some(VoteValue::Disagree));
    assert_eq!(VoteValue::parse_choice("Pass"), Some(VoteValue::Pass));
    assert_eq!(VoteValue::parse_choice("maybe"), None);
    assert_eq!(VoteValue::parse_choice(" agree"), None);
}

#[test]
fn choice_words_must_already_be_lowercase() {
    assert_eq!(VoteValue::from_choice("pass"), Some(VoteValue::Pass));
    assert_eq!(VoteValue::from_choice("PASS"), None);
}

#[test]
fn adding_a_new_tag_answers_created() {
    let mut tags = strings(&["ai", "space"]);
    assert_eq!(add_tag(&mut tags, "birds".to_string()), STATUS_CREATED);
    assert_eq!(tags, strings(&["ai", "space", "birds"]));
}

#[test]
fn adding_a_watched_tag_changes_nothing() {
    let mut tags = strings(&["ai", "space"]);
    assert_eq!(add_tag(&mut tags, "ai".to_string()), STATUS_OK);
    assert_eq!(tags, strings(&["ai", "space"]));
    assert_eq!(add_tag(&mut tags, "x".to_string()), STATUS_CREATED);
    assert_eq!(add_tag(&mut tags, "x".to_string()), STATUS_OK);
    assert_eq!(tags, strings(&["ai", "space", "x"]));
}

#[test]
fn removing_a_tag_answers_no_content() {
    let mut tags = strings(&["ai", "space", "funny"]);
    assert_eq!(remove_tag(&mut tags, "space"), STATUS_NO_CONTENT);
    assert_eq!(tags, strings(&["ai", "funny"]));
}

#[test]
fn removing_an_unknown_tag_answers_not_found() {
    let mut tags = strings(&["ai"]);
    assert_eq!(remove_tag(&mut tags, "AI"), STATUS_NOT_FOUND);
    assert_eq!(tags, strings(&["ai"]));
}

#[test]
fn removing_takes_the_first_occurrence_only() {
    let mut tags = strings(&["a", "b", "a"]);
    assert_eq!(remove_tag(&mut tags, "a"), STATUS_NO_CONTENT);
    assert_eq!(tags, strings(&["b", "a"]));
}

#[test]
fn add_then_remove_restores_the_list() {
    let original = strings(&["ai", "space"]);
    let mut tags = original.clone();
    assert_eq!(add_tag(&mut tags, "new".to_string()), STATUS_CREATED);
    assert_eq!(remove_tag(&mut tags, "new"), STATUS_NO_CONTENT);
    assert_eq!(tags, original);
    assert_eq!(remove_tag(&mut tags, "new"), STATUS_NOT_FOUND);
}

#[test]
fn initial_tags_are_the_five_topics() {
    assert_eq!(
        initial_watched_tags(),
        strings(&["ai", "space", "funny", "EconSky", "Ornithology"])
    );
}

#[test]
fn text_helpers_compare_characters() {
    assert!(same_text("abc", "abc"));
    assert!(!same_text("abc", "abd"));
    assert!(!same_text("abc", "ab"));
    let list = strings(&["x", "y", "x"]);
    assert!(contains_text(&list, "y"));
    assert!(!contains_text(&list, "z"));
    assert_eq!(position_of_text(&list, "x"), Some(0));
    assert_eq!(position_of_text(&list, "y"), Some(1));
    assert_eq!(position_of_text(&list, "z"), None);
}
