use xdg_attrs::csv;
use xdg_attrs::join_tags;

#[test]
fn join_three_tags() {
    let tags = vec!["alpha".to_string(), "beta".to_string(), "gamma".to_string()];
    assert_eq!(join_tags(&tags), "alpha,beta,gamma");
}

#[test]
fn split_three_tags() {
    assert_eq!(
        csv("alpha,beta,gamma"),
        vec!["alpha".to_string(), "beta".to_string(), "gamma".to_string()]
    );
}

#[test]
fn split_keeps_empty_pieces() {
    assert_eq!(csv("a,,b"), vec!["a".to_string(), String::new(), "b".to_string()]);
}

#[test]
fn split_empty_string_is_one_empty_tag() {
    assert_eq!(csv(""), vec![String::new()]);
}

#[test]
fn join_empty_list_is_empty_string() {
    let tags: Vec<String> = Vec::new();
    assert_eq!(join_tags(&tags), "");
}

#[test]
fn join_then_split_round_trips() {
    let tags = vec!["work".to_string(), "to do".to_string(), "a+b".to_string()];
    assert_eq!(csv(&join_tags(&tags)), tags);
}

#[test]
fn join_single_tag_has_no_comma() {
    let tags = vec!["solo".to_string()];
    assert_eq!(join_tags(&tags), "solo");
    assert_eq!(csv("solo"), tags);
}
