use mxselfbot::text::{join_on_space, same_text, split_on_space, starts_with};

fn strings(v: &[&str]) -> Vec<String> {
    v.iter().map(|s| s.to_string()).collect()
}

#[test]
fn split_words_at_single_spaces() {
    assert_eq!(split_on_space("ping now"), strings(&["ping", "now"]));
}

#[test]
fn split_keeps_empty_pieces() {
    assert_eq!(split_on_space("a  b "), strings(&["a", "", "b", ""]));
    assert_eq!(split_on_space(""), strings(&[""]));
    assert_eq!(split_on_space(" "), strings(&["", ""]));
}

#[test]
fn split_agrees_with_std() {
    for s in ["help about", "x", "  lead", "trail  ", "ünï cödé 🏓 x"] {
        let ours = split_on_space(s);
        let std: Vec<String> = s.split(" ").map(String::from).collect();
        assert_eq!(ours, std);
    }
}

#[test]
fn join_undoes_split() {
    for s in ["help about", "", "a  b ", "🏓 pong"] {
        assert_eq!(join_on_space(&split_on_space(s)), s);
    }
}

#[test]
fn join_puts_one_space_between() {
    assert_eq!(join_on_space(&strings(&["a", "b", "c"])), "a b c");
    assert_eq!(join_on_space(&strings(&[])), "");
    assert_eq!(join_on_space(&strings(&["solo"])), "solo");
}

#[test]
fn prefix_tests() {
    assert!(starts_with("!s ping", "!s "));
    assert!(starts_with("anything", ""));
    assert!(!starts_with("!s", "!s "));
    assert!(!starts_with("?s ping", "!s "));
    assert!(starts_with("éa", "é"));
}

#[test]
fn text_equality() {
    assert!(same_text("about", "about"));
    assert!(!same_text("about", "About"));
    assert!(!same_text("", " "));
}
