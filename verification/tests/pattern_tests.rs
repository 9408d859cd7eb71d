use rsh::pattern::Pattern;
use rsh::pattern::PatternList;

fn pat(s: &str) -> Pattern {
    Pattern::from_str(s).unwrap()
}

#[test]
fn wildcard_matches_everything() {
    let p = pat("*");
    assert!(p.matches(""));
    assert!(p.matches("x"));
    assert!(p.matches("web.example.com"));
}

#[test]
fn question_mark_matches_one_character() {
    let p = pat("?");
    assert!(!p.matches(""));
    assert!(p.matches("x"));
    assert!(!p.matches("xy"));
}

#[test]
fn literals_match_exactly() {
    let p = pat("web1");
    assert!(p.matches("web1"));
    assert!(!p.matches("web2"));
    assert!(!p.matches("web12"));
    assert!(!p.matches("aweb1"));
}

#[test]
fn star_matches_runs() {
    let p = pat("*.example.com");
    assert!(p.matches("a.example.com"));
    assert!(p.matches(".example.com"));
    assert!(p.matches("x.y.example.com"));
    assert!(!p.matches("example.org"));
}

#[test]
fn star_then_question_still_needs_a_character() {
    let p = pat("*?");
    assert!(!p.matches(""));
    assert!(p.matches("a"));
    assert!(p.matches("ab"));
}

#[test]
fn empty_pattern_is_refused() {
    assert!(Pattern::from_str("").is_err());
}

#[test]
fn default_pattern_matches_everything() {
    let p: Pattern = Default::default();
    assert!(p.matches(""));
    assert!(p.matches("host"));
}

#[test]
fn list_first_match_decides() {
    let l = PatternList::from_str("!web3,web*").unwrap();
    assert!(!l.matches("web3"));
    assert!(l.matches("web1"));
    assert!(!l.matches("db1"));
}

#[test]
fn list_negative_only_excludes() {
    let l = PatternList::from_str("!*").unwrap();
    assert!(!l.matches("anything"));
}

#[test]
fn list_entries_are_trimmed() {
    let l = PatternList::from_str("\tweb*\t").unwrap();
    assert!(l.matches("web1"));
}

#[test]
fn list_with_empty_entry_is_refused() {
    assert!(PatternList::from_str("").is_err());
    assert!(PatternList::from_str("a,,b").is_err());
    assert!(PatternList::from_str("!").is_err());
}

#[test]
fn default_list_includes_everything() {
    let l: PatternList = Default::default();
    assert!(l.matches("any.host"));
    assert!(l.matches(""));
}

#[test]
fn clone_keeps_the_pattern() {
    let p = pat("web?");
    let q = p.clone();
    assert!(q.matches("web1"));
    assert!(!q.matches("web12"));
}
