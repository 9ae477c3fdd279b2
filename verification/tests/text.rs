use audiotags::text::{join, same_text, split};

fn owned(parts: &[&str]) -> Vec<String> {
    parts.iter().map(|part| part.to_string()).collect()
}

#[test]
fn split_cuts_at_every_separator() {
    assert_eq!(split("Some Guy;Another Dude", ";"), owned(&["Some Guy", "Another Dude"]));
    assert_eq!(split("a;b;c", ";"), owned(&["a", "b", "c"]));
    assert_eq!(split("a, b, c", ", "), owned(&["a", "b", "c"]));
}

#[test]
fn split_keeps_empty_values() {
    assert_eq!(split("", ";"), owned(&[""]));
    assert_eq!(split(";", ";"), owned(&["", ""]));
    assert_eq!(split("a;;b", ";"), owned(&["a", "", "b"]));
    assert_eq!(split(";a;", ";"), owned(&["", "a", ""]));
}

#[test]
fn split_without_separator_is_one_value() {
    assert_eq!(split("Solo Artist", ";"), owned(&["Solo Artist"]));
    assert_eq!(split("ab", "abc"), owned(&["ab"]));
    assert_eq!(split("a;b", ""), owned(&["a;b"]));
}

#[test]
fn split_takes_the_leftmost_occurrence() {
    assert_eq!(split("aaa", "aa"), owned(&["", "a"]));
    assert_eq!(split("aaaa", "aa"), owned(&["", "", ""]));
    assert_eq!(split("xabab", "ab"), owned(&["x", "", ""]));
}

#[test]
fn split_counts_characters_not_bytes() {
    assert_eq!(split("Björk、Sigur Rós", "、"), owned(&["Björk", "Sigur Rós"]));
    assert_eq!(split("é;ü", ";"), owned(&["é", "ü"]));
}

#[test]
fn split_agrees_with_the_standard_split() {
    let texts = ["", "a", "a;b", ";;", "a; b;c ;", "abcabc", "aaa", "x--y---z"];
    let seps = [";", "; ", "abc", "aa", "--", "b"];
    for text in texts {
        for sep in seps {
            let expected: Vec<String> = text.split(sep).map(|part| part.to_string()).collect();
            assert_eq!(split(text, sep), expected, "{:?} by {:?}", text, sep);
        }
    }
}

#[test]
fn join_puts_the_separator_between_values() {
    assert_eq!(join(&owned(&["a", "b", "c"]), ";"), "a;b;c");
    assert_eq!(join(&owned(&["Some Guy", "Another Dude"]), " & "), "Some Guy & Another Dude");
    assert_eq!(join(&owned(&["only"]), ";"), "only");
    assert_eq!(join(&owned(&[]), ";"), "");
    assert_eq!(join(&owned(&["", ""]), ";"), ";");
    assert_eq!(join(&owned(&["a", "b"]), ""), "ab");
}

#[test]
fn join_undoes_split() {
    let texts = ["", "a", "a;b", ";;", "a; b;c ;", "abcabc", "aaa", "x--y---z", "Björk;Múm"];
    let seps = [";", "; ", "abc", "aa", "--", "b", ""];
    for text in texts {
        for sep in seps {
            assert_eq!(join(&split(text, sep), sep), text, "{:?} by {:?}", text, sep);
        }
    }
}

#[test]
fn same_text_compares_characters() {
    assert!(same_text("ogg", "ogg"));
    assert!(same_text("", ""));
    assert!(!same_text("ogg", "og"));
    assert!(!same_text("ogg", "oggs"));
    assert!(!same_text("ogg", "OGG"));
    assert!(!same_text("ogg", "ogh"));
}
