use yandex_music_mod::text::{apply_script, apply_step, replace_text, EditStep};

fn replace(from: &str, to: &str) -> EditStep {
    EditStep::Replace { from: from.to_string(), to: to.to_string() }
}

#[test]
fn replace_takes_matches_from_the_left_without_overlap() {
    assert_eq!(replace_text("aaaa", "aa", "b"), "bb");
    assert_eq!(replace_text("aaa", "aa", "b"), "ba");
    assert_eq!(replace_text("abcabc", "bc", "X"), "aXaX");
    assert_eq!(replace_text("abc", "abcd", "X"), "abc");
    assert_eq!(replace_text("", "a", "b"), "");
}

#[test]
fn replace_with_empty_pattern_changes_nothing() {
    assert_eq!(replace_text("abc", "", "X"), "abc");
    assert_eq!(replace_text("", "", "X"), "");
}

#[test]
fn replace_is_literal_not_a_pattern() {
    assert_eq!(replace_text("a.c abc", "a.c", "X"), "X abc");
    assert_eq!(replace_text("createWindow)();", "createWindow)();", "ok"), "ok");
}

#[test]
fn replace_counts_characters_not_bytes() {
    assert_eq!(replace_text("Яндекс Музыка", "Музыка", "Mod"), "Яндекс Mod");
}

#[test]
fn steps_prepend_and_append() {
    assert_eq!(apply_step("body".to_string(), &EditStep::Prepend("head ".to_string())), "head body");
    assert_eq!(apply_step("body".to_string(), &EditStep::Append(" tail".to_string())), "body tail");
    assert_eq!(apply_step("body".to_string(), &replace("o", "0")), "b0dy");
}

#[test]
fn script_runs_steps_in_order() {
    let steps = vec![
        replace("a", "b"),
        replace("b", "c"),
        EditStep::Prepend("a".to_string()),
        EditStep::Append("b".to_string()),
    ];
    assert_eq!(apply_script("ab", &steps), "accb");
    assert_eq!(apply_script("ab", &Vec::new()), "ab");
}

#[test]
fn replacements_settle_but_appends_repeat() {
    let replacements = vec![replace("false", "true")];
    let once = apply_script("debug: false", &replacements);
    let twice = apply_script(&once, &replacements);
    assert_eq!(once, "debug: true");
    assert_eq!(twice, once);

    let append = vec![EditStep::Append("\n// block\n".to_string())];
    let once = apply_script("code", &append);
    let twice = apply_script(&once, &append);
    assert_eq!(once, "code\n// block\n");
    assert_eq!(twice, "code\n// block\n\n// block\n");
    assert_ne!(twice, once);
}
