use scaffolder::replace_all_str;
use scaffolder::rewrite_manifest;

#[test]
fn placeholder_is_replaced_with_project_name() {
    let manifest = "[package]\nname = \"fantasy-craft-default-template\"\nedition = \"2021\"\n";
    let rewritten = rewrite_manifest(manifest, "MyGame");
    assert_eq!(rewritten, "[package]\nname = \"MyGame\"\nedition = \"2021\"\n");
}

#[test]
fn exact_placeholder_becomes_exact_field() {
    assert_eq!(
        rewrite_manifest("name = \"fantasy-craft-default-template\"", "demo"),
        "name = \"demo\""
    );
}

#[test]
fn absent_placeholder_leaves_manifest_unchanged() {
    let manifest = "[package]\nname = \"something-else\"\n";
    assert_eq!(rewrite_manifest(manifest, "MyGame"), manifest);
}

#[test]
fn empty_manifest_stays_empty() {
    assert_eq!(rewrite_manifest("", "MyGame"), "");
}

#[test]
fn every_occurrence_is_replaced() {
    let manifest = "name = \"fantasy-craft-default-template\"\nname = \"fantasy-craft-default-template\"\n";
    assert_eq!(rewrite_manifest(manifest, "x"), "name = \"x\"\nname = \"x\"\n");
}

#[test]
fn replacement_scans_left_to_right() {
    assert_eq!(replace_all_str("aaa", "aa", "b"), "ba");
    assert_eq!(replace_all_str("abcabc", "abc", "x"), "xx");
    assert_eq!(replace_all_str("abc", "z", "x"), "abc");
}

#[test]
fn replaced_text_is_not_rescanned() {
    // the replacement may itself contain the pattern without looping
    assert_eq!(replace_all_str("ab", "ab", "ab!"), "ab!");
}
