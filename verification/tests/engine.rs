//! Tests of the substitution engine and the transform pipeline.
use bleur::apply::Apply;
use bleur::error::BleurError;
use bleur::store::VariableStore;
use bleur::subst::find_placeholders;
use bleur::subst::replace_all;
use bleur::subst::substitute;
use bleur::subst::Glubtastic;

fn store_of(pairs: &[(&str, &str)]) -> VariableStore {
    let mut s = VariableStore::new();
    for (k, v) in pairs {
        s.insert(k.to_string(), v.to_string());
    }
    s
}

#[test]
fn placeholders_in_scan_order_with_duplicates() {
    let got = find_placeholders("@a@@b@@a@");
    let want: Vec<String> = vec!["a".to_string(), "b".to_string(), "a".to_string()];
    assert_eq!(got, want);
}

#[test]
fn placeholders_need_a_nonempty_name() {
    assert!(find_placeholders("@@").is_empty());
    assert!(find_placeholders("no markers here").is_empty());
    assert!(find_placeholders("@not closed").is_empty());
    assert!(find_placeholders("@bad name@").is_empty());
}

#[test]
fn placeholders_after_a_stray_marker() {
    assert_eq!(find_placeholders("@@x@@"), vec!["x".to_string()]);
}

#[test]
fn globs_matches_find_placeholders() {
    let s = store_of(&[]);
    assert_eq!(
        s.globs("take @one@ and @two_2@"),
        vec!["one".to_string(), "two_2".to_string()]
    );
}

#[test]
fn substitution_replaces_every_occurrence() {
    let s = store_of(&[("name", "Ada"), ("other", "Bob")]);
    let got = substitute("Hello @name@, meet @name@ and @other@.", &s).unwrap();
    assert_eq!(got, "Hello Ada, meet Ada and Bob.");
    assert!(find_placeholders(&got).is_empty());
}

#[test]
fn substitution_of_text_without_placeholders_is_identity() {
    let s = store_of(&[]);
    assert_eq!(substitute("plain text", &s).unwrap(), "plain text");
    assert_eq!(substitute("", &s).unwrap(), "");
}

#[test]
fn substitution_fails_with_first_unresolved_name() {
    let s = store_of(&[("a", "1"), ("b", "2")]);
    let got = substitute("@a@ then @missing@ then @also_missing@ and @b@", &s);
    assert_eq!(got, Err(BleurError::NoSuchVariable("missing".to_string())));
}

#[test]
fn substitution_with_empty_store_names_the_first_reference() {
    let s = store_of(&[]);
    let got = substitute("@x@ and @y@", &s);
    assert_eq!(got, Err(BleurError::NoSuchVariable("x".to_string())));
}

#[test]
fn substituted_values_are_not_rescanned() {
    let s = store_of(&[("a", "@b@"), ("b", "2")]);
    assert_eq!(substitute("@a@", &s).unwrap(), "@b@");
}

#[test]
fn markers_outside_placeholders_survive() {
    let s = store_of(&[("x", "y")]);
    assert_eq!(substitute("@@x@@", &s).unwrap(), "@y@");
}

#[test]
fn store_insert_overwrites() {
    let mut s = VariableStore::new();
    s.insert("k".to_string(), "first".to_string());
    s.insert("k".to_string(), "second".to_string());
    assert_eq!(s.get("k"), Some("second".to_string()));
    assert_eq!(s.get("absent"), None);
    assert!(s.contains("k"));
    assert!(!s.contains("absent"));
}

#[test]
fn uppercase_transform_is_idempotent() {
    let p = Apply::parse("uppercase");
    let once = p.execute("Hello, World_42!");
    assert_eq!(once, "HELLO, WORLD_42!");
    assert_eq!(p.execute(&once), once);
}

#[test]
fn lowercase_transform_is_idempotent() {
    let p = Apply::parse("lowercase");
    let once = p.execute("Hello, World_42!");
    assert_eq!(once, "hello, world_42!");
    assert_eq!(p.execute(&once), once);
}

#[test]
fn empty_transform_spec_is_identity() {
    let p = Apply::parse("");
    assert_eq!(p.execute("MiXeD Case 42"), "MiXeD Case 42");
}

#[test]
fn unknown_transform_names_are_inert() {
    let p = Apply::parse("trim,reverse,nonsense");
    assert_eq!(p.execute("Stays The Same"), "Stays The Same");
}

#[test]
fn transform_names_match_case_insensitively() {
    assert_eq!(Apply::parse("UPPERCASE").execute("abc"), "ABC");
    assert_eq!(Apply::parse("LowerCase").execute("ABC"), "abc");
}

#[test]
fn transforms_fold_left_to_right() {
    assert_eq!(Apply::parse("uppercase,lowercase").execute("MiXeD"), "mixed");
    assert_eq!(Apply::parse("lowercase,uppercase").execute("MiXeD"), "MIXED");
}

#[test]
fn replace_all_replaces_every_occurrence() {
    assert_eq!(replace_all("aXbXc", "X", "--"), "a--b--c");
    assert_eq!(replace_all("nothing", "X", "-"), "nothing");
    assert_eq!(replace_all("", "X", "-"), "");
}

#[test]
fn replace_all_scans_without_overlap() {
    assert_eq!(replace_all("aaa", "aa", "b"), "ba");
}

#[test]
fn replace_all_with_empty_pattern_interleaves() {
    assert_eq!(replace_all("ab", "", "-"), "-a-b-");
    assert_eq!(replace_all("", "", "-"), "-");
}
