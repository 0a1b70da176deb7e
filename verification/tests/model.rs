use crate_tally::model::{null_as_default, DependencyKind, Feature};
use crate_tally::text::{has_char, same_text, to_decimal};

#[test]
fn feature_with_a_slash_names_a_dependency() {
    let feature = Feature::parse("serde/derive");
    assert_eq!(feature, Feature::Dependency("serde".to_string(), "derive".to_string()));
    assert_eq!(feature.to_string(), "serde/derive");
}

#[test]
fn feature_without_a_slash_is_current() {
    let feature = Feature::parse("default");
    assert_eq!(feature, Feature::Current("default".to_string()));
    assert_eq!(feature.to_string(), "default");
}

#[test]
fn feature_splits_at_the_first_slash() {
    assert_eq!(
        Feature::parse("a/b/c"),
        Feature::Dependency("a".to_string(), "b/c".to_string())
    );
    assert_eq!(Feature::parse("/x"), Feature::Dependency(String::new(), "x".to_string()));
    assert_eq!(Feature::parse("x/"), Feature::Dependency("x".to_string(), String::new()));
    assert_eq!(Feature::parse(""), Feature::Current(String::new()));
    assert_eq!(
        Feature::parse("dép/fonction"),
        Feature::Dependency("dép".to_string(), "fonction".to_string())
    );
}

#[test]
fn feature_text_round_trips() {
    for text in ["serde/derive", "default", "a/b/c", "", "/", "x/", "/x", "ünï/cödé"] {
        assert_eq!(Feature::parse(text).to_string(), text);
    }
}

#[test]
fn kind_defaults_to_normal() {
    assert_eq!(DependencyKind::default(), DependencyKind::Normal);
    assert_eq!(null_as_default(None), DependencyKind::Normal);
    assert_eq!(null_as_default(Some(DependencyKind::Dev)), DependencyKind::Dev);
    assert_eq!(DependencyKind::from_record(None), Some(DependencyKind::Normal));
}

#[test]
fn kind_tags() {
    assert_eq!(DependencyKind::Normal.to_string(), "normal");
    assert_eq!(DependencyKind::Build.to_string(), "build");
    assert_eq!(DependencyKind::Dev.to_string(), "dev");
    assert_eq!(DependencyKind::from_tag("normal"), Some(DependencyKind::Normal));
    assert_eq!(DependencyKind::from_tag("build"), Some(DependencyKind::Build));
    assert_eq!(DependencyKind::from_tag("dev"), Some(DependencyKind::Dev));
    assert_eq!(DependencyKind::from_tag("Dev"), None);
    assert_eq!(DependencyKind::from_tag(""), None);
    assert_eq!(DependencyKind::from_record(Some("build")), Some(DependencyKind::Build));
    assert_eq!(DependencyKind::from_record(Some("test")), None);
}

#[test]
fn texts_compare_by_their_characters() {
    assert!(same_text("abc", "abc"));
    assert!(!same_text("abc", "abd"));
    assert!(!same_text("abc", "ab"));
    assert!(same_text("", ""));
    assert!(has_char("a?b", '?'));
    assert!(!has_char("ab", '?'));
}

#[test]
fn numbers_in_decimal() {
    assert_eq!(to_decimal(0), "0");
    assert_eq!(to_decimal(7), "7");
    assert_eq!(to_decimal(10), "10");
    assert_eq!(to_decimal(1234567890), "1234567890");
    assert_eq!(to_decimal(u64::MAX), "18446744073709551615");
}
