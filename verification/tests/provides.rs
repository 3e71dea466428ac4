use soar_metadata::models::{derive_provides, PackageProvide, ProvideStrategy};

#[test]
fn double_equals_keeps_both() {
    let p = PackageProvide::from_string("foo==bar");
    assert_eq!(p.name, "foo");
    assert_eq!(p.target, Some("bar".to_string()));
    assert!(matches!(p.strategy, Some(ProvideStrategy::KeepBoth)));
}

#[test]
fn arrow_keeps_target_only() {
    let p = PackageProvide::from_string("foo=>bar");
    assert_eq!(p.name, "foo");
    assert_eq!(p.target, Some("bar".to_string()));
    assert!(matches!(p.strategy, Some(ProvideStrategy::KeepTargetOnly)));
}

#[test]
fn colon_declares_alias() {
    let p = PackageProvide::from_string("foo:bar");
    assert_eq!(p.name, "foo");
    assert_eq!(p.target, Some("bar".to_string()));
    assert!(matches!(p.strategy, Some(ProvideStrategy::Alias)));
}

#[test]
fn separator_precedence_and_first_occurrence() {
    let p = PackageProvide::from_string("a==b==c");
    assert_eq!(p.name, "a");
    assert_eq!(p.target, Some("b==c".to_string()));
    assert!(matches!(p.strategy, Some(ProvideStrategy::KeepBoth)));

    let p = PackageProvide::from_string("x==y:z");
    assert_eq!(p.name, "x");
    assert_eq!(p.target, Some("y:z".to_string()));
    assert!(matches!(p.strategy, Some(ProvideStrategy::KeepBoth)));

    let p = PackageProvide::from_string("a:b=>c");
    assert_eq!(p.name, "a:b");
    assert_eq!(p.target, Some("c".to_string()));
    assert!(matches!(p.strategy, Some(ProvideStrategy::KeepTargetOnly)));
}

#[test]
fn bare_string_is_name_only() {
    let p = PackageProvide::from_string("foo");
    assert_eq!(p.name, "foo");
    assert_eq!(p.target, None);
    assert!(p.strategy.is_none());
}

#[test]
fn own_name_is_kept_without_separator() {
    let r = derive_provides(&vec!["tool".to_string()], "tool");
    assert_eq!(r.len(), 1);
    assert_eq!(r[0].name, "tool");
    assert_eq!(r[0].target, None);
    assert!(r[0].strategy.is_none());
}

#[test]
fn unusable_provide_strings_are_dropped() {
    let r = derive_provides(
        &vec!["unrelated".to_string(), "other==x".to_string(), "tool".to_string()],
        "tool",
    );
    assert_eq!(r.len(), 2);
    assert_eq!(r[0].name, "other");
    assert_eq!(r[1].name, "tool");
}
