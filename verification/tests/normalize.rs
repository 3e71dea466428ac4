use soar_metadata::deserializers::{
    empty_is_none, flexible_bool, normalize_resource, optional_u64, required_string, string_list,
    MalformedKind,
};
use soar_metadata::models::RemotePackage;
use soar_metadata::raw::{RawField, RawRecord, RawValue};

fn s(v: &str) -> RawValue {
    RawValue::Str(v.to_string())
}

fn field(k: &str, v: RawValue) -> RawField {
    RawField { key: k.to_string(), value: v }
}

fn base_record() -> Vec<RawField> {
    vec![
        field("pkg_id", s("github.com.example.tool")),
        field("pkg_name", s("tool")),
        field("description", s("a tool")),
        field("version", s("1.2.3")),
        field("download_url", s("https://example.com/tool")),
    ]
}

#[test]
fn blank_optional_strings_become_absent() {
    assert_eq!(empty_is_none(Some(&s(""))), Ok(None));
    assert_eq!(empty_is_none(Some(&s("   \t\n"))), Ok(None));
    assert_eq!(empty_is_none(Some(&s("\u{a0}\u{2003}\u{3000}"))), Ok(None));
    assert_eq!(empty_is_none(Some(&RawValue::Null)), Ok(None));
    assert_eq!(empty_is_none(None), Ok(None));
    assert_eq!(empty_is_none(Some(&s(" x "))), Ok(Some(" x ".to_string())));
    assert_eq!(empty_is_none(Some(&s("\u{2713}"))), Ok(Some("\u{2713}".to_string())));
    assert_eq!(empty_is_none(Some(&RawValue::Num(3))), Err(MalformedKind::WrongType));
}

#[test]
fn whitespace_set_matches_what_trim_strips() {
    let ws = [
        '\t', '\n', '\u{b}', '\u{c}', '\r', ' ', '\u{85}', '\u{a0}', '\u{1680}', '\u{2000}',
        '\u{2005}', '\u{200a}', '\u{2028}', '\u{2029}', '\u{202f}', '\u{205f}', '\u{3000}',
    ];
    for c in ws {
        let st = c.to_string();
        assert!(st.trim().is_empty(), "{c:?}");
        assert_eq!(empty_is_none(Some(&RawValue::Str(st))), Ok(None), "{c:?}");
    }
    // A zero-width space has no White_Space property: trim keeps it, and
    // so does the coercion.
    let zw = "\u{200b}".to_string();
    assert!(!zw.trim().is_empty());
    assert_eq!(empty_is_none(Some(&RawValue::Str(zw.clone()))), Ok(Some(zw)));
}

#[test]
fn boolean_words_coerce_case_insensitively() {
    for word in ["true", "TRUE", "True", "yes", "YES", "1"] {
        assert_eq!(flexible_bool(Some(&s(word))), Ok(Some(true)), "{word}");
    }
    for word in ["false", "FALSE", "no", "No", "0"] {
        assert_eq!(flexible_bool(Some(&s(word))), Ok(Some(false)), "{word}");
    }
    assert_eq!(flexible_bool(Some(&RawValue::Bool(true))), Ok(Some(true)));
    assert_eq!(flexible_bool(Some(&RawValue::Bool(false))), Ok(Some(false)));
    assert_eq!(flexible_bool(Some(&s(""))), Ok(None));
    assert_eq!(flexible_bool(None), Ok(None));
    assert_eq!(flexible_bool(Some(&RawValue::Null)), Ok(None));
}

#[test]
fn other_boolean_strings_are_malformed() {
    assert_eq!(
        flexible_bool(Some(&s("maybe"))),
        Err(MalformedKind::BadBoolean("maybe".to_string()))
    );
    assert_eq!(
        flexible_bool(Some(&s("true "))),
        Err(MalformedKind::BadBoolean("true ".to_string()))
    );
    assert_eq!(flexible_bool(Some(&RawValue::Num(1))), Err(MalformedKind::WrongType));
}

#[test]
fn numeric_coercion_accepts_numbers_and_numeric_strings() {
    assert_eq!(optional_u64(Some(&RawValue::Num(7))), Ok(Some(7)));
    assert_eq!(optional_u64(Some(&s("42"))), Ok(Some(42)));
    assert_eq!(optional_u64(Some(&s("+5"))), Ok(Some(5)));
    assert_eq!(optional_u64(Some(&s("+0"))), Ok(Some(0)));
    assert_eq!(optional_u64(Some(&s("18446744073709551615"))), Ok(Some(u64::MAX)));
    assert_eq!(optional_u64(Some(&s("  "))), Ok(None));
    assert_eq!(optional_u64(Some(&s("-5"))), Ok(None));
    assert_eq!(optional_u64(None), Ok(None));
    assert_eq!(optional_u64(Some(&RawValue::Null)), Ok(None));
}

#[test]
fn non_numeric_strings_are_malformed() {
    assert_eq!(
        optional_u64(Some(&s("abc"))),
        Err(MalformedKind::BadNumber("abc".to_string()))
    );
    assert_eq!(
        optional_u64(Some(&s("12x"))),
        Err(MalformedKind::BadNumber("12x".to_string()))
    );
    assert_eq!(
        optional_u64(Some(&s("18446744073709551616"))),
        Err(MalformedKind::BadNumber("18446744073709551616".to_string()))
    );
    assert_eq!(optional_u64(Some(&s("+"))), Err(MalformedKind::BadNumber("+".to_string())));
    assert_eq!(optional_u64(Some(&s("++1"))), Err(MalformedKind::BadNumber("++1".to_string())));
    assert_eq!(optional_u64(Some(&RawValue::Bool(true))), Err(MalformedKind::WrongType));
}

#[test]
fn resource_takes_bare_string_or_url_member() {
    assert_eq!(normalize_resource(Some(&s("https://a/b.png"))), Some("https://a/b.png".to_string()));
    assert_eq!(normalize_resource(Some(&s("  "))), None);
    assert_eq!(
        normalize_resource(Some(&RawValue::Object {
            url: Some("https://a/i.png".to_string()),
            text: "{}".to_string(),
        })),
        Some("https://a/i.png".to_string())
    );
    assert_eq!(
        normalize_resource(Some(&RawValue::Object { url: None, text: "{}".to_string() })),
        None
    );
    assert_eq!(
        normalize_resource(Some(&RawValue::Object {
            url: Some("   ".to_string()),
            text: "{}".to_string(),
        })),
        None
    );
    assert_eq!(normalize_resource(Some(&RawValue::Null)), None);
    assert_eq!(normalize_resource(Some(&RawValue::Num(1))), None);
    assert_eq!(normalize_resource(None), None);
}

#[test]
fn required_string_rejects_absence_and_wrong_type() {
    assert_eq!(required_string(Some(&s("x"))), Ok("x".to_string()));
    assert_eq!(required_string(Some(&s(""))), Ok("".to_string()));
    assert_eq!(required_string(None), Err(MalformedKind::MissingField));
    assert_eq!(required_string(Some(&RawValue::Null)), Err(MalformedKind::MissingField));
    assert_eq!(required_string(Some(&RawValue::Num(1))), Err(MalformedKind::WrongType));
}

#[test]
fn collections_default_to_empty() {
    assert_eq!(string_list(None), Ok(vec![]));
    assert_eq!(string_list(Some(&RawValue::Null)), Ok(vec![]));
    assert_eq!(
        string_list(Some(&RawValue::List(vec!["a".to_string(), "b".to_string()]))),
        Ok(vec!["a".to_string(), "b".to_string()])
    );
    assert_eq!(string_list(Some(&s("a"))), Err(MalformedKind::WrongType));
}

#[test]
fn from_raw_normalizes_a_minimal_record() {
    let raw = RawRecord { fields: base_record() };
    let p = RemotePackage::from_raw(&raw).unwrap();
    assert_eq!(p.pkg_id, "github.com.example.tool");
    assert_eq!(p.pkg_name, "tool");
    assert_eq!(p.version, "1.2.3");
    assert_eq!(p.description, "a tool");
    assert_eq!(p.download_url, "https://example.com/tool");
    assert_eq!(p.disabled, None);
    assert_eq!(p.rank, None);
    assert_eq!(p.licenses, Vec::<String>::new());
    assert_eq!(p.maintainers, Vec::<String>::new());
    assert_eq!(p.provides, Vec::<String>::new());
    assert_eq!(p.disabled_reason, "null");
    assert_eq!(p.icon, None);
}

#[test]
fn from_raw_applies_aliases_and_coercions() {
    let mut fields = base_record();
    fields.push(field("_disabled", s("yes")));
    fields.push(field("license", RawValue::List(vec!["MIT".to_string()])));
    fields.push(field("rank", s("5")));
    fields.push(field("pkg", s("   ")));
    fields.push(field("build_gha", s("run-1")));
    fields.push(field(
        "icon",
        RawValue::Object { url: Some("https://a/i.png".to_string()), text: "{}".to_string() },
    ));
    fields.push(field("_disabled_reason", s("broken upstream")));
    let raw = RawRecord { fields };
    let p = RemotePackage::from_raw(&raw).unwrap();
    assert_eq!(p.disabled, Some(true));
    assert_eq!(p.licenses, vec!["MIT".to_string()]);
    assert_eq!(p.rank, Some(5));
    assert_eq!(p.pkg, None);
    assert_eq!(p.build_action, Some("run-1".to_string()));
    assert_eq!(p.icon, Some("https://a/i.png".to_string()));
    assert_eq!(p.disabled_reason, "\"broken upstream\"");
}

#[test]
fn from_raw_primary_name_wins_over_alias() {
    let mut fields = base_record();
    fields.push(field("licenses", RawValue::List(vec!["Apache-2.0".to_string()])));
    fields.push(field("license", RawValue::List(vec!["MIT".to_string()])));
    let raw = RawRecord { fields };
    let p = RemotePackage::from_raw(&raw).unwrap();
    assert_eq!(p.licenses, vec!["Apache-2.0".to_string()]);
}

#[test]
fn from_raw_reports_missing_required_field() {
    let mut fields = base_record();
    fields.retain(|f| f.key != "pkg_id");
    let raw = RawRecord { fields };
    let e = RemotePackage::from_raw(&raw).unwrap_err();
    assert_eq!(e.field, "pkg_id");
    assert_eq!(e.kind, MalformedKind::MissingField);
}

#[test]
fn from_raw_reports_bad_boolean_with_value() {
    let mut fields = base_record();
    fields.push(field("disabled", s("perhaps")));
    let raw = RawRecord { fields };
    let e = RemotePackage::from_raw(&raw).unwrap_err();
    assert_eq!(e.field, "disabled");
    assert_eq!(e.kind, MalformedKind::BadBoolean("perhaps".to_string()));
}

#[test]
fn from_raw_numeric_and_flag_fields() {
    let mut fields = base_record();
    fields.push(field("rank", RawValue::Num(2)));
    fields.push(field("size_raw", s("123")));
    fields.push(field("ghcr_size_raw", s("+7")));
    fields.push(field("download_count", RawValue::Num(9)));
    fields.push(field("download_count_week", s("  ")));
    fields.push(field("deprecated", s("no")));
    fields.push(field("portable", RawValue::Bool(true)));
    fields.push(field("soar_syms", s("")));
    let raw = RawRecord { fields };
    let p = RemotePackage::from_raw(&raw).unwrap();
    assert_eq!(p.rank, Some(2));
    assert_eq!(p.size_raw, Some(123));
    assert_eq!(p.ghcr_size_raw, Some(7));
    assert_eq!(p.download_count, Some(9));
    assert_eq!(p.download_count_week, None);
    assert_eq!(p.download_count_month, None);
    assert_eq!(p.deprecated, Some(false));
    assert_eq!(p.portable, Some(true));
    assert_eq!(p.soar_syms, None);
    assert_eq!(p.recurse_provides, None);
    assert_eq!(p.desktop_integration, None);
}

#[test]
fn from_raw_passes_structured_disabled_reason_through() {
    let mut fields = base_record();
    fields.push(field(
        "disabled_reason",
        RawValue::Object { url: None, text: "{\"code\":3}".to_string() },
    ));
    let raw = RawRecord { fields };
    let p = RemotePackage::from_raw(&raw).unwrap();
    assert_eq!(p.disabled_reason, "{\"code\":3}");

    let mut fields = base_record();
    fields.push(field("disabled_reason", RawValue::List(vec!["a".to_string()])));
    let raw = RawRecord { fields };
    let p = RemotePackage::from_raw(&raw).unwrap();
    assert_eq!(p.disabled_reason, "[\"a\"]");
}

#[test]
fn from_raw_first_binding_of_a_key_wins() {
    let mut fields = base_record();
    fields.push(field("rank", s("3")));
    fields.push(field("rank", s("9")));
    let raw = RawRecord { fields };
    let p = RemotePackage::from_raw(&raw).unwrap();
    assert_eq!(p.rank, Some(3));
}
