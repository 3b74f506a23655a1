use nuget::errors::Error;
use nuget::manifest::get_deps;
use nuget::manifest::Dependency;
use nuget::manifest::MetaValue;

fn table(entries: Vec<(&str, MetaValue)>) -> MetaValue {
    MetaValue::Table(entries.into_iter().map(|(k, v)| (k.to_string(), v)).collect())
}

#[test]
fn url_is_the_registry_template() {
    let d = Dependency::new("Acme.Widgets".to_string(), "1.2.3".to_string());
    assert_eq!(d.url(), "https://www.nuget.org/api/v2/package/Acme.Widgets/1.2.3");
}

#[test]
fn missing_metadata_is_malformed() {
    let r = get_deps(None);
    assert!(matches!(r, Err(Error::MalformedManifest)));
}

#[test]
fn metadata_not_a_table_is_malformed() {
    let r = get_deps(Some(MetaValue::Str("oops".to_string())));
    assert!(matches!(r, Err(Error::MalformedManifest)));
}

#[test]
fn metadata_without_dependency_table_is_malformed() {
    let meta = table(vec![("something_else", MetaValue::Str("1".to_string()))]);
    let r = get_deps(Some(meta));
    assert!(matches!(r, Err(Error::MalformedManifest)));
}

#[test]
fn dependency_entry_not_a_table_is_malformed() {
    let meta = table(vec![("nuget_dependencies", MetaValue::Str("1".to_string()))]);
    let r = get_deps(Some(meta));
    assert!(matches!(r, Err(Error::MalformedManifest)));
}

#[test]
fn all_string_values_give_one_record_per_entry() {
    let deps = table(vec![
        ("Beta.Lib", MetaValue::Str("2.0".to_string())),
        ("Acme.Widgets", MetaValue::Str("1.2.3".to_string())),
    ]);
    let meta = table(vec![("nuget_dependencies", deps)]);
    let r = get_deps(Some(meta)).unwrap();
    assert_eq!(r.len(), 2);
    assert_eq!(r[0].name, "Beta.Lib");
    assert_eq!(r[0].version, "2.0");
    assert_eq!(r[1].name, "Acme.Widgets");
    assert_eq!(r[1].version, "1.2.3");
}

#[test]
fn entry_order_swapped_still_one_record_per_entry() {
    let deps = table(vec![
        ("Acme.Widgets", MetaValue::Str("1.2.3".to_string())),
        ("Beta.Lib", MetaValue::Str("2.0".to_string())),
    ]);
    let meta = table(vec![("nuget_dependencies", deps)]);
    let r = get_deps(Some(meta)).unwrap();
    assert_eq!(r.len(), 2);
    assert_eq!(r[0].name, "Acme.Widgets");
    assert_eq!(r[1].name, "Beta.Lib");
}

#[test]
fn one_non_string_value_fails_whole_extraction() {
    let deps = table(vec![
        ("Acme.Widgets", MetaValue::Str("1.2.3".to_string())),
        ("Bad.One", MetaValue::Other),
        ("Beta.Lib", MetaValue::Str("2.0".to_string())),
    ]);
    let meta = table(vec![("nuget_dependencies", deps)]);
    let r = get_deps(Some(meta));
    assert!(matches!(r, Err(Error::MalformedManifest)));
}

#[test]
fn nested_non_string_table_value_is_malformed() {
    let deps = table(vec![("Acme.Widgets", table(vec![]))]);
    let meta = table(vec![("nuget_dependencies", deps)]);
    let r = get_deps(Some(meta));
    assert!(matches!(r, Err(Error::MalformedManifest)));
}

#[test]
fn empty_dependency_table_gives_empty_list() {
    let meta = table(vec![("nuget_dependencies", table(vec![]))]);
    let r = get_deps(Some(meta)).unwrap();
    assert_eq!(r.len(), 0);
}

#[test]
fn duplicate_names_are_passed_through() {
    let deps = table(vec![
        ("Acme.Widgets", MetaValue::Str("1.0".to_string())),
        ("Acme.Widgets", MetaValue::Str("2.0".to_string())),
    ]);
    let meta = table(vec![("nuget_dependencies", deps)]);
    let r = get_deps(Some(meta)).unwrap();
    assert_eq!(r.len(), 2);
    assert_eq!(r[0].version, "1.0");
    assert_eq!(r[1].version, "2.0");
}
