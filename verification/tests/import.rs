use soar_metadata::models::RemotePackage;
use soar_metadata::repository::{InsertOutcome, PackageRepository};

fn pkg(id: &str, name: &str, version: &str, maintainers: &[&str]) -> RemotePackage {
    RemotePackage {
        pkg_id: id.to_string(),
        pkg_name: name.to_string(),
        version: version.to_string(),
        description: format!("{name} description"),
        download_url: format!("https://example.com/{name}"),
        disabled_reason: "null".to_string(),
        maintainers: maintainers.iter().map(|m| m.to_string()).collect(),
        ..Default::default()
    }
}

#[test]
fn repository_first_write_wins() {
    let mut store = PackageRepository::new("repo".to_string());
    store.get_or_create_repo("repo", "etag-one");
    store.get_or_create_repo("repo", "etag-two");
    let row = store.repo.as_ref().unwrap();
    assert_eq!(row.name, "repo");
    assert_eq!(row.etag, "etag-one");
}

#[test]
fn maintainer_string_resolves_name_and_contact() {
    let store = PackageRepository::new("repo".to_string());
    let r = store.extract_name_and_contact("Jane Doe (jane@example.com)");
    assert_eq!(r, Some(("Jane Doe".to_string(), "jane@example.com".to_string())));
    assert_eq!(store.extract_name_and_contact("Jane Doe"), None);
    assert_eq!(store.extract_name_and_contact("(jane@example.com)"), None);
    assert_eq!(store.extract_name_and_contact("Jane (Doe) (j@e)"), None);
    assert_eq!(store.extract_name_and_contact("Jane ()"), None);
    assert_eq!(store.extract_name_and_contact("Jane (j@e) extra"), None);
    assert_eq!(store.extract_name_and_contact("Jane (j(e)"), None);
}

#[test]
fn malformed_maintainer_is_dropped_without_link() {
    let mut store = PackageRepository::new("repo".to_string());
    let batch = vec![pkg("a", "a", "1", &["Jane Doe"])];
    store.import_packages(&batch, "e");
    assert_eq!(store.packages.len(), 1);
    assert_eq!(store.maintainers.len(), 0);
    assert_eq!(store.links.len(), 0);
}

#[test]
fn shared_contact_yields_one_maintainer_two_links() {
    let mut store = PackageRepository::new("repo".to_string());
    let batch = vec![
        pkg("a", "a", "1", &["Jane Doe (jane@example.com)"]),
        pkg("b", "b", "1", &["Jane D (jane@example.com)"]),
    ];
    store.import_packages(&batch, "e");
    assert_eq!(store.maintainers.len(), 1);
    assert_eq!(store.maintainers[0].name, "Jane Doe");
    assert_eq!(store.maintainers[0].contact, "jane@example.com");
    assert_eq!(store.links.len(), 2);
    assert_ne!(store.links[0].package_id, store.links[1].package_id);
    assert_eq!(store.links[0].maintainer_id, store.links[1].maintainer_id);
}

#[test]
fn duplicate_link_within_one_package_is_dropped() {
    let mut store = PackageRepository::new("repo".to_string());
    let batch = vec![pkg("a", "a", "1", &["A (c@d)", "B (c@d)"])];
    store.import_packages(&batch, "e");
    assert_eq!(store.maintainers.len(), 1);
    assert_eq!(store.maintainers[0].name, "A");
    assert_eq!(store.links.len(), 1);
}

#[test]
fn reimporting_the_same_batch_changes_nothing() {
    let mut store = PackageRepository::new("repo".to_string());
    let batch = vec![
        pkg("a", "a", "1", &["Jane Doe (jane@example.com)"]),
        pkg("b", "b", "2", &["Bob (bob@example.com)", "Jane Doe (jane@example.com)"]),
    ];
    store.import_packages(&batch, "e");
    let once = store.clone();
    store.import_packages(&batch, "e");
    assert_eq!(store, once);
    assert_eq!(store.packages.len(), 2);
    assert_eq!(store.maintainers.len(), 2);
    assert_eq!(store.links.len(), 3);
}

#[test]
fn duplicate_natural_key_leaves_existing_row_and_links_alone() {
    let mut store = PackageRepository::new("repo".to_string());
    store.import_packages(&vec![pkg("a", "a", "1", &["M One (one@x)"])], "e");
    let before = store.clone();
    let mut dup = pkg("a", "a", "1", &["M Two (two@x)"]);
    dup.description = "changed".to_string();
    store.import_packages(&vec![dup], "e");
    assert_eq!(store, before);
    assert_eq!(store.maintainers.len(), 1);
    assert_eq!(store.maintainers[0].contact, "one@x");
    assert_eq!(store.links.len(), 1);
}

#[test]
fn insert_outcome_distinguishes_fresh_and_conflicting() {
    let mut store = PackageRepository::new("repo".to_string());
    let p = pkg("a", "a", "1", &[]);
    assert!(matches!(store.insert_package(&p), InsertOutcome::Inserted(1)));
    assert!(matches!(store.insert_package(&p), InsertOutcome::AlreadyExists));
    let q = pkg("a", "a", "2", &[]);
    assert!(matches!(store.insert_package(&q), InsertOutcome::Inserted(2)));
}

#[test]
fn inserted_package_carries_derived_provides() {
    let mut store = PackageRepository::new("repo".to_string());
    let mut p = pkg("a", "tool", "1", &[]);
    p.provides = vec!["tool".to_string(), "alt==real".to_string(), "junk".to_string()];
    store.insert_package(&p);
    assert_eq!(store.packages.len(), 1);
    let provides = &store.packages[0].provides;
    assert_eq!(provides.len(), 2);
    assert_eq!(provides[0].name, "tool");
    assert_eq!(provides[1].name, "alt");
    assert_eq!(provides[1].target, Some("real".to_string()));
}

#[test]
fn row_ids_are_one_based_positions() {
    let mut store = PackageRepository::new("repo".to_string());
    let batch = vec![pkg("a", "a", "1", &[]), pkg("b", "b", "1", &[]), pkg("c", "c", "1", &[])];
    store.import_packages(&batch, "e");
    assert_eq!(store.packages[0].id, 1);
    assert_eq!(store.packages[1].id, 2);
    assert_eq!(store.packages[2].id, 3);
}
