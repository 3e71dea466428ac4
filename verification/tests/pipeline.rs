use soar_metadata::models::RemotePackage;
use soar_metadata::raw::{RawField, RawRecord, RawValue};
use soar_metadata::repository::PackageRepository;

fn record(pkg_id: &str, name: &str, maintainer: &str, provide: &str) -> RawRecord {
    let s = |v: &str| RawValue::Str(v.to_string());
    RawRecord {
        fields: vec![
            RawField { key: "pkg_id".to_string(), value: s(pkg_id) },
            RawField { key: "pkg_name".to_string(), value: s(name) },
            RawField { key: "description".to_string(), value: s("desc") },
            RawField { key: "version".to_string(), value: s("1.0") },
            RawField { key: "download_url".to_string(), value: s("https://x/y") },
            RawField {
                key: "maintainer".to_string(),
                value: RawValue::List(vec![maintainer.to_string()]),
            },
            RawField {
                key: "provides".to_string(),
                value: RawValue::List(vec![provide.to_string()]),
            },
        ],
    }
}

#[test]
fn raw_feed_flows_into_a_deduplicated_store() {
    let raws = vec![
        record("id.a", "a", "Jane Doe (jane@example.com)", "a"),
        record("id.b", "b", "Jane Doe (jane@example.com)", "b==real"),
        record("id.a", "a", "Someone Else (other@example.com)", "a"),
    ];
    let mut batch: Vec<RemotePackage> = Vec::new();
    for raw in &raws {
        batch.push(RemotePackage::from_raw(raw).unwrap());
    }
    let mut store = PackageRepository::new("feed".to_string());
    store.import_packages(&batch, "etag-0");

    // The third record repeats the first natural key: it adds no row, no
    // maintainer and no link.
    assert_eq!(store.packages.len(), 2);
    assert_eq!(store.maintainers.len(), 1);
    assert_eq!(store.links.len(), 2);
    assert_eq!(store.repo.as_ref().unwrap().etag, "etag-0");
    assert_eq!(store.packages[0].provides.len(), 1);
    assert_eq!(store.packages[0].provides[0].target, None);
    assert_eq!(store.packages[1].provides[0].name, "b");
    assert_eq!(store.packages[1].provides[0].target, Some("real".to_string()));
}
