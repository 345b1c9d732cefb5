use ota_cli::director::TargetFormat;
use ota_cli::error::Error;
use ota_cli::reposerver::{
    PackageMetadata, RepoTarget, Reposerver, TargetInfo, TargetPackages, TufPackage, TufPackages,
};

const EXAMPLE_PACKAGES: &str = r#"
[foo.1]
format = "binary"
hardware = ["acme-ecu-1"]
url = "https://acme.org/downloads/foo"

[my-branch.1234]
format = "ostree"
hardware = ["qemux86-64"]
path = "/ota/my-branch-01234"
"#;

fn text_field(meta: &toml::Table, key: &str) -> Option<String> {
    meta.get(key).map(|v| v.as_str().expect("string field").to_string())
}

fn packages_from_toml(text: &str) -> TargetPackages {
    let doc: toml::Table = text.parse().expect("parse toml");
    let mut packages = TargetPackages::new();
    for (name, versions) in doc {
        for (version, meta) in versions.as_table().expect("version table") {
            let meta = meta.as_table().expect("metadata table");
            let format = TargetFormat::parse(meta["format"].as_str().expect("format")).expect("format");
            let hardware = meta["hardware"]
                .as_array()
                .expect("hardware")
                .iter()
                .map(|h| h.as_str().expect("hardware id").to_string())
                .collect();
            packages.insert(
                name.clone(),
                version.clone(),
                PackageMetadata { format, hardware, path: text_field(meta, "path"), url: text_field(meta, "url") },
            );
        }
    }
    packages
}

fn meta(path: Option<&str>, url: Option<&str>) -> PackageMetadata {
    PackageMetadata {
        format: TargetFormat::Binary,
        hardware: vec!["hw".to_string()],
        path: path.map(String::from),
        url: url.map(String::from),
    }
}

#[test]
fn parse_example_packages() {
    let targets = packages_from_toml(EXAMPLE_PACKAGES);
    let mut packages = TufPackages::from(targets).expect("convert package").packages;
    assert_eq!(packages.len(), 2);
    packages.sort_unstable_by(|a, b| a.name.cmp(&b.name));

    assert_eq!(packages[0].name, "foo".to_string());
    assert_eq!(packages[0].version, "1".to_string());
    assert_eq!(packages[0].hardware, vec!["acme-ecu-1".to_string()]);
    assert_eq!(
        packages[0].target,
        RepoTarget::Url(url::Url::parse("https://acme.org/downloads/foo").expect("parse url").to_string())
    );
    assert_eq!(packages[0].format, TargetFormat::Binary);

    assert_eq!(packages[1].name, "my-branch".to_string());
    assert_eq!(packages[1].version, "1234".to_string());
    assert_eq!(packages[1].hardware, vec!["qemux86-64".to_string()]);
    assert_eq!(packages[1].target, RepoTarget::Path("/ota/my-branch-01234".into()));
    assert_eq!(packages[1].format, TargetFormat::Ostree);
}

#[test]
fn expansion_keeps_order_and_reproduces_fields() {
    let targets = TargetPackages {
        packages: vec![
            ("foo".to_string(), vec![("1".to_string(), meta(None, Some("https://acme.org/downloads/foo")))]),
            ("my-branch".to_string(), vec![("1234".to_string(), meta(Some("/ota/my-branch-01234"), None))]),
        ],
    };
    let packages = TufPackages::from(targets).expect("expand").packages;
    assert_eq!(packages.len(), 2);
    assert_eq!(packages[0].name, "foo");
    assert_eq!(packages[0].target, RepoTarget::Url("https://acme.org/downloads/foo".to_string()));
    assert_eq!(packages[1].name, "my-branch");
    assert_eq!(packages[1].version, "1234");
    assert_eq!(packages[1].target, RepoTarget::Path("/ota/my-branch-01234".to_string()));
}

#[test]
fn expansion_gives_one_record_per_pair() {
    let targets = TargetPackages {
        packages: vec![
            (
                "a".to_string(),
                vec![
                    ("1".to_string(), meta(Some("/a1"), None)),
                    ("2".to_string(), meta(Some("/a2"), None)),
                    ("3".to_string(), meta(None, Some("https://example.com/a3"))),
                ],
            ),
            ("b".to_string(), vec![]),
            ("c".to_string(), vec![("9".to_string(), meta(Some("/c9"), None))]),
        ],
    };
    let packages = TufPackages::from(targets).expect("expand").packages;
    let pairs: Vec<(&str, &str)> = packages.iter().map(|p| (p.name.as_str(), p.version.as_str())).collect();
    assert_eq!(pairs, vec![("a", "1"), ("a", "2"), ("a", "3"), ("c", "9")]);
    assert_eq!(packages[1].target, RepoTarget::Path("/a2".to_string()));
}

#[test]
fn expansion_of_empty_description_is_empty() {
    let packages = TufPackages::from(TargetPackages { packages: vec![] }).expect("expand").packages;
    assert!(packages.is_empty());
}

#[test]
fn both_path_and_url_fail_expansion() {
    let targets = TargetPackages {
        packages: vec![
            ("ok".to_string(), vec![("1".to_string(), meta(Some("/ok"), None))]),
            ("bad".to_string(), vec![("1".to_string(), meta(Some("/bad"), Some("https://example.com/bad")))]),
        ],
    };
    match TufPackages::from(targets) {
        Err(Error::Parse(m)) => assert_eq!(m, "Either `path` or `url` expected. Not both."),
        other => panic!("unexpected: {:?}", other.map(|t| t.packages.len())),
    }
}

#[test]
fn neither_path_nor_url_fails_expansion() {
    let targets = TargetPackages { packages: vec![("bad".to_string(), vec![("1".to_string(), meta(None, None))])] };
    match TufPackages::from(targets) {
        Err(Error::Parse(m)) => assert_eq!(m, "One of `path` or `url` required."),
        other => panic!("unexpected: {:?}", other.map(|t| t.packages.len())),
    }
}

#[test]
fn unparsable_url_fails_expansion() {
    let targets =
        TargetPackages { packages: vec![("bad".to_string(), vec![("1".to_string(), meta(None, Some("not a url")))])] };
    assert!(matches!(TufPackages::from(targets), Err(Error::Url(_))));
}

#[test]
fn url_target_holds_its_serialization() {
    let target = RepoTarget::from_args(None, Some("HTTPS://Example.com".to_string())).expect("url");
    assert_eq!(target, RepoTarget::Url("https://example.com/".to_string()));
}

#[test]
fn target_args_need_exactly_one_location() {
    assert_eq!(RepoTarget::from_args(Some("/p".to_string()), None).expect("path"), RepoTarget::Path("/p".to_string()));
    match RepoTarget::from_args(None, None) {
        Err(Error::Args(m)) => assert_eq!(m, "Either --path or --url flag is required"),
        other => panic!("unexpected: {:?}", other),
    }
    match RepoTarget::from_args(Some("/p".to_string()), Some("https://example.com".to_string())) {
        Err(Error::Args(m)) => assert_eq!(m, "Either --path or --url expected. Not both."),
        other => panic!("unexpected: {:?}", other),
    }
}

#[test]
fn package_from_args_reads_format_first() {
    let p = TufPackage::from_args(
        "pkg".to_string(),
        "2".to_string(),
        false,
        true,
        vec!["hw".to_string()],
        Some("/x".to_string()),
        None,
    )
    .expect("package");
    assert_eq!(p.format, TargetFormat::Ostree);
    assert_eq!(p.target, RepoTarget::Path("/x".to_string()));
    match TufPackage::from_args("pkg".to_string(), "2".to_string(), false, false, vec![], None, None) {
        Err(Error::Args(m)) => assert_eq!(m, "Either --binary or --ostree flag is required"),
        other => panic!("unexpected: {:?}", other.map(|p| p.name)),
    }
}

#[test]
fn upload_query_encodes_name_and_version() {
    let p = TufPackage {
        name: "my pkg/ü".to_string(),
        version: "1.0~rc_1-a".to_string(),
        format: TargetFormat::Binary,
        hardware: vec!["ecu-1".to_string(), "ecu-2".to_string()],
        target: RepoTarget::Path("/x".to_string()),
    };
    let q = p.upload_query();
    assert_eq!(
        q,
        vec![
            ("name".to_string(), "my%20pkg%2F%C3%BC".to_string()),
            ("version".to_string(), "1.0~rc_1-a".to_string()),
            ("hardwareIds".to_string(), "ecu-1,ecu-2".to_string()),
            ("targetFormat".to_string(), "BINARY".to_string()),
        ]
    );
    assert_eq!(p.entry_name(), "my pkg/ü-1.0~rc_1-a");
}

#[test]
fn fetch_entry_joins_with_underscore() {
    assert_eq!(Reposerver::fetch_entry("foo", "1"), "foo_1");
}

#[test]
fn package_table_rows() {
    let targets = vec![
        TargetInfo {
            key: "foo-1".to_string(),
            name: "foo".to_string(),
            version: "1".to_string(),
            hardware_ids: vec!["a".to_string(), "b".to_string()],
            uri: None,
            target_format: TargetFormat::Ostree,
            updated_at: "now".to_string(),
        },
        TargetInfo {
            key: "bar-2".to_string(),
            name: "bar".to_string(),
            version: "2".to_string(),
            hardware_ids: vec![],
            uri: Some("https://example.com/bar".to_string()),
            target_format: TargetFormat::Binary,
            updated_at: "then".to_string(),
        },
    ];
    let t = Reposerver::packages_table(vec![], b"{}".to_vec(), targets);
    assert_eq!(t.header, vec!["name", "name", "version", "hardware ids", "uri", "target_format", "updated at"]);
    assert_eq!(t.rows[0], vec!["foo-1", "foo", "1", "a, b", "None", "Ostree", "now"]);
    assert_eq!(t.rows[1], vec!["bar-2", "bar", "2", "", "https://example.com/bar", "Binary", "then"]);
    assert_eq!(t.raw, b"{}".to_vec());
}

#[test]
fn insert_keeps_names_and_versions_unique() {
    let mut t = TargetPackages::new();
    t.insert("a".to_string(), "1".to_string(), meta(Some("/a1"), None));
    t.insert("b".to_string(), "1".to_string(), meta(Some("/b1"), None));
    t.insert("a".to_string(), "2".to_string(), meta(Some("/a2"), None));
    t.insert("a".to_string(), "1".to_string(), meta(Some("/a1-new"), None));
    assert_eq!(t.packages.len(), 2);
    assert_eq!(t.packages[0].0, "a");
    assert_eq!(t.packages[1].0, "b");
    let versions: Vec<(&str, Option<&str>)> =
        t.packages[0].1.iter().map(|(v, m)| (v.as_str(), m.path.as_deref())).collect();
    assert_eq!(versions, vec![("1", Some("/a1-new")), ("2", Some("/a2"))]);
    let packages = TufPackages::from(t).expect("expand").packages;
    assert_eq!(packages.len(), 3);
}
