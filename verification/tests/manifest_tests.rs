use rust_helper::dependencies::extract_version;
use rust_helper::document::{parse_document, TomlEntry, TomlValue};
use rust_helper::manifest::{
    parse_cargo_features_toml, parse_cargo_toml, parse_manifest, parse_msrv_toml,
};

fn table(text: &str) -> Vec<TomlEntry> {
    parse_document(text).unwrap()
}

fn value(text: &str) -> TomlValue {
    TomlValue::Table(table(text))
}

#[test]
fn test_extract_version_string() {
    let value = TomlValue::Text("1.2.3".to_string());
    assert_eq!(extract_version(&value), Some("1.2.3".to_string()));
}

#[test]
fn test_extract_version_table() {
    let mut table = Vec::new();
    table.push(TomlEntry {
        key: "version".to_string(),
        value: TomlValue::Text("2.0.0".to_string()),
    });
    let value = TomlValue::Table(table);
    assert_eq!(extract_version(&value), Some("2.0.0".to_string()));
}

#[test]
fn test_extract_version_table_no_version() {
    let mut table = Vec::new();
    table.push(TomlEntry {
        key: "path".to_string(),
        value: TomlValue::Text("./local".to_string()),
    });
    let value = TomlValue::Table(table);
    assert_eq!(extract_version(&value), None);
}

#[test]
fn test_extract_version_with_features() {
    let toml_str = r#"
version = "1.0"
features = ["full"]
"#;
    let value = value(toml_str);
    assert_eq!(extract_version(&value), Some("1.0".to_string()));
}

#[test]
fn test_extract_version_git_dep() {
    let toml_str = r#"
git = "https://github.com/foo/bar"
"#;
    let value = value(toml_str);
    assert_eq!(extract_version(&value), None);
}

#[test]
fn test_extract_version_path_dep() {
    let toml_str = r#"
path = "../other-crate"
"#;
    let value = value(toml_str);
    assert_eq!(extract_version(&value), None);
}

#[test]
fn extract_version_of_other_values_is_none() {
    assert_eq!(extract_version(&TomlValue::Integer(1)), None);
    assert_eq!(extract_version(&TomlValue::Boolean(true)), None);
    assert_eq!(extract_version(&TomlValue::Array(Vec::new())), None);
    assert_eq!(extract_version(&value("version = 2")), None);
}

#[test]
fn test_cargo_toml_parsing_basic() {
    let toml_content = r#"
[package]
name = "my-crate"
version = "0.1.0"

[dependencies]
serde = "1.0"
tokio = "1.0"
"#;
    let cargo = parse_manifest(toml_content).unwrap();
    assert_eq!(cargo.name, Some("my-crate".to_string()));
    assert_eq!(cargo.dependency_count, 2);
    assert!(!cargo.has_workspace);
}

#[test]
fn test_cargo_toml_parsing_workspace() {
    let toml_content = r#"
[workspace]
members = ["crate-a", "crate-b", "crates/*"]
"#;
    let cargo = parse_manifest(toml_content).unwrap();
    assert!(cargo.has_workspace);
    assert_eq!(cargo.members.as_ref().unwrap().len(), 3);
}

#[test]
fn test_cargo_toml_parsing_no_package() {
    let toml_content = r#"
[dependencies]
serde = "1.0"
"#;
    let cargo = parse_manifest(toml_content).unwrap();
    assert!(cargo.name.is_none());
}

#[test]
fn manifest_summary_names_unknown_packages() {
    assert_eq!(
        parse_cargo_toml("[dependencies]\nserde = \"1.0\"\n"),
        Some(("unknown".to_string(), 1, false))
    );
    assert_eq!(
        parse_cargo_toml("[package]\nname = \"x\"\n[workspace]\n"),
        Some(("x".to_string(), 0, true))
    );
    assert_eq!(parse_cargo_toml("this is no manifest"), None);
    assert_eq!(parse_cargo_toml("package = 3\n"), None);
    assert_eq!(parse_cargo_toml("[package]\nname = 3\n"), None);
    assert_eq!(parse_cargo_toml("[workspace]\nmembers = [1]\n"), None);
    assert_eq!(parse_cargo_toml("dependencies = \"x\"\n"), None);
}

#[test]
fn test_msrv_parsing_from_toml() {
    let toml_content = r#"
[package]
name = "test"
version = "0.1.0"
edition = "2021"
rust-version = "1.70"
"#;
    let msrv = parse_msrv_toml(&table(toml_content));
    assert_eq!(msrv.edition.as_deref(), Some("2021"));
    assert_eq!(msrv.rust_version.as_deref(), Some("1.70"));
}

#[test]
fn test_msrv_parsing_missing_fields() {
    let toml_content = r#"
[package]
name = "test"
version = "0.1.0"
"#;
    let msrv = parse_msrv_toml(&table(toml_content));
    assert_eq!(msrv.edition, None);
    assert_eq!(msrv.rust_version, None);
}

#[test]
fn test_parse_cargo_features_toml_basic() {
    let toml_str = r#"
[package]
name = "test-crate"

[features]
default = ["serde"]
serde = ["dep:serde"]
full = ["serde", "async"]
async = []
"#;
    let table = table(toml_str);
    let features = parse_cargo_features_toml(&table);

    assert_eq!(features.default_features, vec!["serde"]);
    assert_eq!(features.features.len(), 3);

    // Features should be sorted alphabetically
    assert_eq!(features.features[0].name, "async");
    assert_eq!(features.features[1].name, "full");
    assert_eq!(features.features[2].name, "serde");

    // Check is_default flag
    assert!(!features.features[0].is_default);
    assert!(!features.features[1].is_default);
    assert!(features.features[2].is_default);
}

#[test]
fn test_parse_cargo_features_toml_no_features() {
    let toml_str = r#"
[package]
name = "test-crate"
"#;
    let table = table(toml_str);
    let features = parse_cargo_features_toml(&table);

    assert!(features.features.is_empty());
    assert!(features.default_features.is_empty());
}

#[test]
fn test_parse_cargo_features_toml_no_default() {
    let toml_str = r#"
[features]
serde = []
async = []
"#;
    let table = table(toml_str);
    let features = parse_cargo_features_toml(&table);

    assert!(features.default_features.is_empty());
    assert_eq!(features.features.len(), 2);
    assert!(!features.features[0].is_default);
    assert!(!features.features[1].is_default);
}

#[test]
fn test_parse_cargo_features_toml_with_dependencies() {
    let toml_str = r#"
[features]
full = ["serde", "tokio", "async-std"]
minimal = []
"#;
    let table = table(toml_str);
    let features = parse_cargo_features_toml(&table);

    let full_feature = features.features.iter().find(|f| f.name == "full").unwrap();
    assert_eq!(full_feature.dependencies.len(), 3);
    assert!(full_feature.dependencies.contains(&"serde".to_string()));
    assert!(full_feature.dependencies.contains(&"tokio".to_string()));
}

#[test]
fn test_parse_msrv_toml_full() {
    let toml_str = r#"
[package]
name = "test-crate"
rust-version = "1.70.0"
edition = "2021"
"#;
    let table = table(toml_str);
    let msrv = parse_msrv_toml(&table);

    assert_eq!(msrv.msrv, Some("1.70.0".to_string()));
    assert_eq!(msrv.rust_version, Some("1.70.0".to_string()));
    assert_eq!(msrv.edition, Some("2021".to_string()));
}

#[test]
fn test_parse_msrv_toml_no_rust_version() {
    let toml_str = r#"
[package]
name = "test-crate"
edition = "2018"
"#;
    let table = table(toml_str);
    let msrv = parse_msrv_toml(&table);

    assert!(msrv.msrv.is_none());
    assert!(msrv.rust_version.is_none());
    assert_eq!(msrv.edition, Some("2018".to_string()));
}

#[test]
fn test_parse_msrv_toml_no_package() {
    let toml_str = r#"
[workspace]
members = ["crate-a", "crate-b"]
"#;
    let table = table(toml_str);
    let msrv = parse_msrv_toml(&table);

    assert!(msrv.msrv.is_none());
    assert!(msrv.rust_version.is_none());
    assert!(msrv.edition.is_none());
}

#[test]
fn test_parse_msrv_toml_empty() {
    let table = Vec::new();
    let msrv = parse_msrv_toml(&table);

    assert!(msrv.msrv.is_none());
    assert!(msrv.rust_version.is_none());
    assert!(msrv.edition.is_none());
}

#[test]
fn document_holds_what_the_text_says() {
    let doc = table("a = 1\nb = \"x\"\n[c]\nd = [true, 2.5]\n");
    assert_eq!(doc.len(), 3);
    assert_eq!(doc[0].key, "a");
    assert!(matches!(doc[0].value, TomlValue::Integer(1)));
    assert!(matches!(&doc[1].value, TomlValue::Text(s) if s == "x"));
    match &doc[2].value {
        TomlValue::Table(t) => match &t[0].value {
            TomlValue::Array(items) => {
                assert!(matches!(items[0], TomlValue::Boolean(true)));
                assert!(matches!(&items[1], TomlValue::Float(f) if f == "2.5"));
            }
            _ => panic!("d is an array"),
        },
        _ => panic!("c is a table"),
    }
    assert!(parse_document("a = ").is_none());
}
