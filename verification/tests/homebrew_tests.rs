use rust_helper::homebrew::{
    formula_status, parse_brew_info_json, rust_homebrew_status, update_available,
    BrewVersionInfo,
};
use rust_helper::json::{parse_json, JsonNumber, JsonValue};

#[test]
fn test_parse_brew_info_json_with_installed() {
    let json = r#"{
            "formulae": [{
                "name": "rust-helper",
                "installed": [{"version": "0.2.0"}],
                "versions": {"stable": "0.2.3"}
            }]
        }"#;
    let info = parse_brew_info_json(json).unwrap();
    assert_eq!(info.installed_version, Some("0.2.0".to_string()));
    assert_eq!(info.latest_version, Some("0.2.3".to_string()));
}

#[test]
fn test_parse_brew_info_json_not_installed() {
    let json = r#"{
            "formulae": [{
                "name": "rust-helper",
                "installed": [],
                "versions": {"stable": "0.2.3"}
            }]
        }"#;
    let info = parse_brew_info_json(json).unwrap();
    assert!(info.installed_version.is_none());
    assert_eq!(info.latest_version, Some("0.2.3".to_string()));
}

#[test]
fn test_parse_brew_info_json_empty_formulae() {
    let json = r#"{"formulae": []}"#;
    let info = parse_brew_info_json(json);
    assert!(info.is_none());
}

#[test]
fn test_parse_brew_info_json_invalid() {
    let json = "not valid json";
    let info = parse_brew_info_json(json);
    assert!(info.is_none());
}

#[test]
fn json_values_are_read_as_written() {
    let doc = parse_json(r#"{"b": [1, -2, 1.5, null, true, "x"], "a": {}}"#).unwrap();
    match doc {
        JsonValue::Object(members) => {
            assert_eq!(members.len(), 2);
            let b = members.iter().find(|m| m.key == "b").unwrap();
            match &b.value {
                JsonValue::Array(items) => {
                    assert!(matches!(items[0], JsonValue::Number(JsonNumber::Unsigned(1))));
                    assert!(matches!(items[1], JsonValue::Number(JsonNumber::Negative(-2))));
                    assert!(
                        matches!(&items[2], JsonValue::Number(JsonNumber::Other(t)) if t == "1.5")
                    );
                    assert!(matches!(items[3], JsonValue::Null));
                    assert!(matches!(items[4], JsonValue::Boolean(true)));
                    assert!(matches!(&items[5], JsonValue::Text(t) if t == "x"));
                }
                _ => panic!("b is an array"),
            }
        }
        _ => panic!("an object"),
    }
    assert!(parse_json("{").is_none());
}

#[test]
fn an_update_needs_two_different_versions() {
    let a = Some("1.0".to_string());
    let b = Some("1.1".to_string());
    assert!(update_available(&a, &b));
    assert!(!update_available(&a, &a));
    assert!(!update_available(&a, &None));
    assert!(!update_available(&None, &b));
}

#[test]
fn a_formula_counts_where_a_version_is_installed() {
    let info = BrewVersionInfo {
        installed_version: Some("0.2.0".to_string()),
        latest_version: Some("0.2.3".to_string()),
    };
    let status = formula_status("rust-helper", &info).unwrap();
    assert!(status.installed_via_homebrew);
    assert!(status.update_available);
    assert_eq!(status.formula_name.as_deref(), Some("rust-helper"));
    assert!(formula_status("rust-helper", &BrewVersionInfo::default()).is_none());
    let rust = rust_homebrew_status(false, Some("1.0".to_string()), Some("2.0".to_string()));
    assert!(!rust.installed_via_homebrew);
    assert_eq!(rust.current_version, None);
    assert!(!rust.update_available);
    let rust = rust_homebrew_status(true, Some("1.0".to_string()), Some("2.0".to_string()));
    assert!(rust.update_available);
}
