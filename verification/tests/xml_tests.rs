use rust_helper::xml::{decode_xml_entities, extract_xml_attr};

#[test]
fn commands_test_extract_xml_attr_basic() {
    let line = r#"<testcase name="test_foo" classname="my_crate" time="0.001">"#;
    assert_eq!(extract_xml_attr(line, "name"), Some("test_foo".to_string()));
    assert_eq!(
        extract_xml_attr(line, "classname"),
        Some("my_crate".to_string())
    );
    assert_eq!(extract_xml_attr(line, "time"), Some("0.001".to_string()));
}

#[test]
fn commands_test_extract_xml_attr_missing() {
    let line = r#"<testcase name="test_foo">"#;
    assert_eq!(extract_xml_attr(line, "classname"), None);
    assert_eq!(extract_xml_attr(line, "missing"), None);
}

#[test]
fn commands_test_extract_xml_attr_empty_value() {
    let line = r#"<testcase name="" classname="foo">"#;
    assert_eq!(extract_xml_attr(line, "name"), Some("".to_string()));
}

#[test]
fn commands_test_extract_xml_attr_decodes_entities() {
    let line = r#"<failure message="test &apos;foo&apos; &amp; &lt;bar&gt;">"#;
    assert_eq!(
        extract_xml_attr(line, "message"),
        Some("test 'foo' & <bar>".to_string())
    );
}

#[test]
fn commands_test_decode_xml_entities_all_entities() {
    assert_eq!(decode_xml_entities("&amp;"), "&");
    assert_eq!(decode_xml_entities("&lt;"), "<");
    assert_eq!(decode_xml_entities("&gt;"), ">");
    assert_eq!(decode_xml_entities("&quot;"), "\"");
    assert_eq!(decode_xml_entities("&apos;"), "'");
}

#[test]
fn commands_test_decode_xml_entities_mixed() {
    let input = "test &apos;value&apos; with &lt;tags&gt; &amp; \"quotes\"";
    let expected = "test 'value' with <tags> & \"quotes\"";
    assert_eq!(decode_xml_entities(input), expected);
}

#[test]
fn commands_test_decode_xml_entities_no_entities() {
    let input = "plain text without entities";
    assert_eq!(decode_xml_entities(input), input);
}

#[test]
fn commands_test_decode_xml_entities_multiple_same() {
    let input = "&apos;&apos;&apos;";
    assert_eq!(decode_xml_entities(input), "'''");
}

#[test]
fn xml_test_decode_xml_entities_all_entities() {
    let input = "&amp; &lt; &gt; &quot; &apos;";
    assert_eq!(decode_xml_entities(input), "& < > \" '");
}

#[test]
fn xml_test_decode_xml_entities_no_entities() {
    let input = "plain text";
    assert_eq!(decode_xml_entities(input), "plain text");
}

#[test]
fn xml_test_decode_xml_entities_mixed() {
    let input = "Hello &amp; World";
    assert_eq!(decode_xml_entities(input), "Hello & World");
}

#[test]
fn xml_test_decode_xml_entities_multiple_same() {
    let input = "&amp;&amp;&amp;";
    assert_eq!(decode_xml_entities(input), "&&&");
}

#[test]
fn xml_test_extract_xml_attr_basic() {
    let line = r#"<testcase name="test_foo" classname="my_crate" time="0.001">"#;
    assert_eq!(extract_xml_attr(line, "name"), Some("test_foo".to_string()));
    assert_eq!(
        extract_xml_attr(line, "classname"),
        Some("my_crate".to_string())
    );
    assert_eq!(extract_xml_attr(line, "time"), Some("0.001".to_string()));
}

#[test]
fn xml_test_extract_xml_attr_decodes_entities() {
    let line = r#"<failure message="assertion &apos;x == y&apos; failed">"#;
    assert_eq!(
        extract_xml_attr(line, "message"),
        Some("assertion 'x == y' failed".to_string())
    );
}

#[test]
fn xml_test_extract_xml_attr_empty_value() {
    let line = r#"<testcase name="" time="0.001">"#;
    assert_eq!(extract_xml_attr(line, "name"), Some("".to_string()));
}

#[test]
fn xml_test_extract_xml_attr_missing() {
    let line = r#"<testcase name="test_foo">"#;
    assert!(extract_xml_attr(line, "missing").is_none());
}

#[test]
fn decode_replaces_in_the_order_of_the_entities() {
    // `&amp;lt;` first loses `&amp;`, and what is left is an entity again
    assert_eq!(decode_xml_entities("&amp;lt;"), "<");
    assert_eq!(decode_xml_entities("&lt;amp;"), "<amp;");
}

#[test]
fn extract_takes_the_first_occurrence_of_the_attribute() {
    let line = r#"<a classname="x" name="y" name="z">"#;
    // `name="` first stands inside `classname="`
    assert_eq!(extract_xml_attr(line, "name"), Some("x".to_string()));
    assert_eq!(extract_xml_attr(r#"<a name="unclosed>"#, "name"), None);
}
