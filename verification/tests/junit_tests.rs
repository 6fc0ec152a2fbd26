use rust_helper::junit::{parse_junit_xml, wrapping_sum};

#[test]
fn commands_test_parse_junit_xml_empty() {
    let xml = r#"<?xml version="1.0" encoding="UTF-8"?>
<testsuites name="nextest-run" tests="0" failures="0" errors="0">
</testsuites>"#;

    let result = parse_junit_xml(xml).unwrap();
    assert_eq!(result.total_tests, 0);
    assert_eq!(result.total_passed, 0);
    assert_eq!(result.total_failed, 0);
    assert!(result.suites.is_empty());
}

#[test]
fn commands_test_parse_junit_xml_passing_tests() {
    let xml = r#"<?xml version="1.0" encoding="UTF-8"?>
<testsuites name="nextest-run" tests="2" failures="0" errors="0">
  <testsuite name="my_crate" tests="2" failures="0" errors="0" skipped="0" time="0.005">
    <testcase name="test_one" classname="my_crate::tests" time="0.002" />
    <testcase name="test_two" classname="my_crate::tests" time="0.003" />
  </testsuite>
</testsuites>"#;

    let result = parse_junit_xml(xml).unwrap();
    assert_eq!(result.total_tests, 2);
    assert_eq!(result.total_passed, 2);
    assert_eq!(result.total_failed, 0);
    assert_eq!(result.suites.len(), 1);
    assert_eq!(result.suites[0].test_cases.len(), 2);
    assert_eq!(result.suites[0].test_cases[0].name, "test_one");
    assert_eq!(result.suites[0].test_cases[0].status, "passed");
}

#[test]
fn commands_test_parse_junit_xml_with_failures() {
    let xml = r#"<?xml version="1.0" encoding="UTF-8"?>
<testsuites name="nextest-run" tests="2" failures="1" errors="0">
  <testsuite name="my_crate" tests="2" failures="1" errors="0" skipped="0" time="0.010">
    <testcase name="test_pass" classname="my_crate" time="0.002" />
    <testcase name="test_fail" classname="my_crate" time="0.008">
      <failure message="assertion failed">Expected 1, got 2</failure>
    </testcase>
  </testsuite>
</testsuites>"#;

    let result = parse_junit_xml(xml).unwrap();
    assert_eq!(result.total_tests, 2);
    assert_eq!(result.total_passed, 1);
    assert_eq!(result.total_failed, 1);

    let failed_test = &result.suites[0].test_cases[1];
    assert_eq!(failed_test.name, "test_fail");
    assert_eq!(failed_test.status, "failed");
    assert_eq!(
        failed_test.failure_message,
        Some("assertion failed".to_string())
    );
}

#[test]
fn commands_test_parse_junit_xml_with_skipped() {
    let xml = r#"<?xml version="1.0" encoding="UTF-8"?>
<testsuites name="nextest-run" tests="2" failures="0" errors="0">
  <testsuite name="my_crate" tests="2" failures="0" errors="0" skipped="1" time="0.001">
    <testcase name="test_run" classname="my_crate" time="0.001" />
    <testcase name="test_skip" classname="my_crate" time="0.000">
      <skipped />
    </testcase>
  </testsuite>
</testsuites>"#;

    let result = parse_junit_xml(xml).unwrap();
    assert_eq!(result.total_tests, 2);
    assert_eq!(result.total_skipped, 1);

    let skipped_test = &result.suites[0].test_cases[1];
    assert_eq!(skipped_test.status, "skipped");
}

#[test]
fn xml_test_parse_junit_xml_empty() {
    let xml = r#"<?xml version="1.0" encoding="UTF-8"?>"#;
    let result = parse_junit_xml(xml).unwrap();
    assert!(result.suites.is_empty());
    assert_eq!(result.total_tests, 0);
}

#[test]
fn xml_test_parse_junit_xml_passing_tests() {
    let xml = r#"<?xml version="1.0" encoding="UTF-8"?>
<testsuite name="my_crate" tests="2" failures="0" errors="0" skipped="0" time="0.01">
    <testcase name="test_one" classname="my_crate" time="0.005"/>
    <testcase name="test_two" classname="my_crate" time="0.005"/>
</testsuite>"#;
    let result = parse_junit_xml(xml).unwrap();
    assert_eq!(result.suites.len(), 1);
    assert_eq!(result.total_tests, 2);
    assert_eq!(result.total_passed, 2);
    assert_eq!(result.total_failed, 0);
}

#[test]
fn xml_test_parse_junit_xml_with_failures() {
    let xml = r#"<?xml version="1.0" encoding="UTF-8"?>
<testsuite name="my_crate" tests="2" failures="1" errors="0" skipped="0" time="0.01">
    <testcase name="test_pass" classname="my_crate" time="0.005"/>
    <testcase name="test_fail" classname="my_crate" time="0.005">
        <failure message="assertion failed"/>
    </testcase>
</testsuite>"#;
    let result = parse_junit_xml(xml).unwrap();
    assert_eq!(result.suites.len(), 1);
    assert_eq!(result.total_tests, 2);
    assert_eq!(result.total_passed, 1);
    assert_eq!(result.total_failed, 1);

    let failed_test = &result.suites[0].test_cases[1];
    assert_eq!(failed_test.name, "test_fail");
    assert_eq!(failed_test.status, "failed");
    assert_eq!(
        failed_test.failure_message,
        Some("assertion failed".to_string())
    );
}

#[test]
fn xml_test_parse_junit_xml_with_skipped() {
    let xml = r#"<?xml version="1.0" encoding="UTF-8"?>
<testsuite name="my_crate" tests="2" failures="0" errors="0" skipped="1" time="0.01">
    <testcase name="test_pass" classname="my_crate" time="0.005"/>
    <testcase name="test_skip" classname="my_crate" time="0.0">
        <skipped/>
    </testcase>
</testsuite>"#;
    let result = parse_junit_xml(xml).unwrap();
    assert_eq!(result.total_tests, 2);
    assert_eq!(result.total_passed, 1);
    assert_eq!(result.total_skipped, 1);

    let skipped_test = &result.suites[0].test_cases[1];
    assert_eq!(skipped_test.status, "skipped");
}

#[test]
fn junit_keeps_times_as_written_and_drops_open_suites() {
    let xml = "<testsuite name=\"dropped\" tests=\"9\">\n\
               <testsuite name=\"kept\" tests=\"x\" failures=\"+2\" errors=\"1\" skipped=\"1\" time=\"0.25\">\n\
               <failure message=\"no test yet\"/>\n\
               <testcase name=\"t\" classname=\"c\" time=\"0.125\"/>\n\
               </testsuite>\n\
               <testcase name=\"outside\" classname=\"c\"/>\n\
               <testsuite name=\"open\" tests=\"3\">\n";
    let result = parse_junit_xml(xml).unwrap();
    assert_eq!(result.suites.len(), 1);
    let suite = &result.suites[0];
    assert_eq!(suite.name, "kept");
    assert_eq!(suite.tests, 0);
    assert_eq!(suite.failures, 2);
    assert_eq!(suite.time.as_deref(), Some("0.25"));
    assert_eq!(suite.test_cases.len(), 1);
    assert_eq!(suite.test_cases[0].status, "passed");
    assert_eq!(suite.test_cases[0].time.as_deref(), Some("0.125"));
    assert_eq!(result.total_tests, 0);
    assert_eq!(result.total_failed, 3);
    assert_eq!(result.total_skipped, 1);
    // more failed and skipped than tests: none passed
    assert_eq!(result.total_passed, 0);
}

#[test]
fn failures_and_errors_beyond_the_tests_leave_none_passed() {
    let xml = "<testsuites name=\"run\" tests=\"5\" failures=\"2\" errors=\"1\">\n\
               <testsuite name=\"over\" tests=\"2\" failures=\"2\" errors=\"1\" skipped=\"0\" time=\"0.5\">\n\
               <testcase name=\"a\" classname=\"c\" time=\"0.1\">\n\
               <failure message=\"boom\"/>\n\
               </testcase>\n\
               </testsuite>\n\
               <testsuite name=\"fine\" tests=\"3\" failures=\"0\" errors=\"0\" skipped=\"1\" time=\"0.5\">\n\
               </testsuite>\n\
               </testsuites>\n";
    let result = parse_junit_xml(xml).unwrap();
    assert_eq!(result.suites.len(), 2);
    assert_eq!(result.suites[0].tests, 2);
    assert_eq!(result.suites[0].failures, 2);
    assert_eq!(result.suites[0].errors, 1);
    assert_eq!(result.total_tests, 5);
    assert_eq!(result.total_failed, 3);
    assert_eq!(result.total_skipped, 1);
    // the first suite adds none, the second its two
    assert_eq!(result.total_passed, 2);
}

#[test]
fn counts_start_again_after_the_largest_value() {
    assert_eq!(wrapping_sum(u32::MAX, 1), 0);
    assert_eq!(wrapping_sum(u32::MAX, u32::MAX), u32::MAX - 1);
    assert_eq!(wrapping_sum(2, 3), 5);
}
