//! Test reports in the JUnit format, read line by line.
//!
//! Times are kept as the text that the report gives; their sum is left to the
//! caller.

use vstd::prelude::*;
use crate::edit::{trim, trimmed};
use crate::numbers::{parse_u32, parsed_u32};
use crate::seqs::{lemma_deep_vec};
use crate::split::{lines, split_lines};
use crate::text::{
    begins_with, chars_of, lemma_chars_deep_view, same_chars, starts_with, string_of,
};
use crate::xml::{attr_of_chars, attr_value};

verus! {

broadcast use {lemma_deep_vec, lemma_chars_deep_view};

/// One test of a report.
#[derive(Debug, Clone)]
pub struct TestResult {
    pub name: String,
    pub classname: String,
    /// The time that the report gives, as written.
    pub time: Option<String>,
    /// `passed`, `failed` or `skipped`.
    pub status: String,
    pub failure_message: Option<String>,
}

pub struct TestResultModel {
    pub name: Seq<char>,
    pub classname: Seq<char>,
    pub time: Option<Seq<char>>,
    pub status: Seq<char>,
    pub failure_message: Option<Seq<char>>,
}

impl DeepView for TestResult {
    type V = TestResultModel;

    open spec fn deep_view(&self) -> TestResultModel {
        TestResultModel {
            name: self.name@,
            classname: self.classname@,
            time: self.time.deep_view(),
            status: self.status@,
            failure_message: self.failure_message.deep_view(),
        }
    }
}

/// One suite of a report.
#[derive(Debug, Clone)]
pub struct TestSuiteResult {
    pub name: String,
    pub tests: u32,
    pub failures: u32,
    pub errors: u32,
    pub skipped: u32,
    /// The time that the report gives, as written.
    pub time: Option<String>,
    pub test_cases: Vec<TestResult>,
}

pub struct TestSuiteResultModel {
    pub name: Seq<char>,
    pub tests: u32,
    pub failures: u32,
    pub errors: u32,
    pub skipped: u32,
    pub time: Option<Seq<char>>,
    pub test_cases: Seq<TestResultModel>,
}

impl DeepView for TestSuiteResult {
    type V = TestSuiteResultModel;

    open spec fn deep_view(&self) -> TestSuiteResultModel {
        TestSuiteResultModel {
            name: self.name@,
            tests: self.tests,
            failures: self.failures,
            errors: self.errors,
            skipped: self.skipped,
            time: self.time.deep_view(),
            test_cases: self.test_cases.deep_view(),
        }
    }
}

/// A report: its suites and the counts over all of them.
#[derive(Debug, Clone)]
pub struct NextestResults {
    pub suites: Vec<TestSuiteResult>,
    pub total_tests: u32,
    pub total_passed: u32,
    pub total_failed: u32,
    pub total_skipped: u32,
}

pub struct NextestResultsModel {
    pub suites: Seq<TestSuiteResultModel>,
    pub total_tests: u32,
    pub total_passed: u32,
    pub total_failed: u32,
    pub total_skipped: u32,
}

impl DeepView for NextestResults {
    type V = NextestResultsModel;

    open spec fn deep_view(&self) -> NextestResultsModel {
        NextestResultsModel {
            suites: self.suites.deep_view(),
            total_tests: self.total_tests,
            total_passed: self.total_passed,
            total_failed: self.total_failed,
            total_skipped: self.total_skipped,
        }
    }
}

/// The sum of two counts, starting from zero again after the largest value.
pub open spec fn wrap_add(a: u32, b: u32) -> u32 {
    ((a + b) % 0x1_0000_0000) as u32
}

/// The sum of two counts, starting from zero again after the largest value.
pub fn wrapping_sum(a: u32, b: u32) -> (r: u32)
    ensures
        r == wrap_add(a, b),
{
    let wide: u64 = a as u64 + b as u64;
    (wide % 0x1_0000_0000) as u32
}

/// The tests of a suite that failed: its failures and its errors.
pub open spec fn failed_in(s: TestSuiteResultModel) -> u32 {
    wrap_add(s.failures, s.errors)
}

/// The tests of a suite that passed: those that neither failed nor were
/// skipped, and none where these are more than the tests.
pub open spec fn passed_in(s: TestSuiteResultModel) -> u32 {
    let others = wrap_add(failed_in(s), s.skipped);
    if s.tests >= others {
        (s.tests - others) as u32
    } else {
        0
    }
}

/// The counts over a list of suites: tests, passed, failed, skipped. A sum
/// starts from zero again after the largest value of a count.
pub open spec fn totals(suites: Seq<TestSuiteResultModel>) -> (u32, u32, u32, u32)
    decreases suites.len(),
{
    if suites.len() == 0 {
        (0, 0, 0, 0)
    } else {
        let t = totals(suites.drop_last());
        let s = suites.last();
        (
            wrap_add(t.0, s.tests),
            wrap_add(t.1, passed_in(s)),
            wrap_add(t.2, failed_in(s)),
            wrap_add(t.3, s.skipped),
        )
    }
}

/// The count that an attribute gives; zero where the attribute is missing or
/// no count.
pub open spec fn count_attr(line: Seq<char>, attr: Seq<char>) -> u32 {
    match attr_value(line, attr) {
        Some(v) => match parsed_u32(v) {
            Some(n) => n,
            None => 0,
        },
        None => 0,
    }
}

/// The text that an attribute gives; empty where the attribute is missing.
pub open spec fn text_attr(line: Seq<char>, attr: Seq<char>) -> Seq<char> {
    match attr_value(line, attr) {
        Some(v) => v,
        None => Seq::empty(),
    }
}

/// The suite that a line opens.
pub open spec fn suite_opened(line: Seq<char>) -> TestSuiteResultModel {
    TestSuiteResultModel {
        name: text_attr(line, "name"@),
        tests: count_attr(line, "tests"@),
        failures: count_attr(line, "failures"@),
        errors: count_attr(line, "errors"@),
        skipped: count_attr(line, "skipped"@),
        time: attr_value(line, "time"@),
        test_cases: Seq::empty(),
    }
}

/// The test that a line declares; it counts as passed until a later line says
/// otherwise.
pub open spec fn case_declared(line: Seq<char>) -> TestResultModel {
    TestResultModel {
        name: text_attr(line, "name"@),
        classname: text_attr(line, "classname"@),
        time: attr_value(line, "time"@),
        status: "passed"@,
        failure_message: None,
    }
}

/// The suites that are closed, and the one that is open.
pub struct ReportState {
    pub closed: Seq<TestSuiteResultModel>,
    pub open: Option<TestSuiteResultModel>,
}

/// The suite with one more test.
pub open spec fn with_case(s: TestSuiteResultModel, c: TestResultModel) -> TestSuiteResultModel {
    TestSuiteResultModel { test_cases: s.test_cases.push(c), ..s }
}

/// The suite with its last test marked as failed, with the given message;
/// unchanged where it has no test.
pub open spec fn with_failure(
    s: TestSuiteResultModel,
    message: Option<Seq<char>>,
) -> TestSuiteResultModel {
    if s.test_cases.len() > 0 {
        TestSuiteResultModel {
            test_cases: s.test_cases.drop_last().push(
                TestResultModel {
                    status: "failed"@,
                    failure_message: message,
                    ..s.test_cases.last()
                },
            ),
            ..s
        }
    } else {
        s
    }
}

/// The suite with its last test marked as skipped; unchanged where it has no
/// test.
pub open spec fn with_skip(s: TestSuiteResultModel) -> TestSuiteResultModel {
    if s.test_cases.len() > 0 {
        TestSuiteResultModel {
            test_cases: s.test_cases.drop_last().push(
                TestResultModel { status: "skipped"@, ..s.test_cases.last() },
            ),
            ..s
        }
    } else {
        s
    }
}

/// What a line without the white space around it makes of the state.
///
/// A line that starts with `<testsuite ` opens a suite and drops one that is
/// still open. A line that starts with `<testcase ` adds a test to the open
/// suite, one that starts with `<failure` or `<skipped` marks the last test of
/// the open suite, and the line `</testsuite>` closes the open suite.
pub open spec fn after_line(state: ReportState, t: Seq<char>) -> ReportState {
    let opened = if starts_with(t, "<testsuite "@) {
        Some(suite_opened(t))
    } else {
        state.open
    };
    let declared = match opened {
        Some(s) => if starts_with(t, "<testcase "@) {
            Some(with_case(s, case_declared(t)))
        } else {
            Some(s)
        },
        None => None,
    };
    let failed = match declared {
        Some(s) => if starts_with(t, "<failure"@) {
            Some(with_failure(s, attr_value(t, "message"@)))
        } else {
            Some(s)
        },
        None => None,
    };
    let skipped = match failed {
        Some(s) => if starts_with(t, "<skipped"@) {
            Some(with_skip(s))
        } else {
            Some(s)
        },
        None => None,
    };
    if t == "</testsuite>"@ {
        match skipped {
            Some(s) => ReportState { closed: state.closed.push(s), open: None },
            None => ReportState { closed: state.closed, open: None },
        }
    } else {
        ReportState { closed: state.closed, open: skipped }
    }
}

/// What a list of lines makes of the empty state.
pub open spec fn after_lines(ls: Seq<Seq<char>>) -> ReportState
    decreases ls.len(),
{
    if ls.len() == 0 {
        ReportState { closed: Seq::empty(), open: None }
    } else {
        after_line(after_lines(ls.drop_last()), trimmed(ls.last()))
    }
}

/// The suites that a report closes, in order.
pub open spec fn suites_of(content: Seq<char>) -> Seq<TestSuiteResultModel> {
    after_lines(lines(content)).closed
}

/// The report that a text gives: its closed suites and the counts over them.
pub open spec fn report_of(content: Seq<char>) -> NextestResultsModel {
    let suites = suites_of(content);
    NextestResultsModel {
        suites: suites,
        total_tests: totals(suites).0,
        total_passed: totals(suites).1,
        total_failed: totals(suites).2,
        total_skipped: totals(suites).3,
    }
}

/// The count that an attribute gives.
pub fn count_of(line: &Vec<char>, attr: &str) -> (r: u32)
    ensures
        r == count_attr(line@, attr@),
{
    match attr_of_chars(line, attr) {
        Some(v) => match parse_u32(&v) {
            Some(n) => n,
            None => 0,
        },
        None => 0,
    }
}

/// The text that an attribute gives.
pub fn text_of_attr(line: &Vec<char>, attr: &str) -> (r: String)
    ensures
        r@ == text_attr(line@, attr@),
{
    match attr_of_chars(line, attr) {
        Some(v) => string_of(&v),
        None => String::new(),
    }
}

/// The value of an attribute, if the line has it.
pub fn optional_attr(line: &Vec<char>, attr: &str) -> (r: Option<String>)
    ensures
        r.deep_view() == attr_value(line@, attr@),
{
    match attr_of_chars(line, attr) {
        Some(v) => Some(string_of(&v)),
        None => None,
    }
}

/// The suite that a line opens.
pub fn open_suite(line: &Vec<char>) -> (r: TestSuiteResult)
    ensures
        r.deep_view() == suite_opened(line@),
{
    let r = TestSuiteResult {
        name: text_of_attr(line, "name"),
        tests: count_of(line, "tests"),
        failures: count_of(line, "failures"),
        errors: count_of(line, "errors"),
        skipped: count_of(line, "skipped"),
        time: optional_attr(line, "time"),
        test_cases: Vec::new(),
    };
    assert(r.test_cases.deep_view() =~= Seq::<TestResultModel>::empty());
    r
}

/// The test that a line declares.
pub fn declare_case(line: &Vec<char>) -> (r: TestResult)
    ensures
        r.deep_view() == case_declared(line@),
{
    TestResult {
        name: text_of_attr(line, "name"),
        classname: text_of_attr(line, "classname"),
        time: optional_attr(line, "time"),
        status: "passed".to_owned(),
        failure_message: None,
    }
}

impl TestSuiteResult {
    /// Adds a test.
    pub fn add_case(&mut self, case: TestResult)
        ensures
            final(self).deep_view() == with_case(old(self).deep_view(), case.deep_view()),
    {
        let ghost before = self.test_cases.deep_view();
        self.test_cases.push(case);
        assert(self.test_cases.deep_view() =~= before.push(case.deep_view()));
    }

    /// Marks the last test as failed.
    pub fn mark_failed(&mut self, message: Option<String>)
        ensures
            final(self).deep_view() == with_failure(old(self).deep_view(), message.deep_view()),
    {
        let ghost before = self.test_cases.deep_view();
        match self.test_cases.pop() {
            Some(mut case) => {
                assert(self.test_cases.deep_view() =~= before.drop_last());
                assert(case.deep_view() == before.last());
                case.status = "failed".to_owned();
                case.failure_message = message;
                let ghost rest = self.test_cases.deep_view();
                self.test_cases.push(case);
                assert(self.test_cases.deep_view() =~= rest.push(case.deep_view()));
            },
            None => {
                assert(self.test_cases.deep_view() =~= before);
            },
        }
    }

    /// Marks the last test as skipped.
    pub fn mark_skipped(&mut self)
        ensures
            final(self).deep_view() == with_skip(old(self).deep_view()),
    {
        let ghost before = self.test_cases.deep_view();
        match self.test_cases.pop() {
            Some(mut case) => {
                assert(self.test_cases.deep_view() =~= before.drop_last());
                assert(case.deep_view() == before.last());
                case.status = "skipped".to_owned();
                let ghost rest = self.test_cases.deep_view();
                self.test_cases.push(case);
                assert(self.test_cases.deep_view() =~= rest.push(case.deep_view()));
            },
            None => {
                assert(self.test_cases.deep_view() =~= before);
            },
        }
    }
}

/// The closed suites of a report.
pub fn parse_suites(content: &str) -> (r: Vec<TestSuiteResult>)
    ensures
        r.deep_view() == suites_of(content@),
{
    let all = split_lines(&chars_of(content));
    let ghost ls = lines(content@);
    let mut suites: Vec<TestSuiteResult> = Vec::new();
    let mut current: Option<TestSuiteResult> = None;
    let suite_mark = chars_of("<testsuite ");
    let case_mark = chars_of("<testcase ");
    let failure_mark = chars_of("<failure");
    let skipped_mark = chars_of("<skipped");
    let close_mark = chars_of("</testsuite>");
    let mut i: usize = 0;
    assert(ls.take(0) =~= Seq::<Seq<char>>::empty());
    assert(suites.deep_view() =~= Seq::<TestSuiteResultModel>::empty());
    while i < all.len()
        invariant
            i <= all.len(),
            all.deep_view() == ls,
            suite_mark@ == "<testsuite "@,
            case_mark@ == "<testcase "@,
            failure_mark@ == "<failure"@,
            skipped_mark@ == "<skipped"@,
            close_mark@ == "</testsuite>"@,
            after_lines(ls.take(i as int)) == (ReportState {
                closed: suites.deep_view(),
                open: current.deep_view(),
            }),
        decreases all.len() - i,
    {
        proof {
            assert(ls.take(i + 1).drop_last() =~= ls.take(i as int));
            assert(ls.take(i + 1).last() == all@[i as int]@);
        }
        let t = trim(&all[i]);
        if begins_with(&t, &suite_mark) {
            current = Some(open_suite(&t));
        }
        let previous = current;
        current = match previous {
            Some(mut suite) => {
                if begins_with(&t, &case_mark) {
                    suite.add_case(declare_case(&t));
                }
                if begins_with(&t, &failure_mark) {
                    suite.mark_failed(optional_attr(&t, "message"));
                }
                if begins_with(&t, &skipped_mark) {
                    suite.mark_skipped();
                }
                Some(suite)
            },
            None => None,
        };
        if same_chars(&t, &close_mark) {
            let closing = current;
            current = None;
            match closing {
                Some(suite) => {
                    let ghost before = suites.deep_view();
                    suites.push(suite);
                    assert(suites.deep_view() =~= before.push(suite.deep_view()));
                },
                None => {},
            }
        }
        i += 1;
    }
    assert(ls.take(all.len() as int) =~= ls);
    suites
}

/// The report of a list of suites: the suites and the counts over them.
pub fn summarize_suites(suites: Vec<TestSuiteResult>) -> (r: NextestResults)
    ensures
        r.suites == suites,
        (r.total_tests, r.total_passed, r.total_failed, r.total_skipped) == totals(
            suites.deep_view(),
        ),
{
    let ghost all = suites.deep_view();
    let mut total_tests: u32 = 0;
    let mut total_passed: u32 = 0;
    let mut total_failed: u32 = 0;
    let mut total_skipped: u32 = 0;
    let mut i: usize = 0;
    assert(all.take(0) =~= Seq::<TestSuiteResultModel>::empty());
    while i < suites.len()
        invariant
            i <= suites.len(),
            all == suites.deep_view(),
            (total_tests, total_passed, total_failed, total_skipped) == totals(all.take(i as int)),
        decreases suites.len() - i,
    {
        proof {
            assert(all.take(i + 1).drop_last() =~= all.take(i as int));
            assert(all.take(i + 1).last() == suites@[i as int].deep_view());
        }
        let s = &suites[i];
        let failed = wrapping_sum(s.failures, s.errors);
        let others = wrapping_sum(failed, s.skipped);
        let passed: u32 = if s.tests >= others {
            s.tests - others
        } else {
            0
        };
        total_tests = wrapping_sum(total_tests, s.tests);
        total_passed = wrapping_sum(total_passed, passed);
        total_failed = wrapping_sum(total_failed, failed);
        total_skipped = wrapping_sum(total_skipped, s.skipped);
        i += 1;
    }
    assert(all.take(suites.len() as int) =~= all);
    NextestResults { suites, total_tests, total_passed, total_failed, total_skipped }
}

/// Parse JUnit XML content into structured test results. Every text gives a
/// report.
pub fn parse_junit_xml(content: &str) -> (r: Result<NextestResults, String>)
    ensures
        r is Ok,
        r.unwrap().deep_view() == report_of(content@),
{
    Ok(summarize_suites(parse_suites(content)))
}

} // verus!
