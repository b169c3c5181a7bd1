use vstd::prelude::*;

use crate::test_runner::{StatusCounts, TestCategory, TestStatus, TestSuiteResult};
use crate::text::{chars_of, decimal, digit_char, push_decimal, push_str, string_from_chars};

verus! {

// ---------------------------------------------------------------------------
// Pieces of text
// ---------------------------------------------------------------------------

/// A character as XML text: `&`, `<` and `>` become entity references.
pub open spec fn xml_escape_char(c: char) -> Seq<char> {
    if c == '&' {
        seq!['&', 'a', 'm', 'p', ';']
    } else if c == '<' {
        seq!['&', 'l', 't', ';']
    } else if c == '>' {
        seq!['&', 'g', 't', ';']
    } else {
        seq![c]
    }
}

/// Text as XML text, each character escaped in turn.
pub open spec fn xml_escape(s: Seq<char>) -> Seq<char>
    decreases s.len(),
{
    if s.len() == 0 {
        Seq::empty()
    } else {
        xml_escape(s.drop_last()) + xml_escape_char(s.last())
    }
}

/// A duration of `ms` milliseconds in seconds with three decimals.
pub open spec fn seconds_text(ms: nat) -> Seq<char> {
    let r = ms % 1000;
    decimal(ms / 1000) + seq!['.', digit_char(r / 100), digit_char((r / 10) % 10), digit_char(r % 10)]
}

/// The name of a test category.
pub open spec fn category_text(c: TestCategory) -> Seq<char> {
    match c {
        TestCategory::Unit => "Unit"@,
        TestCategory::Integration => "Integration"@,
        TestCategory::Performance => "Performance"@,
        TestCategory::Mathematical => "Mathematical"@,
        TestCategory::Backtesting => "Backtesting"@,
        TestCategory::Statistical => "Statistical"@,
        TestCategory::Compatibility => "Compatibility"@,
    }
}

/// Appends the XML text of `s` to `out`.
pub fn push_escaped(out: &mut Vec<char>, s: &str)
    ensures
        final(out)@ == old(out)@ + xml_escape(s@),
{
    let cs = chars_of(s);
    let ghost start = out@;
    let mut i: usize = 0;
    while i < cs.len()
        invariant
            i <= cs@.len(),
            cs@ == s@,
            out@ == start + xml_escape(cs@.take(i as int)),
        decreases cs.len() - i,
    {
        let c = cs[i];
        let ghost before = out@;
        if c == '&' {
            out.push('&');
            out.push('a');
            out.push('m');
            out.push('p');
            out.push(';');
        } else if c == '<' {
            out.push('&');
            out.push('l');
            out.push('t');
            out.push(';');
        } else if c == '>' {
            out.push('&');
            out.push('g');
            out.push('t');
            out.push(';');
        } else {
            out.push(c);
        }
        assert(out@ =~= before + xml_escape_char(c));
        assert(cs@.take(i as int + 1).drop_last() =~= cs@.take(i as int));
        i = i + 1;
        assert(out@ =~= start + xml_escape(cs@.take(i as int)));
    }
    assert(cs@.take(i as int) =~= cs@);
}

fn digit(d: u64) -> (c: char)
    requires
        d < 10,
    ensures
        c == digit_char(d as nat),
{
    match d {
        0 => '0',
        1 => '1',
        2 => '2',
        3 => '3',
        4 => '4',
        5 => '5',
        6 => '6',
        7 => '7',
        8 => '8',
        _ => '9',
    }
}

/// Appends `n` in decimal.
fn push_decimal_u64(out: &mut Vec<char>, n: u64)
    ensures
        final(out)@ == old(out)@ + decimal(n as nat),
    decreases n,
{
    if n >= 10 {
        push_decimal_u64(out, n / 10);
    }
    out.push(digit(n % 10));
    assert(final(out)@ =~= old(out)@ + decimal(n as nat));
}

/// Appends `ms` milliseconds in seconds with three decimals.
pub fn push_seconds(out: &mut Vec<char>, ms: u64)
    ensures
        final(out)@ == old(out)@ + seconds_text(ms as nat),
{
    let ghost start = out@;
    push_decimal_u64(out, ms / 1000);
    let r = ms % 1000;
    out.push('.');
    out.push(digit(r / 100));
    out.push(digit((r / 10) % 10));
    out.push(digit(r % 10));
    assert(out@ =~= start + seconds_text(ms as nat));
}

// ---------------------------------------------------------------------------
// The report
// ---------------------------------------------------------------------------

/// `1` when the condition holds, `0` otherwise.
pub open spec fn flag_text(b: bool) -> Seq<char> {
    if b {
        seq!['1']
    } else {
        seq!['0']
    }
}

/// How a suite's test case ends: closed at once when it passed, else holding its
/// failure (the escaped standard error), its error (the escaped details), the
/// timeout, or the skip.
pub open spec fn junit_outcome(r: TestSuiteResult) -> Seq<char> {
    match r.status {
        TestStatus::Passed => " />\n"@,
        TestStatus::Failed => ">\n"@ + "      <failure message=\"Test suite failed\" type=\"TestFailure\">"@
            + xml_escape(r.stderr@) + "</failure>\n"@ + "    </testcase>\n"@,
        TestStatus::Error => ">\n"@ + "      <error message=\"Test suite error\" type=\"TestError\">"@
            + xml_escape(
            match r.error_details {
                Some(d) => d@,
                None => "Unknown error"@,
            },
        ) + "</error>\n"@ + "    </testcase>\n"@,
        TestStatus::Timeout => ">\n"@
            + "      <error message=\"Test suite timeout\" type=\"TestTimeout\">Test suite exceeded timeout limit</error>\n"@
            + "    </testcase>\n"@,
        TestStatus::Skipped => ">\n"@ + "      <skipped />\n"@ + "    </testcase>\n"@,
    }
}

/// The opening of a suite's element: its name, failure and error flags and time.
pub open spec fn junit_suite_open(r: TestSuiteResult) -> Seq<char> {
    "  <testsuite name=\""@ + r.suite_name@ + "\" tests=\"1\" failures=\""@ + flag_text(
        r.status == TestStatus::Failed,
    ) + "\" errors=\""@ + flag_text(r.status == TestStatus::Error) + "\" time=\""@ + seconds_text(
        r.duration_ms as nat,
    ) + "\">\n"@
}

/// The opening of a suite's test case: its name, category and time.
pub open spec fn junit_case_open(r: TestSuiteResult) -> Seq<char> {
    "    <testcase name=\""@ + r.suite_name@ + "\" classname=\""@ + category_text(r.category)
        + "\" time=\""@ + seconds_text(r.duration_ms as nat) + "\""@
}

/// The element of one suite.
pub open spec fn junit_suite(r: TestSuiteResult) -> Seq<char> {
    junit_suite_open(r) + junit_case_open(r) + junit_outcome(r) + "  </testsuite>\n"@
}

/// The elements of the suites, in order.
pub open spec fn junit_suites(rs: Seq<TestSuiteResult>) -> Seq<char>
    decreases rs.len(),
{
    if rs.len() == 0 {
        Seq::empty()
    } else {
        junit_suites(rs.drop_last()) + junit_suite(rs.last())
    }
}

/// The JUnit XML report of a run: the totals, then one element per suite.
pub open spec fn junit_xml(rs: Seq<TestSuiteResult>, summary: StatusCounts, total_duration_ms: nat) -> Seq<
    char,
> {
    "<?xml version=\"1.0\" encoding=\"UTF-8\"?>\n"@ + "<testsuites name=\"LDC Engine Tests\" tests=\""@
        + decimal(summary.total_suites as nat) + "\" failures=\""@ + decimal(
        summary.failed_suites as nat,
    ) + "\" errors=\""@ + decimal(summary.error_suites as nat) + "\" time=\""@ + seconds_text(
        total_duration_ms,
    ) + "\">\n"@ + junit_suites(rs) + "</testsuites>\n"@
}

fn category_str(c: TestCategory) -> (s: &'static str)
    ensures
        s@ == category_text(c),
{
    match c {
        TestCategory::Unit => "Unit",
        TestCategory::Integration => "Integration",
        TestCategory::Performance => "Performance",
        TestCategory::Mathematical => "Mathematical",
        TestCategory::Backtesting => "Backtesting",
        TestCategory::Statistical => "Statistical",
        TestCategory::Compatibility => "Compatibility",
    }
}

fn push_flag(out: &mut Vec<char>, b: bool)
    ensures
        final(out)@ == old(out)@ + flag_text(b),
{
    if b {
        out.push('1');
    } else {
        out.push('0');
    }
    assert(final(out)@ =~= old(out)@ + flag_text(b));
}

fn push_outcome(out: &mut Vec<char>, r: &TestSuiteResult)
    ensures
        final(out)@ == old(out)@ + junit_outcome(*r),
{
    let ghost start = out@;
    match r.status {
        TestStatus::Passed => {
            push_str(out, " />\n");
        },
        TestStatus::Failed => {
            push_str(out, ">\n");
            push_str(out, "      <failure message=\"Test suite failed\" type=\"TestFailure\">");
            push_escaped(out, r.stderr.as_str());
            push_str(out, "</failure>\n");
            push_str(out, "    </testcase>\n");
        },
        TestStatus::Error => {
            push_str(out, ">\n");
            push_str(out, "      <error message=\"Test suite error\" type=\"TestError\">");
            match &r.error_details {
                Some(d) => push_escaped(out, d.as_str()),
                None => push_escaped(out, "Unknown error"),
            }
            push_str(out, "</error>\n");
            push_str(out, "    </testcase>\n");
        },
        TestStatus::Timeout => {
            push_str(out, ">\n");
            push_str(
                out,
                "      <error message=\"Test suite timeout\" type=\"TestTimeout\">Test suite exceeded timeout limit</error>\n",
            );
            push_str(out, "    </testcase>\n");
        },
        TestStatus::Skipped => {
            push_str(out, ">\n");
            push_str(out, "      <skipped />\n");
            push_str(out, "    </testcase>\n");
        },
    }
    assert(out@ =~= start + junit_outcome(*r));
}

fn push_suite_open(out: &mut Vec<char>, r: &TestSuiteResult)
    ensures
        final(out)@ == old(out)@ + junit_suite_open(*r),
{
    let ghost start = out@;
    push_str(out, "  <testsuite name=\"");
    push_str(out, r.suite_name.as_str());
    push_str(out, "\" tests=\"1\" failures=\"");
    push_flag(out, r.status == TestStatus::Failed);
    push_str(out, "\" errors=\"");
    push_flag(out, r.status == TestStatus::Error);
    push_str(out, "\" time=\"");
    push_seconds(out, r.duration_ms);
    push_str(out, "\">\n");
    assert(out@ =~= start + junit_suite_open(*r));
}

fn push_case_open(out: &mut Vec<char>, r: &TestSuiteResult)
    ensures
        final(out)@ == old(out)@ + junit_case_open(*r),
{
    let ghost start = out@;
    push_str(out, "    <testcase name=\"");
    push_str(out, r.suite_name.as_str());
    push_str(out, "\" classname=\"");
    push_str(out, category_str(r.category));
    push_str(out, "\" time=\"");
    push_seconds(out, r.duration_ms);
    push_str(out, "\"");
    assert(out@ =~= start + junit_case_open(*r));
}

fn push_suite(out: &mut Vec<char>, r: &TestSuiteResult)
    ensures
        final(out)@ == old(out)@ + junit_suite(*r),
{
    let ghost start = out@;
    push_suite_open(out, r);
    push_case_open(out, r);
    push_outcome(out, r);
    push_str(out, "  </testsuite>\n");
    assert(out@ =~= start + junit_suite(*r));
}

/// The JUnit XML report of the suites' results, with the run's totals and its
/// duration in milliseconds.
pub fn generate_junit_xml(results: &Vec<TestSuiteResult>, summary: &StatusCounts, total_duration_ms: u64) -> (xml:
    String)
    ensures
        xml@ == junit_xml(results@, *summary, total_duration_ms as nat),
{
    let mut out: Vec<char> = Vec::new();
    push_str(&mut out, "<?xml version=\"1.0\" encoding=\"UTF-8\"?>\n");
    push_str(&mut out, "<testsuites name=\"LDC Engine Tests\" tests=\"");
    push_decimal(&mut out, summary.total_suites);
    push_str(&mut out, "\" failures=\"");
    push_decimal(&mut out, summary.failed_suites);
    push_str(&mut out, "\" errors=\"");
    push_decimal(&mut out, summary.error_suites);
    push_str(&mut out, "\" time=\"");
    push_seconds(&mut out, total_duration_ms);
    push_str(&mut out, "\">\n");
    let ghost head = out@;
    let mut i: usize = 0;
    while i < results.len()
        invariant
            i <= results@.len(),
            out@ == head + junit_suites(results@.take(i as int)),
        decreases results.len() - i,
    {
        assert(results@.take(i as int + 1).drop_last() =~= results@.take(i as int));
        push_suite(&mut out, &results[i]);
        i = i + 1;
        assert(out@ =~= head + junit_suites(results@.take(i as int)));
    }
    assert(results@.take(i as int) =~= results@);
    push_str(&mut out, "</testsuites>\n");
    assert(out@ =~= junit_xml(results@, *summary, total_duration_ms as nat));
    string_from_chars(&out)
}

} // verus!
