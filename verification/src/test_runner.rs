use vstd::prelude::*;

use crate::tuning::texts;
use crate::text::{
    decimal, push_decimal, push_str, string_from_chars,
    chars_equal, chars_of, contains, find_from, occurs_at, ends_with, seq_contains, seq_ends_with, seq_starts_with,
    split_in_two, split_in_two_exec, starts_with, trim_start_char, trim_start_char_exec,
    trim_start_seq, trim_start_seq_exec,
};

verus! {

/// Category of a test suite.
#[derive(Debug, Clone, Copy, PartialEq, Eq, Structural, Hash)]
pub enum TestCategory {
    Unit,
    Integration,
    Performance,
    Mathematical,
    Backtesting,
    Statistical,
    Compatibility,
}

/// Outcome of a test suite.
#[derive(Debug, Clone, Copy, PartialEq, Eq, Structural)]
pub enum TestStatus {
    Passed,
    Failed,
    Timeout,
    Skipped,
    Error,
}

/// A test suite the runner can execute.
#[derive(Debug)]
pub struct TestSuite {
    pub name: String,
    pub category: TestCategory,
    pub command: String,
    pub args: Vec<String>,
    pub working_directory: Option<String>,
    pub environment: Vec<(String, String)>,
    pub timeout_seconds: Option<u64>,
    /// Suites that must have completed before this one runs.
    pub dependencies: Vec<String>,
    /// Path patterns of files whose change affects this suite.
    pub affected_by_files: Vec<String>,
    pub parallel_safe: bool,
}

/// Which suites to run.
#[derive(Debug)]
pub enum TestSelectionStrategy {
    All,
    /// Suites affected by the changed files (paths).
    ChangedFiles(Vec<String>),
    Categories(Vec<TestCategory>),
    /// Suites whose name contains the pattern.
    Pattern(String),
}

// ---------------------------------------------------------------------------
// Path patterns
// ---------------------------------------------------------------------------

/// Whether `file` matches `pattern`. A pattern with `**` splits there into a prefix
/// and a suffix (leading `/` removed): the file must start with the prefix and, when
/// the suffix is `*.ext`, end with `.ext`, otherwise end with the suffix (an empty
/// suffix matches anything). A pattern with a single `*` needs the file to start with
/// the part before it and end with the part after it. A pattern without `*` matches
/// a file equal to it or containing it.
pub open spec fn pattern_matches(file: Seq<char>, pattern: Seq<char>) -> bool {
    let double = seq_contains(pattern, "**"@);
    let single = seq_contains(pattern, "*"@);
    if double {
        match split_in_two(pattern, "**"@) {
            Some((prefix, rest)) => {
                let suffix = trim_start_char(rest, '/');
                if seq_starts_with(file, prefix) {
                    if suffix.len() == 0 {
                        true
                    } else if seq_starts_with(suffix, "*."@) {
                        seq_ends_with(file, "."@ + trim_start_seq(suffix, "*."@))
                    } else {
                        seq_ends_with(file, suffix)
                    }
                } else {
                    false
                }
            },
            None => false,
        }
    } else if single {
        match split_in_two(pattern, "*"@) {
            Some((prefix, suffix)) => seq_starts_with(file, prefix) && seq_ends_with(file, suffix),
            None => false,
        }
    } else {
        file == pattern || seq_contains(file, pattern)
    }
}

/// A pattern with exactly one `*`, between `prefix` and `suffix`, matches exactly
/// the files that begin with `prefix` and end with `suffix`; in particular no file
/// that does not end with the text after the `*` matches.
pub proof fn lemma_single_star_pattern(file: Seq<char>, prefix: Seq<char>, suffix: Seq<char>)
    requires
        forall|i: int| 0 <= i < prefix.len() ==> prefix[i] != '*',
        forall|i: int| 0 <= i < suffix.len() ==> suffix[i] != '*',
    ensures
        pattern_matches(file, prefix + "*"@ + suffix) <==> {
            &&& prefix.len() <= file.len()
            &&& file.subrange(0, prefix.len() as int) == prefix
            &&& suffix.len() <= file.len()
            &&& file.subrange(file.len() - suffix.len(), file.len() as int) == suffix
        },
{
    reveal_strlit("*");
    reveal_strlit("**");
    let star = "*"@;
    let pat = prefix + star + suffix;
    let p = prefix.len() as int;
    assert(star.len() == 1 && star[0] == '*');
    assert forall|i: int| 0 <= i < pat.len() && i != p implies pat[i] != '*' by {
        if i < p {
            assert(pat[i] == prefix[i]);
        } else {
            assert(pat[i] == suffix[i - p - 1]);
        }
    }
    assert(pat[p] == '*');
    // No "**" in the pattern.
    crate::text::lemma_find_from_some(pat, "**"@, 0);
    assert forall|j: int| 0 <= j implies !#[trigger] occurs_at(pat, "**"@, j) by {
        if occurs_at(pat, "**"@, j) {
            assert(pat.subrange(j, j + 2)[0] == '*');
            assert(pat.subrange(j, j + 2)[1] == '*');
            assert(pat[j] == '*' && pat[j + 1] == '*');
        }
    }
    assert(!seq_contains(pat, "**"@));
    // The single "*" is found at `p`, and not after it.
    crate::text::lemma_find_from_some(pat, star, 0);
    crate::text::lemma_find_from_some(pat, star, p + 1);
    assert(pat.subrange(p, p + 1) =~= star);
    assert(occurs_at(pat, star, p));
    assert forall|j: int| 0 <= j && j != p implies !#[trigger] occurs_at(pat, star, j) by {
        if occurs_at(pat, star, j) {
            assert(pat.subrange(j, j + 1)[0] == '*');
            assert(pat[j] == '*');
        }
    }
    assert(find_from(pat, star, 0) == Some(p));
    assert(seq_contains(pat, star));
    assert(find_from(pat, star, p + 1) is None);
    assert(pat.subrange(0, p) =~= prefix);
    assert(pat.subrange(p + 1, pat.len() as int) =~= suffix);
    assert(split_in_two(pat, star) == Some((prefix, suffix)));
}

/// Whether the path `file_path` matches the pattern `pattern`.
pub fn matches_pattern(file_path: &str, pattern: &str) -> (r: bool)
    ensures
        r == pattern_matches(file_path@, pattern@),
{
    let file = chars_of(file_path);
    let pat = chars_of(pattern);
    let dstar = chars_of("**");
    let star = chars_of("*");
    let star_dot = chars_of("*.");
    let dot = chars_of(".");
    proof {
        reveal_strlit("**");
        reveal_strlit("*");
        reveal_strlit("*.");
        reveal_strlit(".");
    }
    if contains(&pat, &dstar) {
        match split_in_two_exec(&pat, &dstar) {
            Some((prefix, rest)) => {
                let suffix = trim_start_char_exec(&rest, '/');
                if starts_with(&file, &prefix) {
                    if suffix.len() == 0 {
                        return true;
                    }
                    if starts_with(&suffix, &star_dot) {
                        let ext = trim_start_seq_exec(&suffix, &star_dot);
                        let mut wanted = dot;
                        let mut k: usize = 0;
                        while k < ext.len()
                            invariant
                                k <= ext@.len(),
                                wanted@ == "."@ + ext@.take(k as int),
                            decreases ext.len() - k,
                        {
                            wanted.push(ext[k]);
                            k = k + 1;
                            assert(wanted@ =~= "."@ + ext@.take(k as int));
                        }
                        assert(ext@.take(k as int) =~= ext@);
                        return ends_with(&file, &wanted);
                    }
                    return ends_with(&file, &suffix);
                }
                false
            },
            None => false,
        }
    } else if contains(&pat, &star) {
        match split_in_two_exec(&pat, &star) {
            Some((prefix, suffix)) => starts_with(&file, &prefix) && ends_with(&file, &suffix),
            None => false,
        }
    } else {
        chars_equal(&file, &pat) || contains(&file, &pat)
    }
}

// ---------------------------------------------------------------------------
// Selecting suites
// ---------------------------------------------------------------------------

/// The indices `i < n` with `pred(i)`, in increasing order.
pub open spec fn indices_where(n: nat, pred: spec_fn(int) -> bool) -> Seq<usize>
    decreases n,
{
    if n == 0 {
        Seq::empty()
    } else {
        let prev = indices_where((n - 1) as nat, pred);
        if pred(n - 1) {
            prev.push((n - 1) as usize)
        } else {
            prev
        }
    }
}

/// Suite `i` is affected by one of the changed files.
pub open spec fn suite_affected(suite: TestSuite, changed: Seq<String>) -> bool {
    exists|p: int, f: int|
        0 <= p < suite.affected_by_files@.len() && 0 <= f < changed.len() && pattern_matches(
            changed[f]@,
            suite.affected_by_files@[p]@,
        )
}

/// Position of the first suite named `unit_tests`, if any.
pub open spec fn first_unit_tests(suites: Seq<TestSuite>) -> Option<int> {
    if exists|i: int| 0 <= i < suites.len() && suites[i].name@ == "unit_tests"@ {
        Some(
            choose|i: int|
                0 <= i < suites.len() && suites[i].name@ == "unit_tests"@ && forall|j: int|
                    0 <= j < i ==> suites[j].name@ != "unit_tests"@,
        )
    } else {
        None
    }
}

/// Whether a strategy takes suite `i` on its own merits (before `unit_tests` is
/// added for changed files).
pub open spec fn strategy_takes(suites: Seq<TestSuite>, strategy: TestSelectionStrategy) -> spec_fn(
    int,
) -> bool {
    match strategy {
        TestSelectionStrategy::All => |i: int| true,
        TestSelectionStrategy::Categories(cats) => |i: int| cats@.contains(suites[i].category),
        TestSelectionStrategy::Pattern(p) => |i: int| seq_contains(suites[i].name@, p@),
        TestSelectionStrategy::ChangedFiles(files) => |i: int| suite_affected(suites[i], files@),
    }
}

/// Some selected position holds the suite named `unit_tests`.
pub open spec fn has_unit_tests(suites: Seq<TestSuite>, picked: Seq<usize>) -> bool {
    exists|j: int| 0 <= j < picked.len() && suites[picked[j] as int].name@ == "unit_tests"@
}

/// The positions of the suites a strategy selects, in order. For changed files, the
/// `unit_tests` suite is added at the end when files changed and it was not selected.
pub open spec fn selected_indices(suites: Seq<TestSuite>, strategy: TestSelectionStrategy) -> Seq<
    usize,
> {
    let picked = indices_where(suites.len(), strategy_takes(suites, strategy));
    match strategy {
        TestSelectionStrategy::ChangedFiles(files) => {
            if files@.len() > 0 && !has_unit_tests(suites, picked) {
                match first_unit_tests(suites) {
                    Some(u) => picked.push(u as usize),
                    None => picked,
                }
            } else {
                picked
            }
        },
        _ => picked,
    }
}

proof fn lemma_indices_below(n: nat, pred: spec_fn(int) -> bool)
    requires
        n <= usize::MAX,
    ensures
        forall|k: int| 0 <= k < indices_where(n, pred).len() ==> indices_where(n, pred)[k] < n,
    decreases n,
{
    if n > 0 {
        let prev = indices_where((n - 1) as nat, pred);
        lemma_indices_below((n - 1) as nat, pred);
        if pred(n - 1) {
            let next = prev.push((n - 1) as usize);
            assert forall|k: int| 0 <= k < next.len() implies #[trigger] next[k] < n by {
                if k < prev.len() {
                    assert(next[k] == prev[k]);
                }
            }
        }
    }
}

proof fn lemma_first_unit_tests(suites: Seq<TestSuite>, u: int)
    requires
        0 <= u < suites.len(),
        suites[u].name@ == "unit_tests"@,
        forall|m: int| 0 <= m < u ==> suites[m].name@ != "unit_tests"@,
    ensures
        first_unit_tests(suites) == Some(u),
{
    let i = choose|i: int|
        0 <= i < suites.len() && suites[i].name@ == "unit_tests"@ && forall|j: int|
            0 <= j < i ==> suites[j].name@ != "unit_tests"@;
    assert(0 <= i < suites.len() && suites[i].name@ == "unit_tests"@ && forall|j: int|
        0 <= j < i ==> suites[j].name@ != "unit_tests"@);
    if i < u {
        assert(suites[i].name@ != "unit_tests"@);
    }
    if u < i {
        assert(suites[u].name@ != "unit_tests"@);
    }
}

fn name_is_unit_tests(s: &TestSuite) -> (r: bool)
    ensures
        r == (s.name@ == "unit_tests"@),
{
    let a = chars_of(s.name.as_str());
    let b = chars_of("unit_tests");
    chars_equal(&a, &b)
}

fn category_in(cats: &Vec<TestCategory>, c: TestCategory) -> (r: bool)
    ensures
        r == cats@.contains(c),
{
    let mut i: usize = 0;
    while i < cats.len()
        invariant
            i <= cats@.len(),
            forall|j: int| 0 <= j < i ==> cats@[j] != c,
        decreases cats.len() - i,
    {
        if cats[i] == c {
            return true;
        }
        i = i + 1;
    }
    false
}

fn is_affected(suite: &TestSuite, files: &Vec<String>) -> (r: bool)
    ensures
        r == suite_affected(*suite, files@),
{
    let mut p: usize = 0;
    while p < suite.affected_by_files.len()
        invariant
            p <= suite.affected_by_files@.len(),
            forall|pp: int, f: int|
                0 <= pp < p && 0 <= f < files@.len() ==> !pattern_matches(
                    files@[f]@,
                    suite.affected_by_files@[pp]@,
                ),
        decreases suite.affected_by_files.len() - p,
    {
        let mut f: usize = 0;
        while f < files.len()
            invariant
                p < suite.affected_by_files@.len(),
                f <= files@.len(),
                forall|pp: int, ff: int|
                    0 <= pp < p && 0 <= ff < files@.len() ==> !pattern_matches(
                        files@[ff]@,
                        suite.affected_by_files@[pp]@,
                    ),
                forall|ff: int|
                    0 <= ff < f ==> !pattern_matches(files@[ff]@, suite.affected_by_files@[p as int]@),
            decreases files.len() - f,
        {
            if matches_pattern(files[f].as_str(), suite.affected_by_files[p].as_str()) {
                return true;
            }
            f = f + 1;
        }
        p = p + 1;
    }
    false
}

/// Adds the first `unit_tests` suite to the suites picked for changed files when
/// files changed and none of the picked suites is `unit_tests`.
fn add_unit_tests(suites: &Vec<TestSuite>, files: &Vec<String>, picked: Vec<usize>) -> (out: Vec<
    usize,
>)
    requires
        forall|k: int| 0 <= k < picked@.len() ==> picked@[k] < suites@.len(),
    ensures
        out@ == (if files@.len() > 0 && !has_unit_tests(suites@, picked@) {
            match first_unit_tests(suites@) {
                Some(u) => picked@.push(u as usize),
                None => picked@,
            }
        } else {
            picked@
        }),
{
    let mut out = picked;
    if files.len() == 0 {
        return out;
    }
    let mut has_unit = false;
    let mut j: usize = 0;
    while j < out.len()
        invariant
            j <= out@.len(),
            out@ == picked@,
            forall|k: int| 0 <= k < out@.len() ==> out@[k] < suites@.len(),
            has_unit == exists|m: int|
                0 <= m < j && suites@[out@[m] as int].name@ == "unit_tests"@,
        decreases out.len() - j,
    {
        if name_is_unit_tests(&suites[out[j]]) {
            has_unit = true;
        }
        j = j + 1;
    }
    assert(has_unit == has_unit_tests(suites@, picked@));
    if has_unit {
        return out;
    }
    let mut u: usize = 0;
    while u < suites.len()
        invariant
            u <= suites@.len(),
            out@ == picked@,
            files@.len() > 0,
            !has_unit_tests(suites@, picked@),
            forall|m: int| 0 <= m < u ==> suites@[m].name@ != "unit_tests"@,
        decreases suites.len() - u,
    {
        if name_is_unit_tests(&suites[u]) {
            proof {
                lemma_first_unit_tests(suites@, u as int);
            }
            out.push(u);
            return out;
        }
        u = u + 1;
    }
    assert(first_unit_tests(suites@) is None);
    out
}

/// Positions of the suites that `strategy` selects, in the order they are run.
pub fn select_test_suites(suites: &Vec<TestSuite>, strategy: &TestSelectionStrategy) -> (out: Vec<
    usize,
>)
    ensures
        out@ == selected_indices(suites@, *strategy),
{
    let ghost pred = strategy_takes(suites@, *strategy);
    let mut out: Vec<usize> = Vec::new();
    let mut i: usize = 0;
    while i < suites.len()
        invariant
            i <= suites@.len(),
            pred == strategy_takes(suites@, *strategy),
            out@ == indices_where(i as nat, pred),
        decreases suites.len() - i,
    {
        let take = match strategy {
            TestSelectionStrategy::All => true,
            TestSelectionStrategy::Categories(cats) => category_in(cats, suites[i].category),
            TestSelectionStrategy::Pattern(p) => {
                let name = chars_of(suites[i].name.as_str());
                let pat = chars_of(p.as_str());
                contains(&name, &pat)
            },
            TestSelectionStrategy::ChangedFiles(files) => is_affected(&suites[i], files),
        };
        assert(take == pred(i as int));
        if take {
            out.push(i);
        }
        i = i + 1;
    }
    proof {
        lemma_indices_below(suites@.len(), pred);
    }
    match strategy {
        TestSelectionStrategy::ChangedFiles(files) => add_unit_tests(suites, files, out),
        _ => out,
    }
}

// ---------------------------------------------------------------------------
// Summaries
// ---------------------------------------------------------------------------

/// Number of statuses equal to `st`.
pub open spec fn count_status(s: Seq<TestStatus>, st: TestStatus) -> nat
    decreases s.len(),
{
    if s.len() == 0 {
        0
    } else {
        count_status(s.drop_last(), st) + if s.last() == st {
            1nat
        } else {
            0nat
        }
    }
}

/// The overall status of a run: failed when a suite failed or errored, passed when
/// all passed, an error otherwise (timeouts or skips without failures).
pub open spec fn overall_status(s: Seq<TestStatus>) -> TestStatus {
    if count_status(s, TestStatus::Failed) > 0 || count_status(s, TestStatus::Error) > 0 {
        TestStatus::Failed
    } else if s.len() == count_status(s, TestStatus::Passed) {
        TestStatus::Passed
    } else {
        TestStatus::Error
    }
}

/// Counts of a run's outcomes.
#[derive(Debug, Clone, Copy, PartialEq, Eq, Structural)]
pub struct StatusCounts {
    pub total_suites: usize,
    pub passed_suites: usize,
    pub failed_suites: usize,
    pub skipped_suites: usize,
    pub error_suites: usize,
    pub overall_status: TestStatus,
}

proof fn lemma_count_status_le(s: Seq<TestStatus>, st: TestStatus)
    ensures
        count_status(s, st) <= s.len(),
    decreases s.len(),
{
    if s.len() > 0 {
        lemma_count_status_le(s.drop_last(), st);
    }
}

/// The counts of passed, failed, skipped and errored suites and the overall status.
pub fn summarize_statuses(statuses: &Vec<TestStatus>) -> (c: StatusCounts)
    ensures
        c.total_suites == statuses@.len(),
        c.passed_suites == count_status(statuses@, TestStatus::Passed),
        c.failed_suites == count_status(statuses@, TestStatus::Failed),
        c.skipped_suites == count_status(statuses@, TestStatus::Skipped),
        c.error_suites == count_status(statuses@, TestStatus::Error),
        c.overall_status == overall_status(statuses@),
{
    let mut passed: usize = 0;
    let mut failed: usize = 0;
    let mut skipped: usize = 0;
    let mut errors: usize = 0;
    let mut i: usize = 0;
    while i < statuses.len()
        invariant
            i <= statuses@.len(),
            passed == count_status(statuses@.take(i as int), TestStatus::Passed),
            failed == count_status(statuses@.take(i as int), TestStatus::Failed),
            skipped == count_status(statuses@.take(i as int), TestStatus::Skipped),
            errors == count_status(statuses@.take(i as int), TestStatus::Error),
        decreases statuses.len() - i,
    {
        proof {
            lemma_count_status_le(statuses@.take(i as int), TestStatus::Passed);
            lemma_count_status_le(statuses@.take(i as int), TestStatus::Failed);
            lemma_count_status_le(statuses@.take(i as int), TestStatus::Skipped);
            lemma_count_status_le(statuses@.take(i as int), TestStatus::Error);
        }
        assert(statuses@.take(i as int + 1).drop_last() =~= statuses@.take(i as int));
        match statuses[i] {
            TestStatus::Passed => passed = passed + 1,
            TestStatus::Failed => failed = failed + 1,
            TestStatus::Skipped => skipped = skipped + 1,
            TestStatus::Error => errors = errors + 1,
            TestStatus::Timeout => {},
        }
        i = i + 1;
    }
    assert(statuses@.take(i as int) =~= statuses@);
    let total = statuses.len();
    let overall = if failed > 0 || errors > 0 {
        TestStatus::Failed
    } else if total == passed {
        TestStatus::Passed
    } else {
        TestStatus::Error
    };
    StatusCounts {
        total_suites: total,
        passed_suites: passed,
        failed_suites: failed,
        skipped_suites: skipped,
        error_suites: errors,
        overall_status: overall,
    }
}

/// Process exit code for a run's overall status: 0 passed or skipped, 1 failed,
/// 2 error, 3 timeout.
pub fn get_exit_code(status: TestStatus) -> (code: i32)
    ensures
        code == match status {
            TestStatus::Passed => 0i32,
            TestStatus::Failed => 1,
            TestStatus::Error => 2,
            TestStatus::Timeout => 3,
            TestStatus::Skipped => 0,
        },
{
    match status {
        TestStatus::Passed => 0,
        TestStatus::Failed => 1,
        TestStatus::Error => 2,
        TestStatus::Timeout => 3,
        TestStatus::Skipped => 0,
    }
}

/// A run is reported as passed exactly when every suite passed (the build then
/// succeeds), and any failed or errored suite makes the exit code 1.
pub proof fn lemma_overall_status(s: Seq<TestStatus>)
    ensures
        overall_status(s) == TestStatus::Passed <==> count_status(s, TestStatus::Failed) == 0
            && count_status(s, TestStatus::Error) == 0 && count_status(s, TestStatus::Passed)
            == s.len(),
        (count_status(s, TestStatus::Failed) > 0 || count_status(s, TestStatus::Error) > 0)
            ==> overall_status(s) == TestStatus::Failed,
{
}

/// `name` is one of `names`.
pub open spec fn named_in(names: Seq<String>, name: Seq<char>) -> bool {
    exists|c: int| 0 <= c < names.len() && names[c]@ == name
}

/// A suite can run when every dependency is among the completed suites.
pub fn can_execute_suite(suite: &TestSuite, completed: &Vec<String>) -> (r: bool)
    ensures
        r == forall|d: int|
            0 <= d < suite.dependencies@.len() ==> named_in(
                completed@,
                #[trigger] suite.dependencies@[d]@,
            ),
{
    let mut d: usize = 0;
    while d < suite.dependencies.len()
        invariant
            d <= suite.dependencies@.len(),
            forall|dd: int|
                0 <= dd < d ==> named_in(completed@, #[trigger] suite.dependencies@[dd]@),
        decreases suite.dependencies.len() - d,
    {
        let mut found = false;
        let mut c: usize = 0;
        while c < completed.len()
            invariant
                d < suite.dependencies@.len(),
                c <= completed@.len(),
                found == exists|cc: int|
                    0 <= cc < c && completed@[cc]@ == suite.dependencies@[d as int]@,
            decreases completed.len() - c,
        {
            if completed[c] == suite.dependencies[d] {
                found = true;
            }
            c = c + 1;
        }
        if !found {
            assert(!named_in(completed@, suite.dependencies@[d as int]@));
            return false;
        }
        d = d + 1;
    }
    true
}

// ---------------------------------------------------------------------------
// Running order
// ---------------------------------------------------------------------------

/// The selected positions whose suites have parallel safety `safe`, in order.
pub open spec fn with_safety(suites: Seq<TestSuite>, selected: Seq<usize>, safe: bool) -> Seq<usize>
    decreases selected.len(),
{
    if selected.len() == 0 {
        Seq::empty()
    } else {
        let prev = with_safety(suites, selected.drop_last(), safe);
        if suites[selected.last() as int].parallel_safe == safe {
            prev.push(selected.last())
        } else {
            prev
        }
    }
}

/// Splits the selected suites into those that must run one at a time and those
/// that may run in parallel, each in the order selected. The first group runs first.
pub fn partition_by_parallel_safety(suites: &Vec<TestSuite>, selected: &Vec<usize>) -> (r: (
    Vec<usize>,
    Vec<usize>,
))
    requires
        forall|k: int| 0 <= k < selected@.len() ==> #[trigger] selected@[k] < suites@.len(),
    ensures
        r.0@ == with_safety(suites@, selected@, false),
        r.1@ == with_safety(suites@, selected@, true),
{
    let mut sequential: Vec<usize> = Vec::new();
    let mut parallel: Vec<usize> = Vec::new();
    let mut k: usize = 0;
    while k < selected.len()
        invariant
            k <= selected@.len(),
            forall|j: int| 0 <= j < selected@.len() ==> #[trigger] selected@[j] < suites@.len(),
            sequential@ == with_safety(suites@, selected@.take(k as int), false),
            parallel@ == with_safety(suites@, selected@.take(k as int), true),
        decreases selected.len() - k,
    {
        assert(selected@.take(k as int + 1).drop_last() =~= selected@.take(k as int));
        assert(selected@.take(k as int + 1).last() == selected@[k as int]);
        let i = selected[k];
        if suites[i].parallel_safe {
            parallel.push(i);
        } else {
            sequential.push(i);
        }
        k = k + 1;
    }
    assert(selected@.take(selected@.len() as int) =~= selected@);
    (sequential, parallel)
}

/// Every dependency of `suite` is among the completed suites.
pub open spec fn deps_met(suite: TestSuite, completed: Seq<String>) -> bool {
    forall|d: int|
        0 <= d < suite.dependencies@.len() ==> named_in(completed, #[trigger] suite.dependencies@[d]@)
}

/// Position in `order`, from `k` on, of the first suite whose dependencies are met.
pub open spec fn first_runnable(
    suites: Seq<TestSuite>,
    order: Seq<usize>,
    completed: Seq<String>,
    k: int,
) -> Option<int>
    decreases order.len() - k,
{
    if k < 0 || k >= order.len() {
        None
    } else if deps_met(suites[order[k] as int], completed) {
        Some(k)
    } else {
        first_runnable(suites, order, completed, k + 1)
    }
}

/// A status that stops a run that stops on failure.
pub open spec fn is_failure(status: TestStatus) -> bool {
    status == TestStatus::Failed || status == TestStatus::Error
}

/// Suites run one after another in a given order: a suite whose dependencies have
/// not completed when its turn comes is passed over, and a run that stops on
/// failure ends after the first suite that failed or erred.
pub struct SuiteQueue {
    order: Vec<usize>,
    next: usize,
    stop_on_failure: bool,
    stopped: bool,
    completed: Vec<String>,
}

impl SuiteQueue {
    /// The positions of the suites, in running order.
    pub closed spec fn order(&self) -> Seq<usize> {
        self.order@
    }

    /// How far along the order the queue is.
    pub closed spec fn position(&self) -> nat {
        self.next as nat
    }

    /// Whether the run ends at the first failure.
    pub closed spec fn stops_on_failure(&self) -> bool {
        self.stop_on_failure
    }

    /// Whether a failure ended the run.
    pub closed spec fn is_stopped(&self) -> bool {
        self.stopped
    }

    /// The names of the suites that have completed.
    pub closed spec fn completed_names(&self) -> Seq<String> {
        self.completed@
    }

    pub closed spec fn wf(&self) -> bool {
        self.next <= self.order@.len()
    }

    /// A queue over `order` that starts with `completed` already done.
    pub fn new(order: Vec<usize>, stop_on_failure: bool, completed: Vec<String>) -> (q: SuiteQueue)
        ensures
            q.wf(),
            q.order() == order@,
            q.position() == 0,
            q.stops_on_failure() == stop_on_failure,
            !q.is_stopped(),
            q.completed_names() == completed@,
    {
        SuiteQueue { order, next: 0, stop_on_failure, stopped: false, completed }
    }

    /// The next suite to run, if any: nothing once a failure ended the run,
    /// otherwise the first suite from the current position whose dependencies have
    /// completed; the suites passed over are not run.
    pub fn next_runnable(&mut self, suites: &Vec<TestSuite>) -> (r: Option<usize>)
        requires
            old(self).wf(),
            forall|k: int|
                0 <= k < old(self).order().len() ==> #[trigger] old(self).order()[k] < suites@.len(),
        ensures
            final(self).wf(),
            final(self).order() == old(self).order(),
            final(self).stops_on_failure() == old(self).stops_on_failure(),
            final(self).is_stopped() == old(self).is_stopped(),
            final(self).completed_names() == old(self).completed_names(),
            old(self).is_stopped() ==> r is None && final(self).position() == old(self).position(),
            !old(self).is_stopped() ==> match first_runnable(
                suites@,
                old(self).order(),
                old(self).completed_names(),
                old(self).position() as int,
            ) {
                None => r is None && final(self).position() == old(self).order().len(),
                Some(k) => r == Some(old(self).order()[k]) && final(self).position() == k + 1,
            },
            r matches Some(i) ==> i < suites@.len() && deps_met(suites@[i as int], old(self).completed_names()),
    {
        if self.stopped {
            return None;
        }
        let ghost start = self.next as int;
        while self.next < self.order.len()
            invariant
                self.next <= self.order@.len(),
                start <= self.next,
                start == old(self).next as int,
                !old(self).stopped,
                self.order@ == old(self).order@,
                self.completed@ == old(self).completed@,
                self.stop_on_failure == old(self).stop_on_failure,
                self.stopped == old(self).stopped,
                forall|k: int| 0 <= k < self.order@.len() ==> #[trigger] self.order@[k] < suites@.len(),
                first_runnable(suites@, self.order@, self.completed@, start) == first_runnable(
                    suites@,
                    self.order@,
                    self.completed@,
                    self.next as int,
                ),
            decreases self.order.len() - self.next,
        {
            let i = self.order[self.next];
            if can_execute_suite(&suites[i], &self.completed) {
                self.next = self.next + 1;
                return Some(i);
            }
            self.next = self.next + 1;
        }
        None
    }

    /// Records that the suite named `name` completed with `status`.
    pub fn record(&mut self, name: String, status: TestStatus)
        ensures
            final(self).wf() == old(self).wf(),
            final(self).order() == old(self).order(),
            final(self).position() == old(self).position(),
            final(self).stops_on_failure() == old(self).stops_on_failure(),
            final(self).completed_names() == old(self).completed_names().push(name),
            final(self).is_stopped() == (old(self).is_stopped() || (old(self).stops_on_failure()
                && is_failure(status))),
    {
        self.completed.push(name);
        if self.stop_on_failure && (status == TestStatus::Failed || status == TestStatus::Error) {
            self.stopped = true;
        }
    }

    /// The names of the suites that have completed, in order.
    pub fn into_completed(self) -> (names: Vec<String>)
        ensures
            names@ == self.completed_names(),
    {
        self.completed
    }
}

// ---------------------------------------------------------------------------
// The suites of this project
// ---------------------------------------------------------------------------

/// The suite's fields are the given values; it runs `cargo` in the current
/// directory with no extra environment.
pub open spec fn suite_is(
    s: TestSuite,
    name: Seq<char>,
    category: TestCategory,
    args: Seq<Seq<char>>,
    timeout_seconds: u64,
    dependencies: Seq<Seq<char>>,
    affected_by_files: Seq<Seq<char>>,
    parallel_safe: bool,
) -> bool {
    &&& s.name@ == name
    &&& s.category == category
    &&& s.command@ == "cargo"@
    &&& texts(s.args@) == args
    &&& s.working_directory is None
    &&& s.environment@.len() == 0
    &&& s.timeout_seconds == Some(timeout_seconds)
    &&& texts(s.dependencies@) == dependencies
    &&& texts(s.affected_by_files@) == affected_by_files
    &&& s.parallel_safe == parallel_safe
}

fn strings(items: &Vec<&str>) -> (out: Vec<String>)
    ensures
        out@.len() == items@.len(),
        forall|i: int| 0 <= i < items@.len() ==> #[trigger] out@[i]@ == items@[i]@,
{
    let mut out: Vec<String> = Vec::new();
    let mut i: usize = 0;
    while i < items.len()
        invariant
            i <= items@.len(),
            out@.len() == i,
            forall|k: int| 0 <= k < i ==> #[trigger] out@[k]@ == items@[k]@,
        decreases items.len() - i,
    {
        out.push(items[i].to_owned());
        i = i + 1;
    }
    out
}

fn cargo_suite(
    name: &str,
    category: TestCategory,
    args: Vec<&str>,
    timeout_seconds: u64,
    dependencies: Vec<&str>,
    affected_by_files: Vec<&str>,
    parallel_safe: bool,
) -> (s: TestSuite)
    ensures
        s.name@ == name@,
        s.category == category,
        s.command@ == "cargo"@,
        texts(s.args@) =~= args@.map_values(|a: &str| a@),
        s.working_directory is None,
        s.environment@.len() == 0,
        s.timeout_seconds == Some(timeout_seconds),
        texts(s.dependencies@) =~= dependencies@.map_values(|a: &str| a@),
        texts(s.affected_by_files@) =~= affected_by_files@.map_values(|a: &str| a@),
        s.parallel_safe == parallel_safe,
{
    proof {
        reveal_strlit("cargo");
    }
    TestSuite {
        name: name.to_owned(),
        category,
        command: "cargo".to_owned(),
        args: strings(&args),
        working_directory: None,
        environment: Vec::new(),
        timeout_seconds: Some(timeout_seconds),
        dependencies: strings(&dependencies),
        affected_by_files: strings(&affected_by_files),
        parallel_safe,
    }
}

/// The project's eight suites, in the order they are listed: unit tests,
/// mathematical accuracy, performance validation, integration, backtesting,
/// statistical analysis, Pine Script compatibility and benchmarks. Performance
/// validation and benchmarks must run alone; integration, backtesting,
/// statistical analysis and compatibility need the unit tests first.
pub fn discover_test_suites() -> (suites: Vec<TestSuite>)
    ensures
        suites@.len() == 8,
        suite_is(
            suites@[0],
            "unit_tests"@,
            TestCategory::Unit,
            seq!["test"@, "--lib"@],
            120,
            seq![],
            seq!["src/**/*.rs"@],
            true,
        ),
        suite_is(
            suites@[1],
            "mathematical_accuracy"@,
            TestCategory::Mathematical,
            seq!["test"@, "mathematical_accuracy"@],
            180,
            seq![],
            seq!["src/**/*.rs"@, "tests/mathematical_accuracy_tests.rs"@],
            true,
        ),
        suite_is(
            suites@[2],
            "performance_validation"@,
            TestCategory::Performance,
            seq!["test"@, "performance_validation"@, "--release"@],
            300,
            seq![],
            seq!["src/**/*.rs"@, "tests/performance_validation_tests.rs"@],
            false,
        ),
        suite_is(
            suites@[3],
            "integration_tests"@,
            TestCategory::Integration,
            seq!["test"@, "integration"@],
            240,
            seq!["unit_tests"@],
            seq!["src/**/*.rs"@, "tests/**/*.rs"@],
            true,
        ),
        suite_is(
            suites@[4],
            "backtesting_tests"@,
            TestCategory::Backtesting,
            seq!["test"@, "backtesting"@],
            300,
            seq!["unit_tests"@],
            seq!["src/backtesting.rs"@, "src/**/*.rs"@],
            true,
        ),
        suite_is(
            suites@[5],
            "statistical_analysis"@,
            TestCategory::Statistical,
            seq!["test"@, "statistical"@],
            180,
            seq!["unit_tests"@],
            seq!["src/statistical_analysis.rs"@, "src/**/*.rs"@],
            true,
        ),
        suite_is(
            suites@[6],
            "pine_script_compatibility"@,
            TestCategory::Compatibility,
            seq!["test"@, "pine_script_compatibility"@],
            120,
            seq!["unit_tests"@],
            seq!["src/**/*.rs"@, "tests/pine_script_compatibility_tests.rs"@],
            true,
        ),
        suite_is(
            suites@[7],
            "benchmarks"@,
            TestCategory::Performance,
            seq!["bench"@],
            600,
            seq![],
            seq!["src/**/*.rs"@, "benches/**/*.rs"@],
            false,
        ),
{
    let mut suites: Vec<TestSuite> = Vec::new();
    let args0 = vec!["test", "--lib"];
    let deps0: Vec<&str> = vec![];
    let files0 = vec!["src/**/*.rs"];
    proof {
        assert(args0@.map_values(|a: &str| a@) =~= seq!["test"@, "--lib"@]);
        assert(deps0@.map_values(|a: &str| a@) =~= seq![]);
        assert(files0@.map_values(|a: &str| a@) =~= seq!["src/**/*.rs"@]);
    }
    suites.push(cargo_suite("unit_tests", TestCategory::Unit, args0, 120, deps0, files0, true));
    let args1 = vec!["test", "mathematical_accuracy"];
    let deps1: Vec<&str> = vec![];
    let files1 = vec!["src/**/*.rs", "tests/mathematical_accuracy_tests.rs"];
    proof {
        assert(args1@.map_values(|a: &str| a@) =~= seq!["test"@, "mathematical_accuracy"@]);
        assert(deps1@.map_values(|a: &str| a@) =~= seq![]);
        assert(files1@.map_values(|a: &str| a@) =~= seq!["src/**/*.rs"@, "tests/mathematical_accuracy_tests.rs"@]);
    }
    suites.push(cargo_suite("mathematical_accuracy", TestCategory::Mathematical, args1, 180, deps1, files1, true));
    let args2 = vec!["test", "performance_validation", "--release"];
    let deps2: Vec<&str> = vec![];
    let files2 = vec!["src/**/*.rs", "tests/performance_validation_tests.rs"];
    proof {
        assert(args2@.map_values(|a: &str| a@) =~= seq!["test"@, "performance_validation"@, "--release"@]);
        assert(deps2@.map_values(|a: &str| a@) =~= seq![]);
        assert(files2@.map_values(|a: &str| a@) =~= seq!["src/**/*.rs"@, "tests/performance_validation_tests.rs"@]);
    }
    suites.push(cargo_suite("performance_validation", TestCategory::Performance, args2, 300, deps2, files2, false));
    let args3 = vec!["test", "integration"];
    let deps3: Vec<&str> = vec!["unit_tests"];
    let files3 = vec!["src/**/*.rs", "tests/**/*.rs"];
    proof {
        assert(args3@.map_values(|a: &str| a@) =~= seq!["test"@, "integration"@]);
        assert(deps3@.map_values(|a: &str| a@) =~= seq!["unit_tests"@]);
        assert(files3@.map_values(|a: &str| a@) =~= seq!["src/**/*.rs"@, "tests/**/*.rs"@]);
    }
    suites.push(cargo_suite("integration_tests", TestCategory::Integration, args3, 240, deps3, files3, true));
    let args4 = vec!["test", "backtesting"];
    let deps4: Vec<&str> = vec!["unit_tests"];
    let files4 = vec!["src/backtesting.rs", "src/**/*.rs"];
    proof {
        assert(args4@.map_values(|a: &str| a@) =~= seq!["test"@, "backtesting"@]);
        assert(deps4@.map_values(|a: &str| a@) =~= seq!["unit_tests"@]);
        assert(files4@.map_values(|a: &str| a@) =~= seq!["src/backtesting.rs"@, "src/**/*.rs"@]);
    }
    suites.push(cargo_suite("backtesting_tests", TestCategory::Backtesting, args4, 300, deps4, files4, true));
    let args5 = vec!["test", "statistical"];
    let deps5: Vec<&str> = vec!["unit_tests"];
    let files5 = vec!["src/statistical_analysis.rs", "src/**/*.rs"];
    proof {
        assert(args5@.map_values(|a: &str| a@) =~= seq!["test"@, "statistical"@]);
        assert(deps5@.map_values(|a: &str| a@) =~= seq!["unit_tests"@]);
        assert(files5@.map_values(|a: &str| a@) =~= seq!["src/statistical_analysis.rs"@, "src/**/*.rs"@]);
    }
    suites.push(cargo_suite("statistical_analysis", TestCategory::Statistical, args5, 180, deps5, files5, true));
    let args6 = vec!["test", "pine_script_compatibility"];
    let deps6: Vec<&str> = vec!["unit_tests"];
    let files6 = vec!["src/**/*.rs", "tests/pine_script_compatibility_tests.rs"];
    proof {
        assert(args6@.map_values(|a: &str| a@) =~= seq!["test"@, "pine_script_compatibility"@]);
        assert(deps6@.map_values(|a: &str| a@) =~= seq!["unit_tests"@]);
        assert(files6@.map_values(|a: &str| a@) =~= seq!["src/**/*.rs"@, "tests/pine_script_compatibility_tests.rs"@]);
    }
    suites.push(cargo_suite("pine_script_compatibility", TestCategory::Compatibility, args6, 120, deps6, files6, true));
    let args7 = vec!["bench"];
    let deps7: Vec<&str> = vec![];
    let files7 = vec!["src/**/*.rs", "benches/**/*.rs"];
    proof {
        assert(args7@.map_values(|a: &str| a@) =~= seq!["bench"@]);
        assert(deps7@.map_values(|a: &str| a@) =~= seq![]);
        assert(files7@.map_values(|a: &str| a@) =~= seq!["src/**/*.rs"@, "benches/**/*.rs"@]);
    }
    suites.push(cargo_suite("benchmarks", TestCategory::Performance, args7, 600, deps7, files7, false));
    suites
}

// ---------------------------------------------------------------------------
// Results, history and recommendations
// ---------------------------------------------------------------------------

/// How a suite ran. Times are Unix seconds; the memory and CPU figures of the
/// performance metrics are `f64` held as their bits.
#[derive(Debug)]
pub struct TestSuiteResult {
    pub suite_name: String,
    pub category: TestCategory,
    pub status: TestStatus,
    pub start_time: i64,
    pub end_time: i64,
    pub duration_ms: u64,
    pub exit_code: Option<i32>,
    pub stdout: String,
    pub stderr: String,
    pub performance_metrics: Option<SuiteMetrics>,
    pub error_details: Option<String>,
}

/// Resource use of a suite: memory and CPU are `f64` held as their bits, as are
/// the values of the custom metrics.
#[derive(Debug)]
pub struct SuiteMetrics {
    pub execution_time_ms: u64,
    pub memory_usage_mb: u64,
    pub cpu_usage_percent: u64,
    pub custom_metrics: Vec<(String, u64)>,
}

/// One run of the runner, for trend analysis.
#[derive(Debug)]
pub struct TestExecutionRecord {
    pub timestamp: i64,
    pub git_commit: Option<String>,
    pub results: Vec<TestSuiteResult>,
    pub overall_status: TestStatus,
    pub total_duration_ms: u64,
}

/// The runs kept, oldest first, and how many are kept.
#[derive(Debug)]
pub struct TestHistory {
    pub executions: Vec<TestExecutionRecord>,
    pub max_history_entries: usize,
}

/// The runs kept after recording one more: the newest `max` (all, when fewer).
pub open spec fn kept_runs(h: Seq<TestExecutionRecord>, r: TestExecutionRecord, max: nat) -> Seq<
    TestExecutionRecord,
> {
    let pushed = h.push(r);
    if pushed.len() > max {
        pushed.skip(pushed.len() - max)
    } else {
        pushed
    }
}

impl TestHistory {
    /// Records a run, dropping the oldest runs beyond the limit.
    pub fn update_test_history(&mut self, record: TestExecutionRecord)
        ensures
            final(self).executions@ == kept_runs(
                old(self).executions@,
                record,
                old(self).max_history_entries as nat,
            ),
            final(self).max_history_entries == old(self).max_history_entries,
    {
        let ghost pushed = self.executions@.push(record);
        self.executions.push(record);
        if self.executions.len() > self.max_history_entries {
            let excess = self.executions.len() - self.max_history_entries;
            let mut kept: Vec<TestExecutionRecord> = Vec::new();
            let mut old_runs: Vec<TestExecutionRecord> = Vec::new();
            std::mem::swap(&mut old_runs, &mut self.executions);
            let mut i: usize = 0;
            let n = old_runs.len();
            while old_runs.len() > 0
                invariant
                    old_runs@.len() + i == n,
                    n == pushed.len(),
                    old_runs@ == pushed.skip(i as int),
                    i <= excess ==> kept@.len() == 0,
                    i > excess ==> kept@ == pushed.subrange(excess as int, i as int),
                    excess == n - self.max_history_entries,
                    excess <= n,
                decreases old_runs.len(),
            {
                let r = old_runs.remove(0);
                assert(r == pushed[i as int]);
                if i >= excess {
                    kept.push(r);
                    assert(kept@ =~= pushed.subrange(excess as int, i as int + 1));
                }
                i = i + 1;
                assert(old_runs@ =~= pushed.skip(i as int));
            }
            if excess == n {
                assert(kept@ =~= pushed.skip(excess as int));
            } else {
                assert(kept@ =~= pushed.skip(excess as int));
            }
            self.executions = kept;
        }
    }
}

/// A result sets a new performance baseline: it passed and carries metrics.
pub open spec fn sets_baseline(r: TestSuiteResult) -> bool {
    r.status == TestStatus::Passed && r.performance_metrics is Some
}

/// Positions of the results that set a new performance baseline, in order.
pub fn baseline_results(results: &Vec<TestSuiteResult>) -> (out: Vec<usize>)
    ensures
        out@ == indices_where(results@.len(), |i: int| sets_baseline(results@[i])),
{
    let ghost pred = |i: int| sets_baseline(results@[i]);
    let mut out: Vec<usize> = Vec::new();
    let mut i: usize = 0;
    while i < results.len()
        invariant
            i <= results@.len(),
            pred == (|i: int| sets_baseline(results@[i])),
            out@ == indices_where(i as nat, pred),
        decreases results.len() - i,
    {
        let take = results[i].status == TestStatus::Passed && results[i].performance_metrics.is_some();
        assert(take == pred(i as int));
        if take {
            out.push(i);
        }
        i = i + 1;
    }
    out
}

/// The names of the results with `pred`, in order.
pub open spec fn names_where(rs: Seq<TestSuiteResult>, pred: spec_fn(TestSuiteResult) -> bool) -> Seq<
    Seq<char>,
>
    decreases rs.len(),
{
    if rs.len() == 0 {
        Seq::empty()
    } else {
        let prev = names_where(rs.drop_last(), pred);
        if pred(rs.last()) {
            prev.push(rs.last().suite_name@)
        } else {
            prev
        }
    }
}

/// The slow results, each as `name (Nms)`, in order.
pub open spec fn slow_entries(rs: Seq<TestSuiteResult>) -> Seq<Seq<char>>
    decreases rs.len(),
{
    if rs.len() == 0 {
        Seq::empty()
    } else {
        let prev = slow_entries(rs.drop_last());
        if rs.last().duration_ms > 60000 {
            prev.push(rs.last().suite_name@ + " ("@ + decimal(rs.last().duration_ms as nat) + "ms)"@)
        } else {
            prev
        }
    }
}

/// The items separated by `", "`.
pub open spec fn joined(items: Seq<Seq<char>>) -> Seq<char>
    decreases items.len(),
{
    if items.len() == 0 {
        Seq::empty()
    } else if items.len() == 1 {
        items[0]
    } else {
        joined(items.drop_last()) + ", "@ + items.last()
    }
}

/// Severity of a performance regression: minor under 20%, major up to 50%,
/// critical beyond.
#[derive(Debug, Clone, Copy, PartialEq, Eq, Structural)]
pub enum RegressionSeverity {
    Minor,
    Major,
    Critical,
}

/// Number of regressions of severity `sev`.
pub open spec fn count_severity(s: Seq<RegressionSeverity>, sev: RegressionSeverity) -> nat
    decreases s.len(),
{
    if s.len() == 0 {
        0
    } else {
        count_severity(s.drop_last(), sev) + if s.last() == sev {
            1nat
        } else {
            0nat
        }
    }
}

/// Results with status `st`.
pub open spec fn status_is(st: TestStatus) -> spec_fn(TestSuiteResult) -> bool {
    |r: TestSuiteResult| r.status == st
}

pub open spec fn failed_note(rs: Seq<TestSuiteResult>) -> Seq<Seq<char>> {
    let failed = names_where(rs, status_is(TestStatus::Failed));
    if failed.len() > 0 {
        seq!["Fix "@ + decimal(failed.len()) + " failed test suite(s): "@ + joined(failed)]
    } else {
        Seq::empty()
    }
}

pub open spec fn timeout_note(rs: Seq<TestSuiteResult>) -> Seq<Seq<char>> {
    let timeouts = names_where(rs, status_is(TestStatus::Timeout));
    if timeouts.len() > 0 {
        seq![
            "Investigate timeout issues in "@ + decimal(timeouts.len()) + " test suite(s): "@
                + joined(timeouts)
                + ". Consider increasing timeout or optimizing test performance."@,
        ]
    } else {
        Seq::empty()
    }
}

pub open spec fn regression_notes(severities: Seq<RegressionSeverity>) -> Seq<Seq<char>> {
    let critical = count_severity(severities, RegressionSeverity::Critical);
    let major = count_severity(severities, RegressionSeverity::Major);
    let c = if critical > 0 {
        seq![
            "Address "@ + decimal(critical)
                + " critical performance regression(s) immediately. Performance has degraded by more than 50%."@,
        ]
    } else {
        Seq::empty()
    };
    let m = if major > 0 {
        seq![
            "Investigate "@ + decimal(major)
                + " major performance regression(s). Performance has degraded by 20-50%."@,
        ]
    } else {
        Seq::empty()
    };
    c + m
}

pub open spec fn slow_note(rs: Seq<TestSuiteResult>) -> Seq<Seq<char>> {
    let slow = slow_entries(rs);
    if slow.len() > 0 {
        seq!["Consider optimizing "@ + decimal(slow.len()) + " slow test suite(s): "@ + joined(slow)]
    } else {
        Seq::empty()
    }
}

pub open spec fn rate_note(success_rate_low: bool, success_percent: u32) -> Seq<Seq<char>> {
    if success_rate_low {
        seq![
            "Test success rate is "@ + decimal(success_percent as nat)
                + "%. Aim for >95% success rate in CI/CD pipeline."@,
        ]
    } else {
        Seq::empty()
    }
}

/// The recommendations after a run, in order: fix the failed suites; look into
/// the suites that timed out; address critical and investigate major regressions;
/// speed up suites slower than a minute; and raise a success rate below 90%
/// (`success_percent` is the rate as a whole percentage).
pub open spec fn recommendations_for(
    rs: Seq<TestSuiteResult>,
    severities: Seq<RegressionSeverity>,
    success_rate_low: bool,
    success_percent: u32,
) -> Seq<Seq<char>> {
    failed_note(rs) + timeout_note(rs) + regression_notes(severities) + slow_note(rs) + rate_note(
        success_rate_low,
        success_percent,
    )
}

/// Views of character vectors.
pub open spec fn char_views(v: Seq<Vec<char>>) -> Seq<Seq<char>> {
    v.map_values(|c: Vec<char>| c@)
}

fn names_with_status(rs: &Vec<TestSuiteResult>, st: TestStatus) -> (out: Vec<Vec<char>>)
    ensures
        char_views(out@) == names_where(rs@, status_is(st)),
{
    let mut out: Vec<Vec<char>> = Vec::new();
    let mut i: usize = 0;
    while i < rs.len()
        invariant
            i <= rs@.len(),
            char_views(out@) == names_where(rs@.take(i as int), status_is(st)),
        decreases rs.len() - i,
    {
        assert(rs@.take(i as int + 1).drop_last() =~= rs@.take(i as int));
        assert(rs@.take(i as int + 1).last() == rs@[i as int]);
        if rs[i].status == st {
            let ghost before = out@;
            out.push(chars_of(rs[i].suite_name.as_str()));
            assert(char_views(out@) =~= char_views(before).push(rs@[i as int].suite_name@));
        }
        i = i + 1;
    }
    assert(rs@.take(i as int) =~= rs@);
    out
}

fn slow_entries_exec(rs: &Vec<TestSuiteResult>) -> (out: Vec<Vec<char>>)
    ensures
        char_views(out@) == slow_entries(rs@),
{
    let mut out: Vec<Vec<char>> = Vec::new();
    let mut i: usize = 0;
    while i < rs.len()
        invariant
            i <= rs@.len(),
            char_views(out@) == slow_entries(rs@.take(i as int)),
        decreases rs.len() - i,
    {
        assert(rs@.take(i as int + 1).drop_last() =~= rs@.take(i as int));
        assert(rs@.take(i as int + 1).last() == rs@[i as int]);
        if rs[i].duration_ms > 60000 {
            let mut e = chars_of(rs[i].suite_name.as_str());
            push_str(&mut e, " (");
            push_decimal_u64(&mut e, rs[i].duration_ms);
            push_str(&mut e, "ms)");
            let ghost before = out@;
            out.push(e);
            assert(char_views(out@) =~= char_views(before).push(
                rs@[i as int].suite_name@ + " ("@ + decimal(rs@[i as int].duration_ms as nat)
                    + "ms)"@,
            ));
        }
        i = i + 1;
    }
    assert(rs@.take(i as int) =~= rs@);
    out
}

/// Appends `n` in decimal to `out`.
fn push_decimal_u64(out: &mut Vec<char>, n: u64)
    ensures
        final(out)@ == old(out)@ + decimal(n as nat),
    decreases n,
{
    if n >= 10 {
        push_decimal_u64(out, n / 10);
    }
    let d = (n % 10) as usize;
    let mut digit: Vec<char> = Vec::new();
    push_decimal(&mut digit, d);
    assert(digit@ == decimal(d as nat));
    assert(digit@ =~= seq![crate::text::digit_char(d as nat)]);
    out.push(digit[0]);
    assert(final(out)@ =~= old(out)@ + decimal(n as nat));
}

fn push_joined(out: &mut Vec<char>, items: &Vec<Vec<char>>)
    ensures
        final(out)@ == old(out)@ + joined(char_views(items@)),
{
    let ghost start = out@;
    let mut i: usize = 0;
    while i < items.len()
        invariant
            i <= items@.len(),
            out@ == start + joined(char_views(items@.take(i as int))),
        decreases items.len() - i,
    {
        let ghost before = out@;
        assert(char_views(items@.take(i as int + 1)).drop_last() =~= char_views(items@.take(i as int)));
        assert(char_views(items@.take(i as int + 1)).last() == items@[i as int]@);
        if i > 0 {
            push_str(out, ", ");
        }
        let mut k: usize = 0;
        let ghost mid = out@;
        while k < items[i].len()
            invariant
                i < items@.len(),
                k <= items@[i as int]@.len(),
                out@ == mid + items@[i as int]@.take(k as int),
            decreases items@[i as int]@.len() - k,
        {
            out.push(items[i][k]);
            k = k + 1;
            assert(out@ =~= mid + items@[i as int]@.take(k as int));
        }
        assert(items@[i as int]@.take(k as int) =~= items@[i as int]@);
        if i == 0 {
            assert(char_views(items@.take(1)) =~= seq![items@[0]@]);
            assert(out@ =~= start + joined(char_views(items@.take(1))));
        } else {
            assert(out@ =~= start + joined(char_views(items@.take(i as int + 1))));
        }
        i = i + 1;
    }
    assert(items@.take(i as int) =~= items@);
}

fn count_of_severity(s: &Vec<RegressionSeverity>, sev: RegressionSeverity) -> (n: usize)
    ensures
        n == count_severity(s@, sev),
{
    let mut n: usize = 0;
    let mut i: usize = 0;
    while i < s.len()
        invariant
            i <= s@.len(),
            n == count_severity(s@.take(i as int), sev),
            n <= i,
        decreases s.len() - i,
    {
        assert(s@.take(i as int + 1).drop_last() =~= s@.take(i as int));
        if s[i] == sev {
            n = n + 1;
        }
        i = i + 1;
    }
    assert(s@.take(i as int) =~= s@);
    n
}

fn failed_note_exec(results: &Vec<TestSuiteResult>) -> (out: Vec<String>)
    ensures
        texts(out@) == failed_note(results@),
{
    let mut out: Vec<String> = Vec::new();
    let failed = names_with_status(results, TestStatus::Failed);
    if failed.len() > 0 {
        let mut m: Vec<char> = Vec::new();
        push_str(&mut m, "Fix ");
        push_decimal(&mut m, failed.len());
        push_str(&mut m, " failed test suite(s): ");
        push_joined(&mut m, &failed);
        out.push(string_from_chars(&m));
        assert(texts(out@) =~= seq![m@]);
    }
    assert(texts(out@) =~= failed_note(results@));
    out
}

fn timeout_note_exec(results: &Vec<TestSuiteResult>) -> (out: Vec<String>)
    ensures
        texts(out@) == timeout_note(results@),
{
    let mut out: Vec<String> = Vec::new();
    let timeouts = names_with_status(results, TestStatus::Timeout);
    if timeouts.len() > 0 {
        let mut m: Vec<char> = Vec::new();
        push_str(&mut m, "Investigate timeout issues in ");
        push_decimal(&mut m, timeouts.len());
        push_str(&mut m, " test suite(s): ");
        push_joined(&mut m, &timeouts);
        push_str(&mut m, ". Consider increasing timeout or optimizing test performance.");
        out.push(string_from_chars(&m));
        assert(texts(out@) =~= seq![m@]);
    }
    assert(texts(out@) =~= timeout_note(results@));
    out
}

fn regression_notes_exec(regressions: &Vec<RegressionSeverity>) -> (out: Vec<String>)
    ensures
        texts(out@) == regression_notes(regressions@),
{
    let mut out: Vec<String> = Vec::new();
    let critical = count_of_severity(regressions, RegressionSeverity::Critical);
    if critical > 0 {
        let mut m: Vec<char> = Vec::new();
        push_str(&mut m, "Address ");
        push_decimal(&mut m, critical);
        push_str(
            &mut m,
            " critical performance regression(s) immediately. Performance has degraded by more than 50%.",
        );
        out.push(string_from_chars(&m));
    }
    let ghost first = texts(out@);
    let major = count_of_severity(regressions, RegressionSeverity::Major);
    if major > 0 {
        let mut m: Vec<char> = Vec::new();
        push_str(&mut m, "Investigate ");
        push_decimal(&mut m, major);
        push_str(&mut m, " major performance regression(s). Performance has degraded by 20-50%.");
        let ghost before = out@;
        out.push(string_from_chars(&m));
        assert(texts(out@) =~= texts(before).push(m@));
    }
    assert(texts(out@) =~= regression_notes(regressions@));
    out
}

fn slow_note_exec(results: &Vec<TestSuiteResult>) -> (out: Vec<String>)
    ensures
        texts(out@) == slow_note(results@),
{
    let mut out: Vec<String> = Vec::new();
    let slow = slow_entries_exec(results);
    if slow.len() > 0 {
        let mut m: Vec<char> = Vec::new();
        push_str(&mut m, "Consider optimizing ");
        push_decimal(&mut m, slow.len());
        push_str(&mut m, " slow test suite(s): ");
        push_joined(&mut m, &slow);
        out.push(string_from_chars(&m));
        assert(texts(out@) =~= seq![m@]);
    }
    assert(texts(out@) =~= slow_note(results@));
    out
}

fn rate_note_exec(success_rate_low: bool, success_percent: u32) -> (out: Vec<String>)
    ensures
        texts(out@) == rate_note(success_rate_low, success_percent),
{
    let mut out: Vec<String> = Vec::new();
    if success_rate_low {
        let mut m: Vec<char> = Vec::new();
        push_str(&mut m, "Test success rate is ");
        push_decimal(&mut m, success_percent as usize);
        push_str(&mut m, "%. Aim for >95% success rate in CI/CD pipeline.");
        out.push(string_from_chars(&m));
        assert(texts(out@) =~= seq![m@]);
    }
    assert(texts(out@) =~= rate_note(success_rate_low, success_percent));
    out
}

fn append_texts(out: &mut Vec<String>, more: Vec<String>)
    ensures
        texts(final(out)@) == texts(old(out)@) + texts(more@),
{
    let mut more = more;
    let ghost m = more@;
    out.append(&mut more);
    assert(texts(out@) =~= texts(old(out)@) + texts(m));
}

/// The recommendations after a run: see [`recommendations_for`]. Whether the
/// success rate is below 90% and its whole percentage come from the caller, which
/// computes the rate in floating point.
pub fn generate_recommendations(
    results: &Vec<TestSuiteResult>,
    regressions: &Vec<RegressionSeverity>,
    success_rate_low: bool,
    success_percent: u32,
) -> (out: Vec<String>)
    ensures
        texts(out@) == recommendations_for(results@, regressions@, success_rate_low, success_percent),
{
    let mut out = failed_note_exec(results);
    append_texts(&mut out, timeout_note_exec(results));
    if regressions.len() > 0 {
        append_texts(&mut out, regression_notes_exec(regressions));
    } else {
        assert(regression_notes(regressions@) =~= Seq::<Seq<char>>::empty());
    }
    append_texts(&mut out, slow_note_exec(results));
    append_texts(&mut out, rate_note_exec(success_rate_low, success_percent));
    out
}

} // verus!
