//! The report of a self-test run: progress lines and a summary, in the format that
//! Google Test made familiar.
use vstd::prelude::*;

use crate::number::{decimal, decimal_string};
use crate::text::{concat, concat3, texts};

verus! {

/// How a test case ended.
#[derive(Debug, PartialEq, Eq)]
pub enum Outcome {
    /// It passed.
    Passed,
    /// It failed, for this reason.
    Failed(String),
    /// It was skipped, for this reason.
    Skipped(String),
}

/// The contents of an [`Outcome`].
pub enum OutcomeView {
    Passed,
    Failed(Seq<char>),
    Skipped(Seq<char>),
}

impl View for Outcome {
    type V = OutcomeView;

    open spec fn view(&self) -> OutcomeView {
        match self {
            Outcome::Passed => OutcomeView::Passed,
            Outcome::Failed(r) => OutcomeView::Failed(r@),
            Outcome::Skipped(r) => OutcomeView::Skipped(r@),
        }
    }
}

impl Clone for Outcome {
    fn clone(&self) -> (r: Self)
        ensures
            r@ == self@,
    {
        match self {
            Outcome::Passed => Outcome::Passed,
            Outcome::Failed(r) => Outcome::Failed(r.clone()),
            Outcome::Skipped(r) => Outcome::Skipped(r.clone()),
        }
    }
}

/// The three ways to end.
#[derive(Clone, Copy, Debug, PartialEq, Eq, Structural)]
pub enum Ending {
    Passed,
    Failed,
    Skipped,
}

impl OutcomeView {
    /// Which of the three ways it is.
    pub open spec fn ending(self) -> Ending {
        match self {
            OutcomeView::Passed => Ending::Passed,
            OutcomeView::Failed(_) => Ending::Failed,
            OutcomeView::Skipped(_) => Ending::Skipped,
        }
    }
}

impl Outcome {
    /// Which of the three ways it is.
    pub fn ending(&self) -> (r: Ending)
        ensures
            r == self@.ending(),
    {
        match self {
            Outcome::Passed => Ending::Passed,
            Outcome::Failed(_) => Ending::Failed,
            Outcome::Skipped(_) => Ending::Skipped,
        }
    }
}

/// A finished test case.
#[derive(Debug, PartialEq, Eq)]
pub struct CaseResult {
    /// The suite, which names the way to the device.
    pub suite: String,
    /// The name of the case within the suite.
    pub name: String,
    /// How it ended.
    pub outcome: Outcome,
    /// How long it took, in milliseconds.
    pub elapsed_ms: u64,
}

/// The contents of a [`CaseResult`].
pub struct CaseView {
    pub suite: Seq<char>,
    pub name: Seq<char>,
    pub outcome: OutcomeView,
    pub elapsed_ms: u64,
}

impl View for CaseResult {
    type V = CaseView;

    open spec fn view(&self) -> CaseView {
        CaseView {
            suite: self.suite@,
            name: self.name@,
            outcome: self.outcome@,
            elapsed_ms: self.elapsed_ms,
        }
    }
}

impl Clone for CaseResult {
    fn clone(&self) -> (r: Self)
        ensures
            r@ == self@,
    {
        CaseResult {
            suite: self.suite.clone(),
            name: self.name.clone(),
            outcome: self.outcome.clone(),
            elapsed_ms: self.elapsed_ms,
        }
    }
}

/// `suite.name`.
pub open spec fn case_name(suite: Seq<char>, name: Seq<char>) -> Seq<char> {
    suite + "."@ + name
}

impl CaseResult {
    /// `suite.name`, which identifies the case.
    #[must_use]
    pub fn full_name(&self) -> (r: String)
        ensures
            r@ == case_name(self@.suite, self@.name),
    {
        concat3(self.suite.as_str(), ".", self.name.as_str())
    }
}

/// The ending of `test` for `n` of them.
pub open spec fn plural_text(n: nat) -> Seq<char> {
    if n == 1 {
        ""@
    } else {
        "s"@
    }
}

/// The ending of `test` for `n` of them.
pub fn plural(n: usize) -> (r: &'static str)
    ensures
        r@ == plural_text(n as nat),
{
    if n == 1 {
        ""
    } else {
        "s"
    }
}

/// The line that announces a run.
pub open spec fn start_run_line(total: nat) -> Seq<char> {
    "[==========] Running "@ + decimal(total) + " test"@ + plural_text(total) + "."@
}

/// The line that announces a case.
pub open spec fn start_case_line(full_name: Seq<char>) -> Seq<char> {
    "[ RUN      ] "@ + full_name
}

/// The lines that report a case.
pub open spec fn finish_case_lines(c: CaseView) -> Seq<Seq<char>> {
    let name = case_name(c.suite, c.name);
    let time = " ("@ + decimal(c.elapsed_ms as nat) + " ms)"@;
    match c.outcome {
        OutcomeView::Passed => seq!["[       OK ] "@ + name + time],
        OutcomeView::Failed(reason) => seq![
            "[  FAILED  ] "@ + name + time,
            "             "@ + reason,
        ],
        OutcomeView::Skipped(reason) => seq![
            "[ SKIPPED  ] "@ + name,
            "             "@ + reason,
        ],
    }
}

/// How many cases ended this way.
pub open spec fn count_of(results: Seq<CaseView>, ending: Ending) -> nat
    decreases results.len(),
{
    if results.len() == 0 {
        0
    } else {
        count_of(results.drop_last(), ending) + (if results.last().outcome.ending() == ending {
            1nat
        } else {
            0nat
        })
    }
}

/// The lines that name the cases that failed.
pub open spec fn failed_lines(results: Seq<CaseView>) -> Seq<Seq<char>>
    decreases results.len(),
{
    if results.len() == 0 {
        Seq::empty()
    } else {
        let before = failed_lines(results.drop_last());
        let c = results.last();
        if c.outcome.ending() == Ending::Failed {
            before.push("[  FAILED  ] "@ + case_name(c.suite, c.name))
        } else {
            before
        }
    }
}

/// The lines of the summary.
pub open spec fn summary_lines(results: Seq<CaseView>, total_ms: u64) -> Seq<Seq<char>> {
    let n = results.len();
    let passed = count_of(results, Ending::Passed);
    let skipped = count_of(results, Ending::Skipped);
    let failed = count_of(results, Ending::Failed);
    let head = seq![
        "[==========] "@ + decimal(n) + " test"@ + plural_text(n) + " ran. ("@ + decimal(
            total_ms as nat,
        ) + " ms total)"@,
        "[  PASSED  ] "@ + decimal(passed) + " test"@ + plural_text(passed) + "."@,
    ];
    let with_skipped = if skipped > 0 {
        head.push("[ SKIPPED  ] "@ + decimal(skipped) + " test"@ + plural_text(skipped) + "."@)
    } else {
        head
    };
    if failed > 0 {
        with_skipped.push(
            "[  FAILED  ] "@ + decimal(failed) + " test"@ + plural_text(failed)
                + ", listed below:"@,
        ) + failed_lines(results)
    } else {
        with_skipped
    }
}

/// The end of a run: the summary, and whether the run is a success.
#[derive(Debug, PartialEq, Eq)]
pub struct RunSummary {
    /// The lines to print.
    pub lines: Vec<String>,
    /// Whether nothing failed.
    pub ok: bool,
}

/// Collects the results of a run.
pub struct Reporter {
    results: Vec<CaseResult>,
}

impl View for Reporter {
    type V = Seq<CaseView>;

    closed spec fn view(&self) -> Seq<CaseView> {
        self.results@.map_values(|c: CaseResult| c@)
    }
}

impl Default for Reporter {
    fn default() -> (r: Self)
        ensures
            r@ == Seq::<CaseView>::empty(),
    {
        Reporter::new()
    }
}

/// `head`, the number, ` test` or ` tests`, and `tail`.
fn count_line(head: &str, n: usize, tail: &str) -> (r: String)
    ensures
        r@ == head@ + decimal(n as nat) + " test"@ + plural_text(n as nat) + tail@,
{
    let mut r = concat3(head, decimal_string(n as u64).as_str(), " test");
    r.append(plural(n));
    r.append(tail);
    r
}

impl Reporter {
    /// No results yet.
    #[must_use]
    pub fn new() -> (r: Self)
        ensures
            r@ == Seq::<CaseView>::empty(),
    {
        let r = Reporter { results: Vec::new() };
        assert(r@ =~= Seq::empty());
        r
    }

    /// The line that announces a run of `total` cases.
    pub fn start_run(total: usize) -> (r: String)
        ensures
            r@ == start_run_line(total as nat),
    {
        count_line("[==========] Running ", total, ".")
    }

    /// The line that announces a case.
    pub fn start_case(full_name: &str) -> (r: String)
        ensures
            r@ == start_case_line(full_name@),
    {
        concat("[ RUN      ] ", full_name)
    }

    /// Records a finished case; the lines that report it.
    pub fn finish_case(&mut self, result: CaseResult) -> (r: Vec<String>)
        ensures
            final(self)@ == old(self)@.push(result@),
            texts(r@) == finish_case_lines(result@),
    {
        let name = result.full_name();
        let mut time = concat(" (", decimal_string(result.elapsed_ms).as_str());
        time.append(" ms)");
        let mut lines: Vec<String> = Vec::new();
        match &result.outcome {
            Outcome::Passed => {
                lines.push(concat3("[       OK ] ", name.as_str(), time.as_str()));
            },
            Outcome::Failed(reason) => {
                lines.push(concat3("[  FAILED  ] ", name.as_str(), time.as_str()));
                lines.push(concat("             ", reason.as_str()));
            },
            Outcome::Skipped(reason) => {
                lines.push(concat("[ SKIPPED  ] ", name.as_str()));
                lines.push(concat("             ", reason.as_str()));
            },
        }
        assert(texts(lines@) =~= finish_case_lines(result@));
        self.results.push(result);
        assert(self@ =~= old(self)@.push(result@));
        lines
    }

    /// How many cases ended this way.
    pub fn count(&self, ending: Ending) -> (r: usize)
        ensures
            r == count_of(self@, ending),
    {
        let mut n: usize = 0;
        let mut i: usize = 0;
        assert(self@.take(0) =~= Seq::empty());
        while i < self.results.len()
            invariant
                i <= self.results.len(),
                self@.len() == self.results.len(),
                n <= i,
                n == count_of(self@.take(i as int), ending),
            decreases self.results.len() - i,
        {
            proof {
                assert(self@.take(i + 1).drop_last() =~= self@.take(i as int));
                assert(self@.take(i + 1).last() == self.results@[i as int]@);
            }
            if self.results[i].outcome.ending() == ending {
                n += 1;
            }
            i += 1;
        }
        assert(self@.take(self@.len() as int) =~= self@);
        n
    }

    /// Whether some case failed.
    #[must_use]
    pub fn any_failed(&self) -> (r: bool)
        ensures
            r == exists|i: int|
                0 <= i < self@.len() && (#[trigger] self@[i]).outcome is Failed,
    {
        let mut i: usize = 0;
        while i < self.results.len()
            invariant
                i <= self.results.len(),
                self@.len() == self.results.len(),
                forall|j: int| 0 <= j < i ==> !((#[trigger] self@[j]).outcome is Failed),
            decreases self.results.len() - i,
        {
            assert(self@[i as int] == self.results@[i as int]@);
            if self.results[i].outcome.ending() == Ending::Failed {
                return true;
            }
            i += 1;
        }
        false
    }

    /// Ends the run after `total_ms`: a run in which cases passed or were skipped is
    /// a success, one with a failure is not.
    pub fn finish_run(&self, total_ms: u64) -> (r: RunSummary)
        ensures
            texts(r.lines@) == summary_lines(self@, total_ms),
            r.ok == (count_of(self@, Ending::Failed) == 0),
    {
        let passed = self.count(Ending::Passed);
        let skipped = self.count(Ending::Skipped);
        let failed = self.count(Ending::Failed);
        assert(self@.len() == self.results.len());
        let mut lines: Vec<String> = Vec::new();
        let mut ran = count_line("[==========] ", self.results.len(), " ran. (");
        ran.append(decimal_string(total_ms).as_str());
        ran.append(" ms total)");
        lines.push(ran);
        lines.push(count_line("[  PASSED  ] ", passed, "."));
        if skipped > 0 {
            lines.push(count_line("[ SKIPPED  ] ", skipped, "."));
        }
        if failed == 0 {
            proof {
                assert(texts(lines@) =~= summary_lines(self@, total_ms));
            }
            return RunSummary { lines, ok: true };
        }
        lines.push(count_line("[  FAILED  ] ", failed, ", listed below:"));
        let ghost head = texts(lines@);
        let mut i: usize = 0;
        assert(self@.take(0) =~= Seq::empty());
        assert(head + failed_lines(self@.take(0)) =~= head);
        while i < self.results.len()
            invariant
                i <= self.results.len(),
                self@.len() == self.results.len(),
                texts(lines@) == head + failed_lines(self@.take(i as int)),
            decreases self.results.len() - i,
        {
            let ghost before = texts(lines@);
            proof {
                assert(self@.take(i + 1).drop_last() =~= self@.take(i as int));
                assert(self@.take(i + 1).last() == self.results@[i as int]@);
            }
            if self.results[i].outcome.ending() == Ending::Failed {
                let line = concat("[  FAILED  ] ", self.results[i].full_name().as_str());
                lines.push(line);
                proof {
                    assert(texts(lines@) =~= before.push(line@));
                    assert(head + failed_lines(self@.take(i as int)).push(line@) =~= (head
                        + failed_lines(self@.take(i as int))).push(line@));
                }
            }
            i += 1;
        }
        assert(self@.take(self@.len() as int) =~= self@);
        assert(texts(lines@) =~= summary_lines(self@, total_ms));
        RunSummary { lines, ok: false }
    }
}

/// The endings are counted exactly: every case is in one of the three counts.
pub proof fn counts_add_up(results: Seq<CaseView>)
    ensures
        count_of(results, Ending::Passed) + count_of(results, Ending::Failed) + count_of(
            results,
            Ending::Skipped,
        ) == results.len(),
    decreases results.len(),
{
    if results.len() > 0 {
        counts_add_up(results.drop_last());
    }
}

/// A run is a success exactly if no case failed; skipped cases do not count against
/// it.
pub proof fn success_means_no_failure(results: Seq<CaseView>)
    ensures
        count_of(results, Ending::Failed) == 0 <==> !exists|i: int|
            0 <= i < results.len() && (#[trigger] results[i]).outcome is Failed,
        failed_lines(results).len() == count_of(results, Ending::Failed),
    decreases results.len(),
{
    if results.len() > 0 {
        let init = results.drop_last();
        success_means_no_failure(init);
        if exists|i: int| 0 <= i < init.len() && (#[trigger] init[i]).outcome is Failed {
            let i = choose|i: int| 0 <= i < init.len() && (#[trigger] init[i]).outcome is Failed;
            assert(results[i] == init[i]);
        }
        if exists|i: int| 0 <= i < results.len() && (#[trigger] results[i]).outcome is Failed {
            let i = choose|i: int|
                0 <= i < results.len() && (#[trigger] results[i]).outcome is Failed;
            if i < init.len() {
                assert(init[i] == results[i]);
            }
        }
        if results.last().outcome is Failed {
            assert(results[results.len() - 1].outcome is Failed);
        }
    }
}

} // verus!
