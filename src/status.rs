use vstd::prelude::*;

verus! {

/// Severity of one finding, and of a whole report: `Pass < Warn < Error`.
#[derive(Clone, Copy, Debug, PartialEq, Eq, Structural)]
pub enum Overall {
    Pass,
    Warn,
    Error,
}

/// Rank of a severity in the order `Pass < Warn < Error`.
pub open spec fn rank(o: Overall) -> nat {
    match o {
        Overall::Pass => 0,
        Overall::Warn => 1,
        Overall::Error => 2,
    }
}

pub open spec fn overall_name(o: Overall) -> Seq<char> {
    match o {
        Overall::Pass => "ok"@,
        Overall::Warn => "warn"@,
        Overall::Error => "error"@,
    }
}

impl Overall {
    pub fn as_str(&self) -> (r: &'static str)
        ensures
            r@ == overall_name(*self),
    {
        match self {
            Overall::Pass => "ok",
            Overall::Warn => "warn",
            Overall::Error => "error",
        }
    }
}

/// Counts of findings in a report.
#[derive(Clone, Copy, Debug, PartialEq, Eq, Structural)]
pub struct Summary {
    pub checks_total: u32,
    pub checks_warn: u32,
    pub checks_failed: u32,
}

/// One validation result: a stable identifier, a severity and a message.
#[derive(Clone, Debug)]
pub struct Finding {
    pub id: String,
    pub severity: Overall,
    pub msg: String,
}

/// What a finding says, as plain values.
pub struct FindingView {
    pub id: Seq<char>,
    pub severity: Overall,
    pub msg: Seq<char>,
}

impl View for Finding {
    type V = FindingView;

    open spec fn view(&self) -> FindingView {
        FindingView { id: self.id@, severity: self.severity, msg: self.msg@ }
    }
}

pub open spec fn view_findings(fs: Seq<Finding>) -> Seq<FindingView> {
    fs.map_values(|f: Finding| f@)
}

/// Number of findings of severity `s`.
pub open spec fn count_of(fs: Seq<FindingView>, s: Overall) -> nat
    decreases fs.len(),
{
    if fs.len() == 0 {
        0
    } else {
        count_of(fs.drop_last(), s) + if fs.last().severity == s {
            1nat
        } else {
            0nat
        }
    }
}

/// The highest severity among the findings; `Pass` when there are none.
pub open spec fn overall_of(fs: Seq<FindingView>) -> Overall
    decreases fs.len(),
{
    if fs.len() == 0 {
        Overall::Pass
    } else {
        let rest = overall_of(fs.drop_last());
        if rank(fs.last().severity) > rank(rest) {
            fs.last().severity
        } else {
            rest
        }
    }
}

proof fn lemma_count_bound(fs: Seq<FindingView>, s: Overall)
    ensures
        count_of(fs, s) <= fs.len(),
    decreases fs.len(),
{
    if fs.len() > 0 {
        lemma_count_bound(fs.drop_last(), s);
    }
}

pub proof fn lemma_overall_error(fs: Seq<FindingView>)
    ensures
        (overall_of(fs) == Overall::Error) == (count_of(fs, Overall::Error) > 0),
        (overall_of(fs) == Overall::Warn) == (count_of(fs, Overall::Error) == 0 && count_of(
            fs,
            Overall::Warn,
        ) > 0),
    decreases fs.len(),
{
    if fs.len() > 0 {
        lemma_overall_error(fs.drop_last());
    }
}

/// A severity that some finding has is counted.
pub proof fn lemma_count_positive(fs: Seq<FindingView>, i: int, s: Overall)
    requires
        0 <= i < fs.len(),
        fs[i].severity == s,
    ensures
        count_of(fs, s) > 0,
    decreases fs.len(),
{
    if i < fs.len() - 1 {
        lemma_count_positive(fs.drop_last(), i, s);
    }
}

/// Adding a finding of severity `Error` makes the report's severity `Error`, and a
/// report without findings has severity `Pass`.
pub proof fn lemma_severity_monotone(fs: Seq<FindingView>, f: FindingView)
    requires
        f.severity == Overall::Error,
    ensures
        overall_of(fs.push(f)) == Overall::Error,
        overall_of(Seq::<FindingView>::empty()) == Overall::Pass,
{
    assert(fs.push(f).drop_last() =~= fs);
}

/// Counts the findings by severity and rolls them up into one severity.
pub fn summarize(findings: &Vec<Finding>) -> (r: (Overall, Summary))
    requires
        findings@.len() <= u32::MAX,
    ensures
        r.0 == overall_of(view_findings(findings@)),
        r.1.checks_total == findings@.len(),
        r.1.checks_warn == count_of(view_findings(findings@), Overall::Warn),
        r.1.checks_failed == count_of(view_findings(findings@), Overall::Error),
{
    let mut warn: u32 = 0;
    let mut failed: u32 = 0;
    let mut i: usize = 0;
    while i < findings.len()
        invariant
            i <= findings@.len() <= u32::MAX,
            warn == count_of(view_findings(findings@.take(i as int)), Overall::Warn),
            failed == count_of(view_findings(findings@.take(i as int)), Overall::Error),
        decreases findings@.len() - i,
    {
        let ghost pre = view_findings(findings@.take(i as int));
        let ghost next = view_findings(findings@.take(i + 1));
        proof {
            assert(next.drop_last() =~= pre);
            lemma_count_bound(pre, Overall::Warn);
            lemma_count_bound(pre, Overall::Error);
        }
        match findings[i].severity {
            Overall::Warn => warn = warn + 1,
            Overall::Error => failed = failed + 1,
            Overall::Pass => {},
        }
        i = i + 1;
    }
    let ghost all = view_findings(findings@);
    proof {
        assert(findings@.take(i as int) =~= findings@);
        lemma_overall_error(all);
    }
    let overall = if failed > 0 {
        Overall::Error
    } else if warn > 0 {
        Overall::Warn
    } else {
        Overall::Pass
    };
    let summary = Summary {
        checks_total: findings.len() as u32,
        checks_warn: warn,
        checks_failed: failed,
    };
    (overall, summary)
}

/// A run's result, as the report renderer receives it.
#[derive(Clone, Debug)]
pub struct StatusReport {
    pub schema: u32,
    pub overall: Overall,
    pub backend: String,
    pub active_profile: String,
    /// RFC 3339 timestamp of the check.
    pub last_check: String,
    pub summary: Summary,
    pub findings: Vec<Finding>,
}

/// Process exit status of a run.
#[derive(Clone, Copy, Debug, PartialEq, Eq, Structural)]
pub enum ExitStatus {
    Success,
    Warn,
    Error,
}

impl ExitStatus {
    pub fn code(self) -> (r: i32)
        ensures
            r == match self {
                ExitStatus::Success => 0i32,
                ExitStatus::Warn => 1i32,
                ExitStatus::Error => 2i32,
            },
    {
        match self {
            ExitStatus::Success => 0,
            ExitStatus::Warn => 1,
            ExitStatus::Error => 2,
        }
    }
}

pub open spec fn exit_of(o: Overall) -> ExitStatus {
    match o {
        Overall::Pass => ExitStatus::Success,
        Overall::Warn => ExitStatus::Warn,
        Overall::Error => ExitStatus::Error,
    }
}

impl From<Overall> for ExitStatus {
    fn from(o: Overall) -> (r: ExitStatus)
        ensures
            r == exit_of(o),
    {
        match o {
            Overall::Pass => ExitStatus::Success,
            Overall::Warn => ExitStatus::Warn,
            Overall::Error => ExitStatus::Error,
        }
    }
}

impl vstd::std_specs::convert::FromSpecImpl<Overall> for ExitStatus {
    open spec fn obeys_from_spec() -> bool {
        true
    }

    open spec fn from_spec(o: Overall) -> ExitStatus {
        exit_of(o)
    }
}

} // verus!
