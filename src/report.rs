use vstd::prelude::*;
use crate::backends::{
    backend_findings, firewalld_findings, lemma_findings_bound, lemma_firewalld_nothing_required,
    Backend, BackendStatus,
};
use crate::config::{required_fragments, required_ports, required_services, Policy};
use crate::status::{
    count_of, lemma_count_positive, lemma_overall_error, overall_of, summarize, view_findings, Finding, FindingView, Overall, StatusReport,
    Summary,
};

verus! {

/// The schema version of the reports this library produces.
pub const REPORT_SCHEMA: u32 = 1;

/// Whether a report carries these findings under a summary and severity that
/// agree with them.
pub open spec fn report_holds(
    r: StatusReport,
    backend: Seq<char>,
    fs: Seq<FindingView>,
) -> bool {
    &&& r.schema == REPORT_SCHEMA
    &&& r.backend@ == backend
    &&& r.active_profile@ == "default"@
    &&& view_findings(r.findings@) == fs
    &&& r.overall == overall_of(fs)
    &&& r.summary.checks_total == fs.len()
    &&& r.summary.checks_warn == count_of(fs, Overall::Warn)
    &&& r.summary.checks_failed == count_of(fs, Overall::Error)
}

/// Rolls findings up into a report taken at `last_check`.
pub fn report_from(backend: &str, findings: Vec<Finding>, last_check: String) -> (r: StatusReport)
    requires
        findings@.len() <= u32::MAX,
    ensures
        report_holds(r, backend@, view_findings(findings@)),
        r.last_check@ == last_check@,
{
    let (overall, summary) = summarize(&findings);
    StatusReport {
        schema: REPORT_SCHEMA,
        overall,
        backend: String::from_str(backend),
        active_profile: String::from_str("default"),
        last_check,
        summary,
        findings,
    }
}

/// Validates `policy` against a snapshot of `backend` and reports the findings,
/// stamped with `last_check`.
pub fn build_report(backend: Backend, policy: &Policy, snap: &BackendStatus, last_check: String) -> (r:
    StatusReport)
    requires
        required_services(*policy).len() + required_ports(*policy).len()
            + required_fragments(*policy).len() < u32::MAX,
    ensures
        report_holds(
            r,
            snap.backend_name@,
            backend_findings(backend, *policy, snap.active, snap.raw@),
        ),
        r.last_check@ == last_check@,
{
    let findings = backend.validate(policy, snap);
    proof {
        lemma_findings_bound(backend, *policy, snap.active, snap.raw@);
        assert(view_findings(findings@).len() == findings@.len());
    }
    report_from(snap.backend_name, findings, last_check)
}

/// A report of one `Error` finding, for a run that failed before validation.
pub fn error_report(backend: &str, id: &str, msg: &str, last_check: String) -> (r: StatusReport)
    ensures
        report_holds(
            r,
            backend@,
            seq![FindingView { id: id@, severity: Overall::Error, msg: msg@ }],
        ),
        r.overall == Overall::Error,
        r.summary == (Summary { checks_total: 1, checks_warn: 0, checks_failed: 1 }),
        r.last_check@ == last_check@,
{
    let mut findings: Vec<Finding> = Vec::new();
    findings.push(
        Finding { id: String::from_str(id), severity: Overall::Error, msg: String::from_str(msg) },
    );
    let ghost fs = seq![FindingView { id: id@, severity: Overall::Error, msg: msg@ }];
    assert(view_findings(findings@) =~= fs);
    assert(fs.drop_last() =~= Seq::<FindingView>::empty());
    assert(fs.len() == 1 && fs.last().severity == Overall::Error);
    assert(count_of(fs.drop_last(), Overall::Warn) == 0);
    assert(count_of(fs.drop_last(), Overall::Error) == 0);
    assert(count_of(fs, Overall::Warn) == 0);
    assert(count_of(fs, Overall::Error) == 1);
    report_from(backend, findings, last_check)
}

/// The report of a run whose policy could not be read or was refused.
pub fn policy_load_failed_report(backend: &str, last_check: String) -> (r: StatusReport)
    ensures
        report_holds(
            r,
            backend@,
            seq![
                FindingView {
                    id: "policy-load-failed"@,
                    severity: Overall::Error,
                    msg: "policy file missing or invalid (schema=1 required)"@,
                },
            ],
        ),
        r.last_check@ == last_check@,
{
    error_report(
        backend,
        "policy-load-failed",
        "policy file missing or invalid (schema=1 required)",
        last_check,
    )
}

/// The report of a run for which no backend could be resolved.
pub fn backend_detect_failed_report(backend: &str, last_check: String) -> (r: StatusReport)
    ensures
        report_holds(
            r,
            backend@,
            seq![
                FindingView {
                    id: "backend-detect-failed"@,
                    severity: Overall::Error,
                    msg: "no supported firewall backend detected (firewalld or nftables)"@,
                },
            ],
        ),
        r.last_check@ == last_check@,
{
    error_report(
        backend,
        "backend-detect-failed",
        "no supported firewall backend detected (firewalld or nftables)",
        last_check,
    )
}

/// A report without findings has severity `Pass` and counts of zero.
pub proof fn lemma_report_empty(r: StatusReport, backend: Seq<char>, fs: Seq<FindingView>)
    requires
        report_holds(r, backend, fs),
        fs.len() == 0,
    ensures
        r.findings@.len() == 0,
        r.overall == Overall::Pass,
        r.summary == (Summary { checks_total: 0, checks_warn: 0, checks_failed: 0 }),
{
    assert(view_findings(r.findings@).len() == r.findings@.len());
}

/// A report that holds a finding of severity `Error` has severity `Error`, whatever
/// other findings it holds.
pub proof fn lemma_report_error(r: StatusReport, backend: Seq<char>, fs: Seq<FindingView>, i: int)
    requires
        report_holds(r, backend, fs),
        0 <= i < fs.len(),
        fs[i].severity == Overall::Error,
    ensures
        r.overall == Overall::Error,
{
    lemma_count_positive(fs, i, Overall::Error);
    lemma_overall_error(fs);
}

/// An active firewalld under a policy that requires no services and no ports gives
/// a report without findings, of severity `Pass`.
pub proof fn lemma_firewalld_report_clean(
    r: StatusReport,
    backend: Seq<char>,
    p: Policy,
    raw: Seq<char>,
)
    requires
        required_services(p).len() == 0,
        required_ports(p).len() == 0,
        report_holds(r, backend, firewalld_findings(p, true, raw)),
    ensures
        r.findings@.len() == 0,
        r.overall == Overall::Pass,
        r.summary == (Summary { checks_total: 0, checks_warn: 0, checks_failed: 0 }),
{
    lemma_firewalld_nothing_required(p, raw);
    lemma_report_empty(r, backend, firewalld_findings(p, true, raw));
}

} // verus!
