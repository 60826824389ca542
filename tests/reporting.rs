use sentinelctl::backends::{Backend, BackendStatus, FirewalldBackend, NftablesBackend};
use sentinelctl::cli::BackendChoice;
use sentinelctl::config::{Checks, Policy};
use sentinelctl::report::{
    backend_detect_failed_report, build_report, error_report, policy_load_failed_report, report_from,
};
use sentinelctl::select::{backend_from_name, backend_label, preselect, probe_step, Preselection, ProbeStep};
use sentinelctl::status::{summarize, Finding, Overall};

fn finding(id: &str, severity: Overall) -> Finding {
    Finding { id: id.to_string(), severity, msg: format!("message for {id}") }
}

const FW: Backend = Backend::Firewalld(FirewalldBackend);
const NFT: Backend = Backend::Nftables(NftablesBackend);

#[test]
fn summary_counts_and_rollup() {
    let fs = vec![
        finding("a", Overall::Warn),
        finding("b", Overall::Pass),
        finding("c", Overall::Warn),
    ];
    let (overall, summary) = summarize(&fs);
    assert_eq!(overall, Overall::Warn);
    assert_eq!((summary.checks_total, summary.checks_warn, summary.checks_failed), (3, 2, 0));
}

#[test]
fn adding_error_forces_error() {
    let mut fs = vec![finding("a", Overall::Warn), finding("b", Overall::Warn)];
    fs.push(finding("c", Overall::Error));
    let (overall, summary) = summarize(&fs);
    assert_eq!(overall, Overall::Error);
    assert_eq!((summary.checks_total, summary.checks_warn, summary.checks_failed), (3, 2, 1));
    fs.clear();
    assert_eq!(summarize(&fs).0, Overall::Pass);
}

#[test]
fn report_from_findings() {
    let fs = vec![finding("missing-port:443/tcp", Overall::Warn)];
    let r = report_from("nftables", fs, "2024-01-01T00:00:00+00:00".to_string());
    assert_eq!(r.schema, 1);
    assert_eq!(r.backend, "nftables");
    assert_eq!(r.active_profile, "default");
    assert_eq!(r.last_check, "2024-01-01T00:00:00+00:00");
    assert_eq!(r.overall, Overall::Warn);
    assert_eq!(r.summary.checks_warn, 1);
    assert_eq!(r.findings[0].id, "missing-port:443/tcp");
}

#[test]
fn build_report_from_snapshot() {
    let p = Policy {
        schema: 1,
        backend: None,
        checks: Some(Checks {
            require_firewall_active: Some(true),
            required_services: Some(vec!["ssh".into(), "http".into()]),
            required_ports: None,
            required_fragments: None,
        }),
    };
    let s = BackendStatus {
        backend_name: "firewalld",
        active: true,
        facts: vec![],
        raw: "services: ssh dhcpv6-client\n".into(),
    };
    let r = build_report(FW, &p, &s, "2024-05-01T12:00:00+00:00".to_string());
    assert_eq!(r.backend, "firewalld");
    assert_eq!(r.overall, Overall::Warn);
    assert_eq!(r.summary.checks_total, 1);
    assert_eq!(r.findings[0].id, "missing-service:http");
    assert_eq!(r.last_check, "2024-05-01T12:00:00+00:00");
}

#[test]
fn error_report_single_finding() {
    let r = error_report("auto", "backend-detect-failed", "no backend", "t".to_string());
    assert_eq!(r.overall, Overall::Error);
    assert_eq!(r.backend, "auto");
    assert_eq!(r.findings.len(), 1);
    assert_eq!(r.findings[0].id, "backend-detect-failed");
    assert_eq!(r.findings[0].msg, "no backend");
    assert_eq!((r.summary.checks_total, r.summary.checks_warn, r.summary.checks_failed), (1, 0, 1));
}

#[test]
fn override_beats_policy_and_detection() {
    assert_eq!(preselect(BackendChoice::Nftables, Some("firewalld")), Preselection::Chosen(NFT));
    assert_eq!(preselect(BackendChoice::Firewalld, Some("nftables")), Preselection::Chosen(FW));
    assert_eq!(preselect(BackendChoice::Firewalld, Some("bogus")), Preselection::Chosen(FW));
}

#[test]
fn policy_backend_then_probe() {
    assert_eq!(preselect(BackendChoice::Auto, Some("nftables")), Preselection::Chosen(NFT));
    assert_eq!(preselect(BackendChoice::Auto, Some("auto")), Preselection::Probe);
    assert_eq!(preselect(BackendChoice::Auto, None), Preselection::Probe);
    assert_eq!(preselect(BackendChoice::Auto, Some("iptables")), Preselection::UnsupportedPolicyBackend);
}

#[test]
fn probing_in_order() {
    assert_eq!(probe_step(&vec![]), ProbeStep::Probe(FW));
    assert_eq!(probe_step(&vec![true]), ProbeStep::Use(FW));
    assert_eq!(probe_step(&vec![false]), ProbeStep::Probe(NFT));
    assert_eq!(probe_step(&vec![false, true]), ProbeStep::Use(NFT));
    assert_eq!(probe_step(&vec![false, false]), ProbeStep::NoneDetected);
    assert_eq!(probe_step(&vec![true, true]), ProbeStep::Use(FW));
}

#[test]
fn names_and_labels() {
    assert_eq!(backend_from_name("firewalld"), Some(FW));
    assert_eq!(backend_from_name("nftables"), Some(NFT));
    assert_eq!(backend_from_name("Firewalld"), None);
    assert_eq!(backend_label(BackendChoice::Nftables, Some("firewalld")), "nftables");
    assert_eq!(backend_label(BackendChoice::Auto, Some("firewalld")), "firewalld");
    assert_eq!(backend_label(BackendChoice::Auto, None), "auto");
}

#[test]
fn requirement_counts_fit() {
    let p = Policy { schema: 1, backend: None, checks: None };
    assert!(sentinelctl::config::required_counts_fit(&p));
    assert!(sentinelctl::config::required_counts_fit(&Policy::default()));
}

#[test]
fn fatal_run_reports() {
    let r = policy_load_failed_report("firewalld", "t".to_string());
    assert_eq!(r.overall, Overall::Error);
    assert_eq!(r.backend, "firewalld");
    assert_eq!(r.findings[0].id, "policy-load-failed");
    assert_eq!(r.findings[0].msg, "policy file missing or invalid (schema=1 required)");
    let r = backend_detect_failed_report("auto", "t".to_string());
    assert_eq!(r.findings.len(), 1);
    assert_eq!(r.findings[0].id, "backend-detect-failed");
    assert_eq!(r.findings[0].msg, "no supported firewall backend detected (firewalld or nftables)");
    assert_eq!(r.summary.checks_failed, 1);
}

#[test]
fn clean_firewalld_report() {
    let p = Policy::default();
    let s = BackendStatus { backend_name: "firewalld", active: true, facts: vec![], raw: String::new() };
    let r = build_report(FW, &p, &s, "t".to_string());
    assert!(r.findings.is_empty());
    assert_eq!(r.overall, Overall::Pass);
    assert_eq!((r.summary.checks_total, r.summary.checks_warn, r.summary.checks_failed), (0, 0, 0));
}
