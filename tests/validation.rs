use sentinelctl::backends::{
    all_backends, parse_zone_listing, Backend, BackendStatus, CmdOutcome, FirewalldBackend,
    NftablesBackend,
};
use sentinelctl::config::{check_schema, Checks, Policy, PolicyError};
use sentinelctl::status::{summarize, ExitStatus, Finding, Overall};

fn strings(items: &[&str]) -> Vec<String> {
    items.iter().map(|s| s.to_string()).collect()
}

fn policy_with(checks: Checks) -> Policy {
    Policy { schema: 1, backend: None, checks: Some(checks) }
}

fn snap(name: &'static str, active: bool, raw: &str) -> BackendStatus {
    BackendStatus { backend_name: name, active, facts: vec![], raw: raw.to_string() }
}

fn checks() -> Checks {
    Checks {
        require_firewall_active: None,
        required_services: None,
        required_ports: None,
        required_fragments: None,
    }
}

fn ids(fs: &[Finding]) -> Vec<String> {
    fs.iter().map(|f| f.id.clone()).collect()
}

#[test]
fn firewalld_missing_service_only_for_absent_one() {
    let mut c = checks();
    c.required_services = Some(strings(&["ssh", "http"]));
    let raw = "public (active)\n  target: default\n  services: ssh dhcpv6-client\n  ports: \n";
    let fs = FirewalldBackend.validate(&policy_with(c), &snap("firewalld", true, raw));
    assert_eq!(ids(&fs), vec!["missing-service:http".to_string()]);
    assert_eq!(fs[0].severity, Overall::Warn);
    assert_eq!(fs[0].msg, "required service not found in zone listing: http");
}

#[test]
fn firewalld_services_are_whole_words() {
    let mut c = checks();
    c.required_services = Some(strings(&["dhcp"]));
    let raw = "  services: dhcpv6-client\n";
    let fs = FirewalldBackend.validate(&policy_with(c), &snap("firewalld", true, raw));
    assert_eq!(ids(&fs), vec!["missing-service:dhcp".to_string()]);
}

#[test]
fn firewalld_missing_ports_after_services() {
    let mut c = checks();
    c.required_services = Some(strings(&["mdns"]));
    c.required_ports = Some(strings(&["22/tcp", "443/tcp"]));
    let raw = "public\n  services: ssh\n  ports: 22/tcp 8080/tcp\n";
    let fs = FirewalldBackend.validate(&policy_with(c), &snap("firewalld", true, raw));
    assert_eq!(
        ids(&fs),
        vec!["missing-service:mdns".to_string(), "missing-port:443/tcp".to_string()]
    );
    assert_eq!(fs[1].msg, "required port not found in zone listing: 443/tcp");
}

#[test]
fn firewalld_nothing_required_gives_no_findings() {
    let p = policy_with(checks());
    let fs = FirewalldBackend.validate(&p, &snap("firewalld", true, "garbage"));
    assert!(fs.is_empty());
    let (overall, summary) = summarize(&fs);
    assert_eq!(overall, Overall::Pass);
    assert_eq!(summary.checks_total, 0);
}

#[test]
fn inactive_gives_single_error() {
    let mut c = checks();
    c.required_services = Some(strings(&["ssh"]));
    c.required_ports = Some(strings(&["22/tcp"]));
    c.required_fragments = Some(strings(&["accept"]));
    let p = policy_with(c);
    let fs = FirewalldBackend.validate(&p, &snap("firewalld", false, ""));
    assert_eq!(ids(&fs), vec!["firewalld-not-running".to_string()]);
    assert_eq!(fs[0].severity, Overall::Error);
    let fs = NftablesBackend.validate(&p, &snap("nftables", false, "oops"));
    assert_eq!(ids(&fs), vec!["nftables-unavailable".to_string()]);
    assert_eq!(fs[0].severity, Overall::Error);
    let (overall, _) = summarize(&fs);
    assert_eq!(overall, Overall::Error);
}

#[test]
fn inactive_allowed_when_not_required() {
    let mut c = checks();
    c.require_firewall_active = Some(false);
    c.required_services = Some(strings(&["ssh"]));
    let fs = FirewalldBackend.validate(&policy_with(c), &snap("firewalld", false, ""));
    assert_eq!(ids(&fs), vec!["missing-service:ssh".to_string()]);
}

#[test]
fn no_checks_block_means_active_required() {
    let p = Policy { schema: 1, backend: None, checks: None };
    let fs = NftablesBackend.validate(&p, &snap("nftables", false, ""));
    assert_eq!(ids(&fs), vec!["nftables-unavailable".to_string()]);
}

#[test]
fn nftables_missing_fragment() {
    let mut c = checks();
    c.required_fragments = Some(strings(&["tcp dport 443", "tcp dport 22"]));
    let raw = "table inet filter {\n chain input {\n  tcp dport 22 accept\n }\n}\n";
    let fs = NftablesBackend.validate(&policy_with(c), &snap("nftables", true, raw));
    assert_eq!(ids(&fs), vec!["missing-fragment:tcp dport 443".to_string()]);
    assert_eq!(fs[0].severity, Overall::Warn);
    assert_eq!(fs[0].msg, "required fragment not found in ruleset: tcp dport 443");
}

#[test]
fn nftables_no_fragments_no_findings() {
    let mut c = checks();
    c.required_fragments = Some(vec![]);
    let fs = NftablesBackend.validate(&policy_with(c), &snap("nftables", true, "tcp dport 22 accept"));
    assert!(fs.is_empty());
}

#[test]
fn validate_twice_is_identical() {
    let mut c = checks();
    c.required_services = Some(strings(&["ssh", "http"]));
    c.required_ports = Some(strings(&["80/tcp"]));
    let p = policy_with(c);
    let s = snap("firewalld", true, "services: ssh\nports: 80/udp\n");
    for b in all_backends() {
        assert_eq!(ids(&b.validate(&p, &s)), ids(&b.validate(&p, &s)));
    }
}

#[test]
fn parse_listing_lines() {
    let raw = "public (active)\n  services: ssh  dhcpv6-client\r\n\tports: 22/tcp\nservices: http\nmyservices: x\n";
    let z = parse_zone_listing(raw);
    assert_eq!(z.services.len(), 3);
    assert!(z.has_service("ssh"));
    assert!(z.has_service("dhcpv6-client"));
    assert!(z.has_service("http"));
    assert!(!z.has_service("x"));
    assert!(!z.has_service("ss"));
    assert!(z.has_port("22/tcp"));
    assert_eq!(z.ports, vec!["22/tcp".chars().collect::<Vec<char>>()]);
}

#[test]
fn parse_empty_listing() {
    let z = parse_zone_listing("");
    assert!(z.services.is_empty());
    assert!(z.ports.is_empty());
}

#[test]
fn backend_dispatch_names() {
    let names: Vec<&str> = all_backends().iter().map(|b| b.name()).collect();
    assert_eq!(names, vec!["firewalld", "nftables"]);
    assert_eq!(Backend::Nftables(NftablesBackend).name(), "nftables");
}

#[test]
fn firewalld_state_outcomes() {
    let fw = FirewalldBackend;
    let ran = |out: &str| CmdOutcome::Exited { code: 0, stdout: out.to_string(), stderr: String::new() };
    assert!(fw.detect_from(&ran("running\n")));
    assert!(fw.detect_from(&ran("  running ")));
    assert!(!fw.detect_from(&ran("not running\n")));
    assert!(!fw.detect_from(&CmdOutcome::TimedOut));
    assert!(!fw.detect_from(&CmdOutcome::SpawnFailed));
    assert_eq!(fw.zone_from(&ran(" public\n")), "public");
    assert_eq!(fw.zone_from(&CmdOutcome::SpawnFailed), "unknown");
}

#[test]
fn firewalld_listing_args() {
    let fw = FirewalldBackend;
    assert_eq!(fw.list_args(&"public".to_string()), strings(&["--zone", "public", "--list-all"]));
    assert_eq!(fw.list_args(&"unknown".to_string()), strings(&["--list-all"]));
    assert_eq!(fw.list_args(&String::new()), strings(&["--list-all"]));
}

#[test]
fn firewalld_snapshot_degrades_per_query() {
    let fw = FirewalldBackend;
    let state = CmdOutcome::Exited { code: 0, stdout: "running\n".into(), stderr: String::new() };
    let s = fw.snapshot_from(&state, "unknown".to_string(), &CmdOutcome::TimedOut);
    assert!(s.active);
    assert_eq!(s.backend_name, "firewalld");
    assert_eq!(s.raw, "");
    assert_eq!(s.facts, vec![("default_zone".to_string(), "unknown".to_string())]);
    let listing = CmdOutcome::Exited { code: 0, stdout: "services: ssh\n".into(), stderr: String::new() };
    let s = fw.snapshot_from(&CmdOutcome::SpawnFailed, "public".to_string(), &listing);
    assert!(!s.active);
    assert_eq!(s.raw, "services: ssh\n");
}

#[test]
fn nftables_snapshot_outcomes() {
    let nft = NftablesBackend;
    let ok = CmdOutcome::Exited { code: 0, stdout: "table".into(), stderr: "e".into() };
    let s = nft.snapshot_from(&ok);
    assert!(s.active);
    assert_eq!(s.raw, "table");
    assert!(nft.detect_from(&ok));
    let bad = CmdOutcome::Exited { code: 1, stdout: "table".into(), stderr: "permission denied".into() };
    let s = nft.snapshot_from(&bad);
    assert!(!s.active);
    assert_eq!(s.raw, "permission denied");
    assert!(!nft.detect_from(&bad));
    let s = nft.snapshot_from(&CmdOutcome::TimedOut);
    assert!(!s.active);
    assert_eq!(s.raw, "");
    assert_eq!(nft.list_args(), strings(&["list", "ruleset"]));
    assert_eq!(nft.program(), "nft");
    assert_eq!(FirewalldBackend.program(), "firewall-cmd");
}

#[test]
fn schema_check() {
    let p = Policy { schema: 2, backend: None, checks: None };
    assert_eq!(check_schema(p).unwrap_err(), PolicyError::UnsupportedSchema(2));
    let p = Policy { schema: 1, backend: Some("nftables".into()), checks: None };
    assert_eq!(check_schema(p).unwrap().backend, Some("nftables".to_string()));
}

#[test]
fn default_policy_requires_active_only() {
    let p = Policy::default();
    assert_eq!(p.schema, 1);
    assert_eq!(p.backend, Some("auto".to_string()));
    let c = p.checks.unwrap();
    assert_eq!(c.require_firewall_active, Some(true));
    assert!(c.required_services.is_none());
    assert!(c.required_ports.is_none());
    assert!(c.required_fragments.is_none());
}

#[test]
fn exit_codes() {
    assert_eq!(ExitStatus::from(Overall::Pass).code(), 0);
    assert_eq!(ExitStatus::from(Overall::Warn).code(), 1);
    assert_eq!(ExitStatus::from(Overall::Error).code(), 2);
    assert_eq!(Overall::Pass.as_str(), "ok");
    assert_eq!(Overall::Warn.as_str(), "warn");
    assert_eq!(Overall::Error.as_str(), "error");
}

#[test]
fn unicode_whitespace_separates_words() {
    let z = parse_zone_listing("\u{3000}services:\u{a0}ssh\u{2009}http\n");
    assert!(z.has_service("ssh"));
    assert!(z.has_service("http"));
    assert_eq!(z.services.len(), 2);
}
