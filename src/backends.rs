use vstd::prelude::*;
use crate::config::{
    list_of, required_fragments, required_ports, required_services, requires_active, strings_of,
    Policy,
};
use crate::status::{overall_of, view_findings, Finding, FindingView, Overall};
use crate::text::{
    chars_of, contains_text, has_word, listing_entries, listing_words, occurs_in, seqs_of, text_eq,
    trim, trim_text,
};

verus! {

/// How a run of an external command ended.
pub enum CmdOutcome {
    /// The command ran to its end, with this exit code and captured output.
    Exited { code: i32, stdout: String, stderr: String },
    /// The command could not be started.
    SpawnFailed,
    /// The command did not finish within its time budget and was killed.
    TimedOut,
}

/// A point-in-time read of a backend's observable state.
#[derive(Clone, Debug)]
pub struct BackendStatus {
    pub backend_name: &'static str,
    pub active: bool,
    pub facts: Vec<(String, String)>,
    pub raw: String,
}

/// Copies a string.
fn copy_string(s: &String) -> (r: String)
    ensures
        r@ == s@,
{
    String::from_str(s.as_str())
}

/// A warning that a required item is absent.
pub open spec fn missing_view(
    id_prefix: Seq<char>,
    msg_prefix: Seq<char>,
    item: Seq<char>,
) -> FindingView {
    FindingView { id: id_prefix + item, severity: Overall::Warn, msg: msg_prefix + item }
}

/// One warning for each required item, in order, that is not among `have`.
pub open spec fn missing(
    req: Seq<Seq<char>>,
    have: Seq<Seq<char>>,
    id_prefix: Seq<char>,
    msg_prefix: Seq<char>,
) -> Seq<FindingView>
    decreases req.len(),
{
    if req.len() == 0 {
        seq![]
    } else {
        let rest = missing(req.drop_last(), have, id_prefix, msg_prefix);
        if have.contains(req.last()) {
            rest
        } else {
            rest.push(missing_view(id_prefix, msg_prefix, req.last()))
        }
    }
}

/// One warning for each required fragment, in order, that does not occur in `raw`.
pub open spec fn missing_fragments(req: Seq<Seq<char>>, raw: Seq<char>) -> Seq<FindingView>
    decreases req.len(),
{
    if req.len() == 0 {
        seq![]
    } else {
        let rest = missing_fragments(req.drop_last(), raw);
        if occurs_in(req.last(), raw) {
            rest
        } else {
            rest.push(
                missing_view(
                    "missing-fragment:"@,
                    "required fragment not found in ruleset: "@,
                    req.last(),
                ),
            )
        }
    }
}

pub open spec fn error_view(id: Seq<char>, msg: Seq<char>) -> FindingView {
    FindingView { id, severity: Overall::Error, msg }
}

pub open spec fn firewalld_down() -> FindingView {
    error_view(
        "firewalld-not-running"@,
        "firewalld is not running (firewall-cmd --state != running)"@,
    )
}

pub open spec fn nftables_down() -> FindingView {
    error_view(
        "nftables-unavailable"@,
        "unable to read nftables ruleset (nft list ruleset failed)"@,
    )
}

/// The findings of firewalld's validation: the inactive firewall alone, or else the
/// required services missing from the listing, then the required ports missing.
pub open spec fn firewalld_findings(p: Policy, active: bool, raw: Seq<char>) -> Seq<FindingView> {
    if requires_active(p) && !active {
        seq![firewalld_down()]
    } else {
        missing(
            required_services(p),
            listing_entries(raw, "services:"@),
            "missing-service:"@,
            "required service not found in zone listing: "@,
        ) + missing(
            required_ports(p),
            listing_entries(raw, "ports:"@),
            "missing-port:"@,
            "required port not found in zone listing: "@,
        )
    }
}

/// The findings of nftables' validation: the unreadable ruleset alone, or else the
/// required fragments that do not occur in it.
pub open spec fn nftables_findings(p: Policy, active: bool, raw: Seq<char>) -> Seq<FindingView> {
    if requires_active(p) && !active {
        seq![nftables_down()]
    } else {
        missing_fragments(required_fragments(p), raw)
    }
}

/// A finding of the given severity.
fn make_finding(id: String, severity: Overall, msg: String) -> (r: Finding)
    ensures
        r@ == (FindingView { id: id@, severity, msg: msg@ }),
{
    Finding { id, severity, msg }
}

/// A warning that `item` is absent.
fn missing_finding(id_prefix: &str, msg_prefix: &str, item: &String) -> (r: Finding)
    ensures
        r@ == missing_view(id_prefix@, msg_prefix@, item@),
{
    let mut id = String::from_str(id_prefix);
    id.append(item.as_str());
    let mut msg = String::from_str(msg_prefix);
    msg.append(item.as_str());
    make_finding(id, Overall::Warn, msg)
}

/// Appends a warning for each item of `req` that is not among `have`.
fn push_missing(
    out: &mut Vec<Finding>,
    req: &Vec<String>,
    have: &Vec<Vec<char>>,
    id_prefix: &str,
    msg_prefix: &str,
)
    ensures
        view_findings(final(out)@) == view_findings(old(out)@) + missing(
            strings_of(req@),
            seqs_of(have@),
            id_prefix@,
            msg_prefix@,
        ),
{
    let ghost start = view_findings(out@);
    let mut i: usize = 0;
    while i < req.len()
        invariant
            i <= req@.len(),
            view_findings(out@) == start + missing(
                strings_of(req@).take(i as int),
                seqs_of(have@),
                id_prefix@,
                msg_prefix@,
            ),
        decreases req@.len() - i,
    {
        let ghost before = view_findings(out@);
        let item = chars_of(req[i].as_str());
        proof {
            assert(strings_of(req@).take(i + 1).drop_last() =~= strings_of(req@).take(i as int));
            assert(strings_of(req@).take(i + 1).last() == req@[i as int]@);
        }
        if !has_word(have, &item) {
            let f = missing_finding(id_prefix, msg_prefix, &req[i]);
            out.push(f);
            assert(view_findings(out@) =~= before.push(f@));
        }
        i = i + 1;
    }
    assert(strings_of(req@).take(i as int) =~= strings_of(req@));
}

/// Appends a warning for each fragment of `req` that does not occur in `raw`.
fn push_missing_fragments(out: &mut Vec<Finding>, req: &Vec<String>, raw: &String)
    ensures
        view_findings(final(out)@) == view_findings(old(out)@) + missing_fragments(
            strings_of(req@),
            raw@,
        ),
{
    let ghost start = view_findings(out@);
    let mut i: usize = 0;
    while i < req.len()
        invariant
            i <= req@.len(),
            view_findings(out@) == start + missing_fragments(
                strings_of(req@).take(i as int),
                raw@,
            ),
        decreases req@.len() - i,
    {
        let ghost before = view_findings(out@);
        proof {
            assert(strings_of(req@).take(i + 1).drop_last() =~= strings_of(req@).take(i as int));
            assert(strings_of(req@).take(i + 1).last() == req@[i as int]@);
        }
        if !contains_text(raw.as_str(), req[i].as_str()) {
            let f = missing_finding(
                "missing-fragment:",
                "required fragment not found in ruleset: ",
                &req[i],
            );
            out.push(f);
            assert(view_findings(out@) =~= before.push(f@));
        }
        i = i + 1;
    }
    assert(strings_of(req@).take(i as int) =~= strings_of(req@));
}

/// Whether the policy asks for an active firewall.
fn wants_active(policy: &Policy) -> (r: bool)
    ensures
        r == requires_active(*policy),
{
    match &policy.checks {
        Some(c) => match c.require_firewall_active {
            Some(b) => b,
            None => true,
        },
        None => true,
    }
}

/// The backend driven through the firewalld control utility.
#[derive(Clone, Copy, Debug, PartialEq, Eq, Structural)]
pub struct FirewalldBackend;

/// The backend driven through the nftables listing utility.
#[derive(Clone, Copy, Debug, PartialEq, Eq, Structural)]
pub struct NftablesBackend;

/// Whether the state query reported a running firewall.
pub open spec fn firewalld_running(state: CmdOutcome) -> bool {
    match state {
        CmdOutcome::Exited { stdout, .. } => trim(stdout@) == "running"@,
        _ => false,
    }
}

/// The default zone named by the zone query, or `unknown` where it failed.
pub open spec fn zone_named(zone: CmdOutcome) -> Seq<char> {
    match zone {
        CmdOutcome::Exited { stdout, .. } => trim(stdout@),
        _ => "unknown"@,
    }
}

/// The arguments of the listing query for a default zone.
pub open spec fn listing_args(zone: Seq<char>) -> Seq<Seq<char>> {
    if zone.len() == 0 || zone == "unknown"@ {
        seq!["--list-all"@]
    } else {
        seq!["--zone"@, zone, "--list-all"@]
    }
}

/// The text a listing query produced, or nothing where it failed.
pub open spec fn listing_text(listing: CmdOutcome) -> Seq<char> {
    match listing {
        CmdOutcome::Exited { stdout, .. } => stdout@,
        _ => seq![],
    }
}

impl FirewalldBackend {
    pub fn name(&self) -> (r: &'static str)
        ensures
            r@ == "firewalld"@,
    {
        "firewalld"
    }

    /// The firewalld program.
    pub fn program(&self) -> (r: &'static str)
        ensures
            r@ == "firewall-cmd"@,
    {
        "firewall-cmd"
    }

    /// Reads the outcome of the state query (`--state`): running or not.
    pub fn detect_from(&self, state: &CmdOutcome) -> (r: bool)
        ensures
            r == firewalld_running(*state),
    {
        match state {
            CmdOutcome::Exited { stdout, .. } => text_eq(trim_text(stdout.as_str()), "running"),
            _ => false,
        }
    }

    /// Reads the outcome of the default-zone query (`--get-default-zone`).
    pub fn zone_from(&self, zone: &CmdOutcome) -> (r: String)
        ensures
            r@ == zone_named(*zone),
    {
        match zone {
            CmdOutcome::Exited { stdout, .. } => String::from_str(trim_text(stdout.as_str())),
            _ => String::from_str("unknown"),
        }
    }

    /// The arguments of the listing query: scoped to the default zone where it is
    /// known, unscoped where it is empty or unknown.
    pub fn list_args(&self, zone: &String) -> (r: Vec<String>)
        ensures
            strings_of(r@) == listing_args(zone@),
    {
        let mut r: Vec<String> = Vec::new();
        if text_eq(zone.as_str(), "") || text_eq(zone.as_str(), "unknown") {
            proof {
                reveal_strlit("");
                if zone@.len() == 0 {
                    assert(zone@ =~= ""@);
                }
            }
            r.push(String::from_str("--list-all"));
            assert(strings_of(r@) =~= seq!["--list-all"@]);
        } else {
            proof {
                reveal_strlit("");
                if zone@.len() == 0 {
                    assert(zone@ =~= ""@);
                }
            }
            r.push(String::from_str("--zone"));
            r.push(copy_string(zone));
            r.push(String::from_str("--list-all"));
            assert(strings_of(r@) =~= seq!["--zone"@, zone@, "--list-all"@]);
        }
        r
    }

    /// Folds the outcomes of the state, default-zone and listing queries into a
    /// snapshot; each failed query degrades its own field only.
    pub fn snapshot_from(&self, state: &CmdOutcome, zone: String, listing: &CmdOutcome) -> (r:
        BackendStatus)
        ensures
            r.backend_name@ == "firewalld"@,
            r.active == firewalld_running(*state),
            r.facts@.len() == 1,
            r.facts@[0].0@ == "default_zone"@,
            r.facts@[0].1@ == zone@,
            r.raw@ == listing_text(*listing),
    {
        let active = self.detect_from(state);
        let raw = match listing {
            CmdOutcome::Exited { stdout, .. } => copy_string(stdout),
            _ => String::new(),
        };
        proof {
            assert(raw@ =~= listing_text(*listing));
        }
        let mut facts: Vec<(String, String)> = Vec::new();
        facts.push((String::from_str("default_zone"), zone));
        BackendStatus { backend_name: self.name(), active, facts, raw }
    }

    /// Validates a policy against a snapshot.
    pub fn validate(&self, policy: &Policy, snap: &BackendStatus) -> (r: Vec<Finding>)
        ensures
            view_findings(r@) == firewalld_findings(*policy, snap.active, snap.raw@),
    {
        let mut findings: Vec<Finding> = Vec::new();
        if wants_active(policy) && !snap.active {
            findings.push(
                make_finding(
                    String::from_str("firewalld-not-running"),
                    Overall::Error,
                    String::from_str("firewalld is not running (firewall-cmd --state != running)"),
                ),
            );
            assert(view_findings(findings@) =~= seq![firewalld_down()]);
            return findings;
        }
        let parsed = parse_zone_listing(snap.raw.as_str());
        let services = parsed.services;
        let ports = parsed.ports;
        assert(view_findings(findings@) =~= seq![]);
        match &policy.checks {
            Some(c) => {
                match &c.required_services {
                    Some(req) => push_missing(
                        &mut findings,
                        req,
                        &services,
                        "missing-service:",
                        "required service not found in zone listing: ",
                    ),
                    None => {},
                }
                let ghost mid = view_findings(findings@);
                match &c.required_ports {
                    Some(req) => push_missing(
                        &mut findings,
                        req,
                        &ports,
                        "missing-port:",
                        "required port not found in zone listing: ",
                    ),
                    None => {
                        assert(view_findings(findings@) =~= mid + seq![]);
                    },
                }
            },
            None => {},
        }
        assert(view_findings(findings@) =~= firewalld_findings(*policy, snap.active, snap.raw@));
        findings
    }
}

/// The services and ports named in a firewalld zone listing.
pub struct ZoneListing {
    pub services: Vec<Vec<char>>,
    pub ports: Vec<Vec<char>>,
}

impl ZoneListing {
    /// Whether `name` is one of the listed services.
    pub fn has_service(&self, name: &str) -> (r: bool)
        ensures
            r == seqs_of(self.services@).contains(name@),
    {
        has_word(&self.services, &chars_of(name))
    }

    /// Whether `spec` is one of the listed ports.
    pub fn has_port(&self, spec: &str) -> (r: bool)
        ensures
            r == seqs_of(self.ports@).contains(spec@),
    {
        has_word(&self.ports, &chars_of(spec))
    }
}

/// Parses a zone listing: the words after `services:` on a line that starts with
/// it (leading whitespace aside) are services, those after `ports:` are ports.
pub fn parse_zone_listing(raw: &str) -> (r: ZoneListing)
    ensures
        seqs_of(r.services@) == listing_entries(raw@, "services:"@),
        seqs_of(r.ports@) == listing_entries(raw@, "ports:"@),
{
    let text = chars_of(raw);
    let services = listing_words(&text, &chars_of("services:"));
    let ports = listing_words(&text, &chars_of("ports:"));
    ZoneListing { services, ports }
}

/// Whether a ruleset listing succeeded.
pub open spec fn nft_readable(out: CmdOutcome) -> bool {
    match out {
        CmdOutcome::Exited { code, .. } => code == 0,
        _ => false,
    }
}

/// The ruleset on success, the error text on failure, nothing where the command
/// did not run to its end.
pub open spec fn nft_text(out: CmdOutcome) -> Seq<char> {
    match out {
        CmdOutcome::Exited { code, stdout, stderr } => if code == 0 {
            stdout@
        } else {
            stderr@
        },
        _ => seq![],
    }
}

impl NftablesBackend {
    pub fn name(&self) -> (r: &'static str)
        ensures
            r@ == "nftables"@,
    {
        "nftables"
    }

    /// The nftables program.
    pub fn program(&self) -> (r: &'static str)
        ensures
            r@ == "nft"@,
    {
        "nft"
    }

    /// The arguments of the ruleset listing.
    pub fn list_args(&self) -> (r: Vec<String>)
        ensures
            strings_of(r@) == seq!["list"@, "ruleset"@],
    {
        let mut r: Vec<String> = Vec::new();
        r.push(String::from_str("list"));
        r.push(String::from_str("ruleset"));
        assert(strings_of(r@) =~= seq!["list"@, "ruleset"@]);
        r
    }

    /// Reads the outcome of a ruleset listing: readable or not.
    pub fn detect_from(&self, out: &CmdOutcome) -> (r: bool)
        ensures
            r == nft_readable(*out),
    {
        match out {
            CmdOutcome::Exited { code, .. } => *code == 0,
            _ => false,
        }
    }

    /// Folds the outcome of a ruleset listing into a snapshot.
    pub fn snapshot_from(&self, out: &CmdOutcome) -> (r: BackendStatus)
        ensures
            r.backend_name@ == "nftables"@,
            r.active == nft_readable(*out),
            r.facts@.len() == 0,
            r.raw@ == nft_text(*out),
    {
        let active = self.detect_from(out);
        let raw = match out {
            CmdOutcome::Exited { code, stdout, stderr } => if *code == 0 {
                copy_string(stdout)
            } else {
                copy_string(stderr)
            },
            _ => String::new(),
        };
        proof {
            assert(raw@ =~= nft_text(*out));
        }
        BackendStatus { backend_name: self.name(), active, facts: Vec::new(), raw }
    }

    /// Validates a policy against a snapshot.
    pub fn validate(&self, policy: &Policy, snap: &BackendStatus) -> (r: Vec<Finding>)
        ensures
            view_findings(r@) == nftables_findings(*policy, snap.active, snap.raw@),
    {
        let mut findings: Vec<Finding> = Vec::new();
        if wants_active(policy) && !snap.active {
            findings.push(
                make_finding(
                    String::from_str("nftables-unavailable"),
                    Overall::Error,
                    String::from_str("unable to read nftables ruleset (nft list ruleset failed)"),
                ),
            );
            assert(view_findings(findings@) =~= seq![nftables_down()]);
            return findings;
        }
        assert(view_findings(findings@) =~= seq![]);
        match &policy.checks {
            Some(c) => match &c.required_fragments {
                Some(req) => push_missing_fragments(&mut findings, req, &snap.raw),
                None => {},
            },
            None => {},
        }
        assert(view_findings(findings@) =~= nftables_findings(*policy, snap.active, snap.raw@));
        findings
    }
}

/// One of the supported firewall backends.
#[derive(Clone, Copy, Debug, PartialEq, Eq, Structural)]
pub enum Backend {
    Firewalld(FirewalldBackend),
    Nftables(NftablesBackend),
}

pub open spec fn backend_name(b: Backend) -> Seq<char> {
    match b {
        Backend::Firewalld(_) => "firewalld"@,
        Backend::Nftables(_) => "nftables"@,
    }
}

/// The findings that validating `p` against a snapshot gives on backend `b`.
pub open spec fn backend_findings(b: Backend, p: Policy, active: bool, raw: Seq<char>) -> Seq<
    FindingView,
> {
    match b {
        Backend::Firewalld(_) => firewalld_findings(p, active, raw),
        Backend::Nftables(_) => nftables_findings(p, active, raw),
    }
}

impl Backend {
    pub fn name(&self) -> (r: &'static str)
        ensures
            r@ == backend_name(*self),
    {
        match self {
            Backend::Firewalld(b) => b.name(),
            Backend::Nftables(b) => b.name(),
        }
    }

    /// Validates a policy against a snapshot; a function of its inputs alone.
    pub fn validate(&self, policy: &Policy, snap: &BackendStatus) -> (r: Vec<Finding>)
        ensures
            view_findings(r@) == backend_findings(*self, *policy, snap.active, snap.raw@),
    {
        match self {
            Backend::Firewalld(b) => b.validate(policy, snap),
            Backend::Nftables(b) => b.validate(policy, snap),
        }
    }
}

/// The backends in the order in which they are probed.
pub open spec fn probe_order() -> Seq<Backend> {
    seq![Backend::Firewalld(FirewalldBackend), Backend::Nftables(NftablesBackend)]
}

/// Every supported backend, in probing order.
pub fn all_backends() -> (r: Vec<Backend>)
    ensures
        r@ == probe_order(),
{
    let mut r: Vec<Backend> = Vec::new();
    r.push(Backend::Firewalld(FirewalldBackend));
    r.push(Backend::Nftables(NftablesBackend));
    assert(r@ =~= probe_order());
    r
}

proof fn lemma_missing_len(
    req: Seq<Seq<char>>,
    have: Seq<Seq<char>>,
    id_prefix: Seq<char>,
    msg_prefix: Seq<char>,
)
    ensures
        missing(req, have, id_prefix, msg_prefix).len() <= req.len(),
    decreases req.len(),
{
    if req.len() > 0 {
        lemma_missing_len(req.drop_last(), have, id_prefix, msg_prefix);
    }
}

proof fn lemma_missing_fragments_len(req: Seq<Seq<char>>, raw: Seq<char>)
    ensures
        missing_fragments(req, raw).len() <= req.len(),
    decreases req.len(),
{
    if req.len() > 0 {
        lemma_missing_fragments_len(req.drop_last(), raw);
    }
}

/// Validation yields at most one finding per requirement of the policy, or one.
pub proof fn lemma_findings_bound(b: Backend, p: Policy, active: bool, raw: Seq<char>)
    ensures
        backend_findings(b, p, active, raw).len() <= 1 + required_services(p).len()
            + required_ports(p).len() + required_fragments(p).len(),
{
    lemma_missing_len(
        required_services(p),
        listing_entries(raw, "services:"@),
        "missing-service:"@,
        "required service not found in zone listing: "@,
    );
    lemma_missing_len(
        required_ports(p),
        listing_entries(raw, "ports:"@),
        "missing-port:"@,
        "required port not found in zone listing: "@,
    );
    lemma_missing_fragments_len(required_fragments(p), raw);
}

/// With no required services and no required ports, an active firewalld gives no
/// findings, and so a report of severity `Pass`.
pub proof fn lemma_firewalld_nothing_required(p: Policy, raw: Seq<char>)
    requires
        required_services(p).len() == 0,
        required_ports(p).len() == 0,
    ensures
        firewalld_findings(p, true, raw) == Seq::<FindingView>::empty(),
        overall_of(firewalld_findings(p, true, raw)) == Overall::Pass,
{
    assert(firewalld_findings(p, true, raw) =~= Seq::<FindingView>::empty());
}

/// With no required fragments, a readable nftables ruleset gives no findings.
pub proof fn lemma_nftables_nothing_required(p: Policy, raw: Seq<char>)
    requires
        required_fragments(p).len() == 0,
    ensures
        nftables_findings(p, true, raw) == Seq::<FindingView>::empty(),
{
}

/// An inactive backend, under a policy that asks for an active firewall, gives
/// exactly one finding, of severity `Error`, whatever else the policy asks.
pub proof fn lemma_inactive_single_error(b: Backend, p: Policy, raw: Seq<char>)
    requires
        requires_active(p),
    ensures
        backend_findings(b, p, false, raw).len() == 1,
        backend_findings(b, p, false, raw)[0].severity == Overall::Error,
        overall_of(backend_findings(b, p, false, raw)) == Overall::Error,
{
    let fs = backend_findings(b, p, false, raw);
    assert(fs.drop_last() =~= Seq::<FindingView>::empty());
}

/// Validating the same policy against the same snapshot twice gives identical
/// findings.
pub proof fn lemma_validate_idempotent(
    b: Backend,
    p: Policy,
    active: bool,
    raw: Seq<char>,
    first: Seq<FindingView>,
    second: Seq<FindingView>,
)
    requires
        first == backend_findings(b, p, active, raw),
        second == backend_findings(b, p, active, raw),
    ensures
        first == second,
{
}

} // verus!
