use vstd::prelude::*;
use crate::backends::{probe_order, Backend, FirewalldBackend, NftablesBackend};
use crate::cli::BackendChoice;
use crate::text::text_eq;

verus! {

/// The backend that a name denotes, if any.
pub open spec fn backend_named(name: Seq<char>) -> Option<Backend> {
    if name == "firewalld"@ {
        Some(Backend::Firewalld(FirewalldBackend))
    } else if name == "nftables"@ {
        Some(Backend::Nftables(NftablesBackend))
    } else {
        None
    }
}

pub fn backend_from_name(name: &str) -> (r: Option<Backend>)
    ensures
        r == backend_named(name@),
{
    if text_eq(name, "firewalld") {
        Some(Backend::Firewalld(FirewalldBackend))
    } else if text_eq(name, "nftables") {
        Some(Backend::Nftables(NftablesBackend))
    } else {
        None
    }
}

pub open spec fn opt_view(o: Option<&str>) -> Option<Seq<char>> {
    match o {
        Some(s) => Some(s@),
        None => None,
    }
}

/// What the override and the policy decide before any probing.
#[derive(Clone, Copy, Debug, PartialEq, Eq, Structural)]
pub enum Preselection {
    /// This backend is used; nothing is probed.
    Chosen(Backend),
    /// The policy names a backend that does not exist.
    UnsupportedPolicyBackend,
    /// The backends are to be probed in order.
    Probe,
}

/// The user's override first; then the policy's backend unless it is absent or
/// `auto`; otherwise probing.
pub open spec fn preselection(choice: BackendChoice, policy_backend: Option<Seq<char>>) -> Preselection {
    match choice {
        BackendChoice::Firewalld => Preselection::Chosen(Backend::Firewalld(FirewalldBackend)),
        BackendChoice::Nftables => Preselection::Chosen(Backend::Nftables(NftablesBackend)),
        BackendChoice::Auto => match policy_backend {
            Some(name) => if name == "auto"@ {
                Preselection::Probe
            } else {
                match backend_named(name) {
                    Some(b) => Preselection::Chosen(b),
                    None => Preselection::UnsupportedPolicyBackend,
                }
            },
            None => Preselection::Probe,
        },
    }
}

pub fn preselect(choice: BackendChoice, policy_backend: Option<&str>) -> (r: Preselection)
    ensures
        r == preselection(choice, opt_view(policy_backend)),
{
    match choice {
        BackendChoice::Firewalld => Preselection::Chosen(Backend::Firewalld(FirewalldBackend)),
        BackendChoice::Nftables => Preselection::Chosen(Backend::Nftables(NftablesBackend)),
        BackendChoice::Auto => match policy_backend {
            Some(name) => if text_eq(name, "auto") {
                Preselection::Probe
            } else {
                match backend_from_name(name) {
                    Some(b) => Preselection::Chosen(b),
                    None => Preselection::UnsupportedPolicyBackend,
                }
            },
            None => Preselection::Probe,
        },
    }
}

/// The backend that an explicit override names.
pub open spec fn overridden(choice: BackendChoice) -> Backend {
    match choice {
        BackendChoice::Nftables => Backend::Nftables(NftablesBackend),
        _ => Backend::Firewalld(FirewalldBackend),
    }
}

/// An explicit override is always the backend used, whatever the policy names and
/// whichever backends would be detected: nothing is probed.
pub proof fn lemma_override_wins(choice: BackendChoice, policy_backend: Option<Seq<char>>)
    requires
        choice != BackendChoice::Auto,
    ensures
        preselection(choice, policy_backend) == Preselection::Chosen(overridden(choice)),
{
}

/// The next step of probing, given the results of the probes made so far.
#[derive(Clone, Copy, Debug, PartialEq, Eq, Structural)]
pub enum ProbeStep {
    /// This backend was detected: use it.
    Use(Backend),
    /// Probe this backend next.
    Probe(Backend),
    /// Every backend was probed and none was detected.
    NoneDetected,
}

/// Probing from position `i` of the probing order on: the first detected backend
/// is used; a backend not yet probed is probed next.
pub open spec fn probe_step_from(detected: Seq<bool>, i: int) -> ProbeStep
    decreases probe_order().len() - i,
{
    if i >= probe_order().len() || i < 0 {
        ProbeStep::NoneDetected
    } else if i >= detected.len() {
        ProbeStep::Probe(probe_order()[i])
    } else if detected[i] {
        ProbeStep::Use(probe_order()[i])
    } else {
        probe_step_from(detected, i + 1)
    }
}

/// Decides the next step of probing from the results so far, `detected[i]` being
/// the result for the `i`-th backend of the probing order.
pub fn probe_step(detected: &Vec<bool>) -> (r: ProbeStep)
    ensures
        r == probe_step_from(detected@, 0),
{
    let order = crate::backends::all_backends();
    let mut i: usize = 0;
    while i < order.len()
        invariant
            order@ == probe_order(),
            i <= order@.len(),
            probe_step_from(detected@, i as int) == probe_step_from(detected@, 0),
        decreases order@.len() - i,
    {
        if i >= detected.len() {
            return ProbeStep::Probe(order[i]);
        }
        if detected[i] {
            return ProbeStep::Use(order[i]);
        }
        i = i + 1;
    }
    ProbeStep::NoneDetected
}

/// The backend name a report is labelled with before a backend is resolved.
pub open spec fn label(choice: BackendChoice, policy_backend: Option<Seq<char>>) -> Seq<char> {
    match choice {
        BackendChoice::Firewalld => "firewalld"@,
        BackendChoice::Nftables => "nftables"@,
        BackendChoice::Auto => match policy_backend {
            Some(name) => name,
            None => "auto"@,
        },
    }
}

pub fn backend_label(choice: BackendChoice, policy_backend: Option<&str>) -> (r: String)
    ensures
        r@ == label(choice, opt_view(policy_backend)),
{
    match choice {
        BackendChoice::Firewalld => String::from_str("firewalld"),
        BackendChoice::Nftables => String::from_str("nftables"),
        BackendChoice::Auto => match policy_backend {
            Some(name) => String::from_str(name),
            None => String::from_str("auto"),
        },
    }
}

} // verus!
