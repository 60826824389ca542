use vstd::prelude::*;

verus! {

/// What a policy asks to be checked. An absent field is a dimension not checked.
#[derive(Clone, Debug)]
pub struct Checks {
    pub require_firewall_active: Option<bool>,
    pub required_services: Option<Vec<String>>,
    pub required_ports: Option<Vec<String>>,
    pub required_fragments: Option<Vec<String>>,
}

/// The declared expectations a snapshot is validated against.
#[derive(Clone, Debug)]
pub struct Policy {
    pub schema: u32,
    pub backend: Option<String>,
    pub checks: Option<Checks>,
}

/// The only policy schema version this library reads.
pub const POLICY_SCHEMA: u32 = 1;

pub open spec fn strings_of(v: Seq<String>) -> Seq<Seq<char>> {
    v.map_values(|s: String| s@)
}

pub open spec fn list_of(v: Option<Vec<String>>) -> Seq<Seq<char>> {
    match v {
        Some(l) => strings_of(l@),
        None => seq![],
    }
}

/// Whether the policy asks for an active firewall (it does unless it says otherwise).
pub open spec fn requires_active(p: Policy) -> bool {
    match p.checks {
        Some(c) => match c.require_firewall_active {
            Some(b) => b,
            None => true,
        },
        None => true,
    }
}

pub open spec fn required_services(p: Policy) -> Seq<Seq<char>> {
    match p.checks {
        Some(c) => list_of(c.required_services),
        None => seq![],
    }
}

pub open spec fn required_ports(p: Policy) -> Seq<Seq<char>> {
    match p.checks {
        Some(c) => list_of(c.required_ports),
        None => seq![],
    }
}

pub open spec fn required_fragments(p: Policy) -> Seq<Seq<char>> {
    match p.checks {
        Some(c) => list_of(c.required_fragments),
        None => seq![],
    }
}

impl Checks {
    /// The checks of a policy that says nothing: an active firewall, nothing else.
    pub open spec fn spec_default() -> Checks {
        Checks {
            require_firewall_active: Some(true),
            required_services: None,
            required_ports: None,
            required_fragments: None,
        }
    }
}

impl Default for Checks {
    fn default() -> (r: Checks)
        ensures
            r == Checks::spec_default(),
    {
        Checks {
            require_firewall_active: Some(true),
            required_services: None,
            required_ports: None,
            required_fragments: None,
        }
    }
}

impl Default for Policy {
    fn default() -> (r: Policy)
        ensures
            r.schema == POLICY_SCHEMA,
            r.backend matches Some(b) && b@ == "auto"@,
            r.checks == Some(Checks::spec_default()),
    {
        Policy {
            schema: POLICY_SCHEMA,
            backend: Some(String::from_str("auto")),
            checks: Some(Checks::default()),
        }
    }
}

fn list_len(v: &Option<Vec<String>>) -> (r: usize)
    ensures
        r == list_of(*v).len(),
{
    match v {
        Some(l) => l.len(),
        None => 0,
    }
}

/// Whether the policy's requirements are few enough for a report's `u32` counts.
pub fn required_counts_fit(p: &Policy) -> (r: bool)
    ensures
        r == (required_services(*p).len() + required_ports(*p).len() + required_fragments(
            *p,
        ).len() < u32::MAX),
{
    match &p.checks {
        Some(c) => {
            let a = list_len(&c.required_services) as u64;
            let b = list_len(&c.required_ports) as u64;
            let f = list_len(&c.required_fragments) as u64;
            let limit = u32::MAX as u64;
            a < limit && b < limit - a && f < limit - a - b
        },
        None => true,
    }
}

/// Why a policy was refused.
#[derive(Clone, Copy, Debug, PartialEq, Eq, Structural)]
pub enum PolicyError {
    /// The policy declares a schema version other than the one supported.
    UnsupportedSchema(u32),
}

/// Accepts a policy of the supported schema version and refuses any other.
pub fn check_schema(p: Policy) -> (r: Result<Policy, PolicyError>)
    ensures
        p.schema == POLICY_SCHEMA ==> r == Ok::<Policy, PolicyError>(p),
        p.schema != POLICY_SCHEMA ==> r == Err::<Policy, PolicyError>(
            PolicyError::UnsupportedSchema(p.schema),
        ),
{
    if p.schema == POLICY_SCHEMA {
        Ok(p)
    } else {
        let s = p.schema;
        Err(PolicyError::UnsupportedSchema(s))
    }
}

} // verus!
