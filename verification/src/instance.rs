//! The instance record, its lifecycle status, and the filter predicate.

use vstd::prelude::*;
use crate::text::{contains, is_substring, lowercase, same_text};

verus! {

/// One virtual machine as the provider lists it.
#[derive(Debug, Clone)]
pub struct Instance {
    /// Identifier assigned by the provider.
    pub id: String,
    /// Name chosen by the owner.
    pub name: String,
    /// Lifecycle status as the provider spells it.
    pub status: String,
    /// Machine type, such as `e2-micro`.
    pub machine_type: String,
    /// Zone in which the instance runs.
    pub zone: String,
    /// External address, if the instance has one.
    pub external_ip: Option<String>,
    /// Internal address, if the instance has one.
    pub internal_ip: Option<String>,
    /// When the instance was created.
    pub creation_timestamp: Option<String>,
    /// Free-form description.
    pub description: Option<String>,
    /// Metadata as pairs of key and value, no key twice.
    pub metadata: Option<Vec<(String, String)>>,
    /// Tags in the provider's order.
    pub tags: Vec<String>,
}

/// The mapping that a list of pairs stands for.
pub open spec fn pairs_map(pairs: Seq<(String, String)>) -> Map<Seq<char>, Seq<char>>
    decreases pairs.len(),
{
    if pairs.len() == 0 {
        Map::empty()
    } else {
        pairs_map(pairs.drop_last()).insert(pairs.last().0@, pairs.last().1@)
    }
}

/// No key occurs twice in a list of pairs.
pub open spec fn distinct_keys(pairs: Seq<(String, String)>) -> bool {
    forall|a: int, b: int| 0 <= a < b < pairs.len() ==> pairs[a].0@ != pairs[b].0@
}

/// The lifecycle states that the dashboard tells apart.
#[derive(Debug, Clone, Copy, PartialEq, Eq, Structural)]
pub enum Status {
    Running,
    Terminated,
    Stopping,
    Provisioning,
    Staging,
    Suspended,
    Repairing,
    Pending,
    /// Any spelling that is none of the others.
    Unknown,
}

/// The status that a spelling stands for: the eight known words in upper
/// case, and `Unknown` for every other text.
pub open spec fn status_of(s: Seq<char>) -> Status {
    if s == "RUNNING"@ {
        Status::Running
    } else if s == "TERMINATED"@ {
        Status::Terminated
    } else if s == "STOPPING"@ {
        Status::Stopping
    } else if s == "PROVISIONING"@ {
        Status::Provisioning
    } else if s == "STAGING"@ {
        Status::Staging
    } else if s == "SUSPENDED"@ {
        Status::Suspended
    } else if s == "REPAIRING"@ {
        Status::Repairing
    } else if s == "PENDING"@ {
        Status::Pending
    } else {
        Status::Unknown
    }
}

impl Status {
    /// Reads a status from the provider's spelling. Never fails: a spelling
    /// that is not known gives `Unknown`.
    pub fn parse(s: &str) -> (r: Status)
        ensures
            r == status_of(s@),
    {
        if same_text(s, "RUNNING") {
            Status::Running
        } else if same_text(s, "TERMINATED") {
            Status::Terminated
        } else if same_text(s, "STOPPING") {
            Status::Stopping
        } else if same_text(s, "PROVISIONING") {
            Status::Provisioning
        } else if same_text(s, "STAGING") {
            Status::Staging
        } else if same_text(s, "SUSPENDED") {
            Status::Suspended
        } else if same_text(s, "REPAIRING") {
            Status::Repairing
        } else if same_text(s, "PENDING") {
            Status::Pending
        } else {
            Status::Unknown
        }
    }
}

/// A field holds the query, case ignored; `lowered` is the query in lower case.
pub open spec fn field_holds(field: Seq<char>, lowered: Seq<char>) -> bool {
    is_substring(lowered, lowercase(field))
}

/// One of the fields that the filter looks at holds the query, case ignored:
/// name, status, machine type, zone, or the internal address where there is one.
pub open spec fn some_field_holds(inst: Instance, lowered: Seq<char>) -> bool {
    ||| field_holds(inst.name@, lowered)
    ||| field_holds(inst.status@, lowered)
    ||| field_holds(inst.machine_type@, lowered)
    ||| field_holds(inst.zone@, lowered)
    ||| (inst.internal_ip is Some && field_holds(inst.internal_ip->0@, lowered))
}

/// The filter predicate: an empty query matches every instance, any other
/// query matches where one of the fields holds it, case ignored.
pub open spec fn matches_filter(inst: Instance, query: Seq<char>) -> bool {
    query.len() == 0 || some_field_holds(inst, lowercase(query))
}

/// One of the fields holds the query, where the fields and the query are
/// already in lower case.
pub open spec fn lowered_hold(
    name: Seq<char>,
    status: Seq<char>,
    machine_type: Seq<char>,
    zone: Seq<char>,
    internal_ip: Option<Seq<char>>,
    query: Seq<char>,
) -> bool {
    ||| is_substring(query, name)
    ||| is_substring(query, status)
    ||| is_substring(query, machine_type)
    ||| is_substring(query, zone)
    ||| (internal_ip is Some && is_substring(query, internal_ip->0))
}

/// Whether one of the fields holds the query, where the fields and the
/// query are already in lower case.
pub fn lowered_fields_hold(
    name: &str,
    status: &str,
    machine_type: &str,
    zone: &str,
    internal_ip: Option<&str>,
    query: &str,
) -> (r: bool)
    ensures
        r == lowered_hold(
            name@,
            status@,
            machine_type@,
            zone@,
            match internal_ip {
                Some(ip) => Some(ip@),
                None => None,
            },
            query@,
        ),
{
    if contains(name, query) {
        return true;
    }
    if contains(status, query) {
        return true;
    }
    if contains(machine_type, query) {
        return true;
    }
    if contains(zone, query) {
        return true;
    }
    match internal_ip {
        Some(ip) => contains(ip, query),
        None => false,
    }
}

impl Instance {
    /// The record is well formed: no key occurs twice in its metadata.
    pub open spec fn wf(&self) -> bool {
        self.metadata is Some ==> distinct_keys(self.metadata->0@)
    }

    /// The metadata as a mapping from key to value; empty where the
    /// instance has none.
    pub open spec fn metadata_map(&self) -> Map<Seq<char>, Seq<char>> {
        match self.metadata {
            Some(pairs) => pairs_map(pairs@),
            None => Map::empty(),
        }
    }

    /// The lifecycle status that the instance's spelling stands for.
    pub fn lifecycle(&self) -> (r: Status)
        ensures
            r == status_of(self.status@),
    {
        Status::parse(self.status.as_str())
    }

    /// Whether one of the filtered fields holds `lowered`, a query already in
    /// lower case.
    pub fn holds(&self, lowered: &str) -> (r: bool)
        ensures
            r == some_field_holds(*self, lowered@),
    {
        let name = self.name.as_str().to_lowercase();
        let status = self.status.as_str().to_lowercase();
        let machine_type = self.machine_type.as_str().to_lowercase();
        let zone = self.zone.as_str().to_lowercase();
        let internal_ip = match &self.internal_ip {
            Some(ip) => Some(ip.as_str().to_lowercase()),
            None => None,
        };
        let internal_ip_text = match &internal_ip {
            Some(ip) => Some(ip.as_str()),
            None => None,
        };
        lowered_fields_hold(
            name.as_str(),
            status.as_str(),
            machine_type.as_str(),
            zone.as_str(),
            internal_ip_text,
            lowered,
        )
    }

    /// Whether the filter predicate holds of the instance for `query`.
    pub fn matches(&self, query: &str) -> (r: bool)
        ensures
            r == matches_filter(*self, query@),
    {
        if query.is_empty() {
            true
        } else {
            let lowered = query.to_lowercase();
            self.holds(lowered.as_str())
        }
    }
}

} // verus!
