//! The record in which the provider's tool describes an instance, and how
//! an [`Instance`] is read from it.

use vstd::prelude::*;
use crate::instance::{distinct_keys, pairs_map, Instance};
use crate::text::{last_segment, last_segment_of, same_text, text_view};

verus! {

/// One way in which an interface is reached from outside.
#[derive(Debug, Clone)]
pub struct AccessConfig {
    pub nat_ip: Option<String>,
}

/// One network interface of an instance.
#[derive(Debug, Clone)]
pub struct NetworkInterface {
    pub network_ip: Option<String>,
    pub access_configs: Option<Vec<AccessConfig>>,
}

/// One entry of the metadata.
#[derive(Debug, Clone)]
pub struct MetadataItem {
    pub key: Option<String>,
    pub value: Option<String>,
}

/// The metadata of an instance.
#[derive(Debug, Clone)]
pub struct InstanceMetadata {
    pub items: Option<Vec<MetadataItem>>,
}

/// The tags of an instance.
#[derive(Debug, Clone)]
pub struct Tags {
    pub items: Option<Vec<String>>,
}

/// An instance as the provider's tool describes it.
#[derive(Debug, Clone)]
pub struct GcloudInstance {
    pub id: String,
    pub name: String,
    pub status: String,
    /// The machine type, as a URL.
    pub machine_type: String,
    /// The zone, as a URL.
    pub zone: String,
    pub network_interfaces: Option<Vec<NetworkInterface>>,
    pub creation_timestamp: Option<String>,
    pub description: Option<String>,
    pub metadata: Option<InstanceMetadata>,
    pub tags: Option<Tags>,
}

/// The first external address among the access configurations.
pub open spec fn first_nat_ip(configs: Seq<AccessConfig>) -> Option<Seq<char>>
    decreases configs.len(),
{
    if configs.len() == 0 {
        None
    } else {
        match first_nat_ip(configs.drop_last()) {
            Some(ip) => Some(ip),
            None => text_view(configs.last().nat_ip),
        }
    }
}

/// The external address of one interface, if it has one.
pub open spec fn interface_external(iface: NetworkInterface) -> Option<Seq<char>> {
    match iface.access_configs {
        Some(configs) => first_nat_ip(configs@),
        None => None,
    }
}

/// The internal address of an instance: that of the last interface that
/// has one.
pub open spec fn internal_ip_of(ifaces: Seq<NetworkInterface>) -> Option<Seq<char>>
    decreases ifaces.len(),
{
    if ifaces.len() == 0 {
        None
    } else {
        match ifaces.last().network_ip {
            Some(ip) => Some(ip@),
            None => internal_ip_of(ifaces.drop_last()),
        }
    }
}

/// The external address of an instance: that of the last interface that
/// has one.
pub open spec fn external_ip_of(ifaces: Seq<NetworkInterface>) -> Option<Seq<char>>
    decreases ifaces.len(),
{
    if ifaces.len() == 0 {
        None
    } else {
        match interface_external(ifaces.last()) {
            Some(ip) => Some(ip),
            None => external_ip_of(ifaces.drop_last()),
        }
    }
}

/// The mapping that the metadata entries stand for: each entry with both a
/// key and a value maps its key to its value, a later entry before an
/// earlier one with the same key.
pub open spec fn metadata_of(items: Seq<MetadataItem>) -> Map<Seq<char>, Seq<char>>
    decreases items.len(),
{
    if items.len() == 0 {
        Map::empty()
    } else {
        let rest = metadata_of(items.drop_last());
        match (items.last().key, items.last().value) {
            (Some(k), Some(v)) => rest.insert(k@, v@),
            _ => rest,
        }
    }
}

/// The interfaces of a record; none where the record names none.
pub open spec fn interfaces_of(raw: GcloudInstance) -> Seq<NetworkInterface> {
    match raw.network_interfaces {
        Some(list) => list@,
        None => Seq::empty(),
    }
}

/// The metadata entries of a record, where it has any.
pub open spec fn metadata_items_of(raw: GcloudInstance) -> Option<Seq<MetadataItem>> {
    match raw.metadata {
        Some(meta) => match meta.items {
            Some(items) => Some(items@),
            None => None,
        },
        None => None,
    }
}

/// The tags of a record; none where the record names none.
pub open spec fn tags_of(raw: GcloudInstance) -> Seq<String> {
    match raw.tags {
        Some(tags) => match tags.items {
            Some(items) => items@,
            None => Seq::empty(),
        },
        None => Seq::empty(),
    }
}

/// `inst` is the instance that the record `raw` describes.
pub open spec fn converts_to(raw: GcloudInstance, inst: Instance) -> bool {
    &&& inst.id == raw.id
    &&& inst.name == raw.name
    &&& inst.status == raw.status
    &&& inst.machine_type@ == last_segment(raw.machine_type@)
    &&& inst.zone@ == last_segment(raw.zone@)
    &&& text_view(inst.internal_ip) == internal_ip_of(interfaces_of(raw))
    &&& text_view(inst.external_ip) == external_ip_of(interfaces_of(raw))
    &&& inst.creation_timestamp == raw.creation_timestamp
    &&& inst.description == raw.description
    &&& inst.metadata is Some == metadata_items_of(raw) is Some
    &&& inst.wf()
    &&& inst.metadata_map() == match metadata_items_of(raw) {
        Some(items) => metadata_of(items),
        None => Map::empty(),
    }
    &&& inst.tags@ == tags_of(raw)
}

/// Giving a key that the list holds a new value changes the mapping as an
/// insertion does.
proof fn lemma_pairs_update(pairs: Seq<(String, String)>, j: int, entry: (String, String))
    requires
        distinct_keys(pairs),
        0 <= j < pairs.len(),
        pairs[j].0@ == entry.0@,
    ensures
        pairs_map(pairs.update(j, entry)) == pairs_map(pairs).insert(entry.0@, entry.1@),
        distinct_keys(pairs.update(j, entry)),
    decreases pairs.len(),
{
    let changed = pairs.update(j, entry);
    if j == pairs.len() - 1 {
        assert(changed.drop_last() =~= pairs.drop_last());
        assert(pairs_map(changed) =~= pairs_map(pairs).insert(entry.0@, entry.1@));
    } else {
        assert(distinct_keys(pairs.drop_last()));
        lemma_pairs_update(pairs.drop_last(), j, entry);
        assert(changed.drop_last() =~= pairs.drop_last().update(j, entry));
        assert(changed.last() == pairs.last());
        assert(pairs.last().0@ != entry.0@);
        assert(pairs_map(changed) =~= pairs_map(pairs).insert(entry.0@, entry.1@));
    }
}

fn first_nat_ip_in(configs: &Vec<AccessConfig>) -> (r: Option<String>)
    ensures
        text_view(r) == first_nat_ip(configs@),
{
    let mut found: Option<String> = None;
    let mut i: usize = 0;
    while i < configs.len()
        invariant
            i <= configs.len(),
            text_view(found) == first_nat_ip(configs@.take(i as int)),
        decreases configs.len() - i,
    {
        proof {
            assert(configs@.take(i + 1).drop_last() =~= configs@.take(i as int));
        }
        if found.is_none() {
            match &configs[i].nat_ip {
                Some(ip) => {
                    found = Some(ip.clone());
                },
                None => {},
            }
        }
        i += 1;
    }
    proof {
        assert(configs@.take(configs@.len() as int) =~= configs@);
    }
    found
}

fn addresses_in(ifaces: &Vec<NetworkInterface>) -> (r: (Option<String>, Option<String>))
    ensures
        text_view(r.0) == internal_ip_of(ifaces@),
        text_view(r.1) == external_ip_of(ifaces@),
{
    let mut internal: Option<String> = None;
    let mut external: Option<String> = None;
    let mut i: usize = 0;
    while i < ifaces.len()
        invariant
            i <= ifaces.len(),
            text_view(internal) == internal_ip_of(ifaces@.take(i as int)),
            text_view(external) == external_ip_of(ifaces@.take(i as int)),
        decreases ifaces.len() - i,
    {
        proof {
            assert(ifaces@.take(i + 1).drop_last() =~= ifaces@.take(i as int));
        }
        match &ifaces[i].network_ip {
            Some(ip) => {
                internal = Some(ip.clone());
            },
            None => {},
        }
        match &ifaces[i].access_configs {
            Some(configs) => {
                let outward = first_nat_ip_in(configs);
                if outward.is_some() {
                    external = outward;
                }
            },
            None => {},
        }
        i += 1;
    }
    proof {
        assert(ifaces@.take(ifaces@.len() as int) =~= ifaces@);
    }
    (internal, external)
}

fn position_of_key(pairs: &Vec<(String, String)>, key: &str) -> (r: Option<usize>)
    ensures
        r is Some ==> r->0 < pairs@.len() && pairs@[r->0 as int].0@ == key@,
        r is None ==> forall|j: int| 0 <= j < pairs@.len() ==> pairs@[j].0@ != key@,
{
    let mut j: usize = 0;
    while j < pairs.len()
        invariant
            j <= pairs.len(),
            forall|k: int| 0 <= k < j ==> pairs@[k].0@ != key@,
        decreases pairs.len() - j,
    {
        if same_text(pairs[j].0.as_str(), key) {
            return Some(j);
        }
        j += 1;
    }
    None
}

fn metadata_pairs(items: &Vec<MetadataItem>) -> (r: Vec<(String, String)>)
    ensures
        distinct_keys(r@),
        pairs_map(r@) == metadata_of(items@),
{
    let mut pairs: Vec<(String, String)> = Vec::new();
    let mut i: usize = 0;
    while i < items.len()
        invariant
            i <= items.len(),
            distinct_keys(pairs@),
            pairs_map(pairs@) == metadata_of(items@.take(i as int)),
        decreases items.len() - i,
    {
        proof {
            assert(items@.take(i + 1).drop_last() =~= items@.take(i as int));
        }
        match (&items[i].key, &items[i].value) {
            (Some(k), Some(v)) => {
                let entry = (k.clone(), v.clone());
                match position_of_key(&pairs, k.as_str()) {
                    Some(j) => {
                        proof {
                            lemma_pairs_update(pairs@, j as int, entry);
                        }
                        pairs.set(j, entry);
                    },
                    None => {
                        proof {
                            assert(pairs@.push(entry).drop_last() =~= pairs@);
                        }
                        pairs.push(entry);
                    },
                }
            },
            _ => {},
        }
        i += 1;
    }
    proof {
        assert(items@.take(items@.len() as int) =~= items@);
    }
    pairs
}

fn copied_texts(items: &Vec<String>) -> (r: Vec<String>)
    ensures
        r@ == items@,
{
    let mut out: Vec<String> = Vec::new();
    let mut i: usize = 0;
    while i < items.len()
        invariant
            i <= items.len(),
            out@ == items@.take(i as int),
        decreases items.len() - i,
    {
        out.push(items[i].clone());
        proof {
            assert(items@.take(i + 1) =~= items@.take(i as int).push(items@[i as int]));
        }
        i += 1;
    }
    proof {
        assert(items@.take(items@.len() as int) =~= items@);
    }
    out
}

fn copied_text(s: &Option<String>) -> (r: Option<String>)
    ensures
        r == *s,
{
    match s {
        Some(t) => Some(t.clone()),
        None => None,
    }
}

impl Instance {
    /// Reads an instance from the record that describes it. The zone and
    /// the machine type are the last segments of their URLs; the addresses
    /// are those of the last interface that has one; the metadata entries
    /// with both key and value become pairs, no key twice; a record without
    /// tags gives no tags.
    pub fn from_gcloud(raw: &GcloudInstance) -> (r: Instance)
        ensures
            converts_to(*raw, r),
    {
        let (internal_ip, external_ip) = match &raw.network_interfaces {
            Some(ifaces) => addresses_in(ifaces),
            None => (None, None),
        };
        let metadata = match &raw.metadata {
            Some(meta) => match &meta.items {
                Some(items) => Some(metadata_pairs(items)),
                None => None,
            },
            None => None,
        };
        let tags = match &raw.tags {
            Some(tags) => match &tags.items {
                Some(items) => copied_texts(items),
                None => Vec::new(),
            },
            None => Vec::new(),
        };
        let r = Instance {
            id: raw.id.clone(),
            name: raw.name.clone(),
            status: raw.status.clone(),
            machine_type: last_segment_of(raw.machine_type.as_str()),
            zone: last_segment_of(raw.zone.as_str()),
            external_ip,
            internal_ip,
            creation_timestamp: copied_text(&raw.creation_timestamp),
            description: copied_text(&raw.description),
            metadata,
            tags,
        };
        proof {
            assert(r.tags@ =~= tags_of(*raw));
        }
        r
    }
}

/// Reads the instances from the records of a listing, in their order.
pub fn convert_all(records: &Vec<GcloudInstance>) -> (r: Vec<Instance>)
    ensures
        r@.len() == records@.len(),
        forall|i: int| 0 <= i < records@.len() ==> converts_to(records@[i], #[trigger] r@[i]),
{
    let mut out: Vec<Instance> = Vec::new();
    let mut i: usize = 0;
    while i < records.len()
        invariant
            i <= records.len(),
            out@.len() == i,
            forall|k: int| 0 <= k < i ==> converts_to(records@[k], #[trigger] out@[k]),
        decreases records.len() - i,
    {
        out.push(Instance::from_gcloud(&records[i]));
        i += 1;
    }
    out
}

} // verus!
