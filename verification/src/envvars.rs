//! Environment variables for a pod's workload: literal values, and
//! values drawn from the pod object through downward-API field paths.

use vstd::prelude::*;

verus! {

/// One environment variable a container asks for: a literal value, or
/// a field path into the pod object.
pub struct EnvVarSpec {
    pub name: String,
    pub value: Option<String>,
    pub field_path: Option<String>,
}

/// The pod fields the downward API can draw from.
pub struct PodFields {
    pub name: String,
    pub namespace: String,
    pub labels: Vec<(String, String)>,
    pub annotations: Vec<(String, String)>,
    pub host_ip: Option<String>,
    pub pod_ip: Option<String>,
}

/// The first value stored under the key, if any.
pub open spec fn spec_map_lookup(map: Seq<(String, String)>, key: Seq<char>) -> Option<Seq<char>>
    decreases map.len(),
{
    if map.len() == 0 {
        None
    } else if map[0].0@ == key {
        Some(map[0].1@)
    } else {
        spec_map_lookup(map.drop_first(), key)
    }
}

pub open spec fn spec_or_empty(v: Option<Seq<char>>) -> Seq<char> {
    match v {
        Some(s) => s,
        None => Seq::empty(),
    }
}

pub open spec fn spec_opt_view(v: Option<String>) -> Option<Seq<char>> {
    match v {
        Some(s) => Some(s@),
        None => None,
    }
}

/// What a downward-API field path names on the pod: its name, its
/// namespace, one of its labels or annotations, or one of its
/// addresses. An unknown path, or a missing key, yields the empty
/// string.
pub open spec fn spec_field_value(fields: &PodFields, path: Seq<char>) -> Seq<char> {
    if path == "metadata.name"@ {
        fields.name@
    } else if path == "metadata.namespace"@ {
        fields.namespace@
    } else if path.len() >= 16 && path.subrange(0, 16) == "metadata.labels."@ {
        spec_or_empty(spec_map_lookup(fields.labels@, path.skip(16)))
    } else if path.len() >= 21 && path.subrange(0, 21) == "metadata.annotations."@ {
        spec_or_empty(spec_map_lookup(fields.annotations@, path.skip(21)))
    } else if path == "status.hostIP"@ {
        spec_or_empty(spec_opt_view(fields.host_ip))
    } else if path == "status.podIP"@ {
        spec_or_empty(spec_opt_view(fields.pod_ip))
    } else {
        Seq::empty()
    }
}

/// The value one environment variable resolves to: its literal value
/// when it has one, else what its field path names, else empty.
pub open spec fn spec_env_value(e: &EnvVarSpec, fields: &PodFields) -> Seq<char> {
    match e.value {
        Some(v) => v@,
        None => match e.field_path {
            Some(p) => spec_field_value(fields, p@),
            None => Seq::empty(),
        },
    }
}

fn map_lookup(map: &Vec<(String, String)>, key: &str) -> (r: Option<String>)
    ensures
        spec_opt_view(r) == spec_map_lookup(map@, key@),
{
    let key_string = String::from_str(key);
    proof {
        assert(map@.skip(0) =~= map@);
    }
    let mut i: usize = 0;
    while i < map.len()
        invariant
            0 <= i <= map@.len(),
            key_string@ == key@,
            spec_map_lookup(map@, key@) == spec_map_lookup(map@.skip(i as int), key@),
        decreases map@.len() - i,
    {
        proof {
            assert(map@.skip(i as int)[0] == map@[i as int]);
            assert(map@.skip(i as int).drop_first() =~= map@.skip(i + 1));
        }
        if map[i].0.eq(&key_string) {
            return Some(map[i].1.clone());
        }
        i = i + 1;
    }
    proof {
        assert(map@.skip(map@.len() as int).len() == 0);
    }
    None
}

fn or_empty(v: Option<String>) -> (r: String)
    ensures
        r@ == spec_or_empty(spec_opt_view(v)),
{
    match v {
        Some(s) => s,
        None => String::new(),
    }
}

/// Resolve one field path against the pod.
fn field_value(fields: &PodFields, path: &str) -> (r: String)
    ensures
        r@ == spec_field_value(fields, path@),
{
    let labels_prefix = String::from_str("metadata.labels.");
    let annotations_prefix = String::from_str("metadata.annotations.");
    let len = path.unicode_len();
    if String::from_str(path).eq(&String::from_str("metadata.name")) {
        return fields.name.clone();
    }
    if String::from_str(path).eq(&String::from_str("metadata.namespace")) {
        return fields.namespace.clone();
    }
    if len >= 16 && String::from_str(path.substring_char(0, 16)).eq(&labels_prefix) {
        let key = path.substring_char(16, len);
        proof {
            assert(key@ =~= path@.skip(16));
        }
        return or_empty(map_lookup(&fields.labels, key));
    }
    if len >= 21 && String::from_str(path.substring_char(0, 21)).eq(&annotations_prefix) {
        let key = path.substring_char(21, len);
        proof {
            assert(key@ =~= path@.skip(21));
        }
        return or_empty(map_lookup(&fields.annotations, key));
    }
    if String::from_str(path).eq(&String::from_str("status.hostIP")) {
        return or_empty(fields.host_ip.clone());
    }
    if String::from_str(path).eq(&String::from_str("status.podIP")) {
        return or_empty(fields.pod_ip.clone());
    }
    String::new()
}

/// Resolve a container's environment: each variable keeps its name and
/// gets its literal value, or the pod field its path names.
pub fn env_vars(env: &Vec<EnvVarSpec>, fields: &PodFields) -> (r: Vec<(String, String)>)
    ensures
        r@.len() == env@.len(),
        forall|i: int|
            0 <= i < env@.len() ==> {
                &&& (#[trigger] r@[i]).0@ == env@[i].name@
                &&& r@[i].1@ == spec_env_value(&env@[i], fields)
            },
{
    let mut r: Vec<(String, String)> = Vec::new();
    let mut i: usize = 0;
    while i < env.len()
        invariant
            0 <= i <= env@.len(),
            r@.len() == i,
            forall|j: int|
                0 <= j < i ==> {
                    &&& (#[trigger] r@[j]).0@ == env@[j].name@
                    &&& r@[j].1@ == spec_env_value(&env@[j], fields)
                },
        decreases env@.len() - i,
    {
        let value = match &env[i].value {
            Some(v) => v.clone(),
            None => match &env[i].field_path {
                Some(p) => field_value(fields, p.as_str()),
                None => String::new(),
            },
        };
        r.push((env[i].name.clone(), value));
        i = i + 1;
    }
    r
}

} // verus!
