//! The actor-host provider's planning logic: which capabilities an
//! actor gets configured with, what removing an actor entails, and
//! which ports a finished pod releases.
//!
//! The host calls themselves — loading actors, binding capabilities —
//! happen outside; these functions decide exactly what those calls are
//! handed.

use vstd::prelude::*;
use crate::pod::PodKey;

verus! {

/// The digit character of one decimal digit.
pub open spec fn spec_digit(d: nat) -> char {
    if d == 0 {
        '0'
    } else if d == 1 {
        '1'
    } else if d == 2 {
        '2'
    } else if d == 3 {
        '3'
    } else if d == 4 {
        '4'
    } else if d == 5 {
        '5'
    } else if d == 6 {
        '6'
    } else if d == 7 {
        '7'
    } else if d == 8 {
        '8'
    } else {
        '9'
    }
}

/// The decimal rendering of a number, most significant digit first.
pub open spec fn spec_decimal(n: nat) -> Seq<char>
    decreases n,
{
    if n < 10 {
        seq![spec_digit(n)]
    } else {
        spec_decimal(n / 10).push(spec_digit(n % 10))
    }
}

fn push_digit(s: &mut String, d: u64)
    requires
        d < 10,
    ensures
        final(s)@ == old(s)@.push(spec_digit(d as nat)),
{
    if d == 0 {
        proof {
            reveal_strlit("0");
        }
        s.append("0");
        proof {
            assert(final(s)@ =~= old(s)@.push('0'));
        }
    } else if d == 1 {
        proof {
            reveal_strlit("1");
        }
        s.append("1");
        proof {
            assert(final(s)@ =~= old(s)@.push('1'));
        }
    } else if d == 2 {
        proof {
            reveal_strlit("2");
        }
        s.append("2");
        proof {
            assert(final(s)@ =~= old(s)@.push('2'));
        }
    } else if d == 3 {
        proof {
            reveal_strlit("3");
        }
        s.append("3");
        proof {
            assert(final(s)@ =~= old(s)@.push('3'));
        }
    } else if d == 4 {
        proof {
            reveal_strlit("4");
        }
        s.append("4");
        proof {
            assert(final(s)@ =~= old(s)@.push('4'));
        }
    } else if d == 5 {
        proof {
            reveal_strlit("5");
        }
        s.append("5");
        proof {
            assert(final(s)@ =~= old(s)@.push('5'));
        }
    } else if d == 6 {
        proof {
            reveal_strlit("6");
        }
        s.append("6");
        proof {
            assert(final(s)@ =~= old(s)@.push('6'));
        }
    } else if d == 7 {
        proof {
            reveal_strlit("7");
        }
        s.append("7");
        proof {
            assert(final(s)@ =~= old(s)@.push('7'));
        }
    } else if d == 8 {
        proof {
            reveal_strlit("8");
        }
        s.append("8");
        proof {
            assert(final(s)@ =~= old(s)@.push('8'));
        }
    } else {
        proof {
            reveal_strlit("9");
        }
        s.append("9");
        proof {
            assert(final(s)@ =~= old(s)@.push('9'));
        }
    }
}

/// The decimal rendering of a number.
pub fn decimal_string(n: u64) -> (r: String)
    ensures
        r@ == spec_decimal(n as nat),
    decreases n,
{
    if n < 10 {
        let mut s = String::new();
        push_digit(&mut s, n);
        proof {
            assert(s@ =~= spec_decimal(n as nat));
        }
        s
    } else {
        let mut s = decimal_string(n / 10);
        push_digit(&mut s, n % 10);
        s
    }
}

/// Whether the capability list names the capability.
pub open spec fn spec_caps_have(caps: Seq<String>, name: Seq<char>) -> bool {
    exists|i: int| 0 <= i < caps.len() && (#[trigger] caps[i])@ == name
}

fn caps_have(caps: &Vec<String>, name: &String) -> (r: bool)
    ensures
        r == spec_caps_have(caps@, name@),
{
    let mut i: usize = 0;
    while i < caps.len()
        invariant
            0 <= i <= caps@.len(),
            forall|j: int| 0 <= j < i ==> (#[trigger] caps@[j])@ != name@,
        decreases caps@.len() - i,
    {
        if caps[i].eq(name) {
            return true;
        }
        i = i + 1;
    }
    false
}

/// `out` is `base` with one more entry at the end.
pub open spec fn spec_env_extended(
    base: Seq<(String, String)>,
    key: Seq<char>,
    value: Seq<char>,
    out: Seq<(String, String)>,
) -> bool {
    &&& out.len() == base.len() + 1
    &&& forall|i: int|
        0 <= i < base.len() ==> (#[trigger] out[i]).0@ == base[i].0@ && out[i].1@ == base[i].1@
    &&& out.last().0@ == key
    &&& out.last().1@ == value
}

fn env_with(env: &Vec<(String, String)>, key: &str, value: &str) -> (r: Vec<(String, String)>)
    ensures
        spec_env_extended(env@, key@, value@, r@),
{
    let mut out: Vec<(String, String)> = Vec::new();
    let mut i: usize = 0;
    while i < env.len()
        invariant
            0 <= i <= env@.len(),
            out@.len() == i,
            forall|j: int|
                0 <= j < i ==> (#[trigger] out@[j]).0@ == env@[j].0@ && out@[j].1@ == env@[j].1@,
        decreases env@.len() - i,
    {
        out.push((env[i].0.clone(), env[i].1.clone()));
        i = i + 1;
    }
    out.push((String::from_str(key), String::from_str(value)));
    out
}

/// A volume made available to an actor.
pub struct VolumeBinding {
    pub name: String,
    pub host_path: String,
}

/// One capability configuration the host is asked to bind for an actor.
pub struct CapabilityConfig {
    pub name: String,
    pub binding: Option<String>,
    pub env: Vec<(String, String)>,
}

/// Plan the capability configurations for an actor, from the
/// capabilities the actor declares: logging gets the log file's path
/// under the given key, the HTTP server gets the assigned port, and the
/// file system gets one binding per volume with its host path as root.
pub fn capability_plan(
    actor_caps: &Vec<String>,
    env: &Vec<(String, String)>,
    volumes: &Vec<VolumeBinding>,
    log_path: &str,
    log_path_key: &str,
    port_assigned: u64,
) -> (r: Vec<CapabilityConfig>)
    ensures
        ({
            let has_log = spec_caps_have(actor_caps@, "wascc:logging"@);
            let has_http = spec_caps_have(actor_caps@, "wascc:http_server"@);
            let has_fs = spec_caps_have(actor_caps@, "wascc:blobstore"@);
            let n_log: int = if has_log {
                1
            } else {
                0
            };
            let n_http: int = if has_http {
                1
            } else {
                0
            };
            &&& r@.len() == n_log + n_http + (if has_fs {
                volumes@.len() as int
            } else {
                0
            })
            &&& has_log ==> {
                &&& r@[0].name@ == "wascc:logging"@
                &&& r@[0].binding is None
                &&& spec_env_extended(env@, log_path_key@, log_path@, r@[0].env@)
            }
            &&& has_http ==> {
                &&& r@[n_log].name@ == "wascc:http_server"@
                &&& r@[n_log].binding is None
                &&& spec_env_extended(
                    env@,
                    "PORT"@,
                    spec_decimal(port_assigned as nat),
                    r@[n_log].env@,
                )
            }
            &&& has_fs ==> forall|v: int|
                0 <= v < volumes@.len() ==> {
                    let c = #[trigger] r@[n_log + n_http + v];
                    &&& c.name@ == "wascc:blobstore"@
                    &&& c.binding matches Some(b) && b@ == volumes@[v].name@
                    &&& spec_env_extended(env@, "ROOT"@, volumes@[v].host_path@, c.env@)
                }
        }),
{
    let log_cap = String::from_str("wascc:logging");
    let http_cap = String::from_str("wascc:http_server");
    let fs_cap = String::from_str("wascc:blobstore");
    let mut out: Vec<CapabilityConfig> = Vec::new();
    if caps_have(actor_caps, &log_cap) {
        out.push(
            CapabilityConfig {
                name: log_cap,
                binding: None,
                env: env_with(env, log_path_key, log_path),
            },
        );
    }
    if caps_have(actor_caps, &http_cap) {
        let port = decimal_string(port_assigned);
        out.push(
            CapabilityConfig { name: http_cap, binding: None, env: env_with(env, "PORT", port.as_str()) },
        );
    }
    if caps_have(actor_caps, &fs_cap) {
        let base = out.len();
        let ghost out0 = out@;
        let mut v: usize = 0;
        while v < volumes.len()
            invariant
                0 <= v <= volumes@.len(),
                out@.len() == base + v,
                fs_cap@ == "wascc:blobstore"@,
                out0.len() == base,
                forall|j: int| 0 <= j < base ==> (#[trigger] out@[j]) == out0[j],
                forall|j: int|
                    0 <= j < v ==> {
                        let c = #[trigger] out@[base + j];
                        &&& c.name@ == "wascc:blobstore"@
                        &&& c.binding matches Some(b) && b@ == volumes@[j].name@
                        &&& spec_env_extended(env@, "ROOT"@, volumes@[j].host_path@, c.env@)
                    },
            decreases volumes@.len() - v,
        {
            out.push(
                CapabilityConfig {
                    name: fs_cap.clone(),
                    binding: Some(volumes[v].name.clone()),
                    env: env_with(env, "ROOT", volumes[v].host_path.as_str()),
                },
            );
            v = v + 1;
        }
    }
    out
}

/// The plan for stopping an actor: remove it from the host under its
/// public key, and — when it held the file system capability — remove
/// that capability's binding for each of its volumes.
pub struct StopPlan {
    pub actor_key: String,
    pub remove_fs_bindings: Vec<String>,
}

pub fn stop_plan(key: &str, volumes: &Vec<VolumeBinding>, capabilities: &Vec<String>) -> (r:
    StopPlan)
    ensures
        r.actor_key@ == key@,
        spec_caps_have(capabilities@, "wascc:blobstore"@) ==> {
            &&& r.remove_fs_bindings@.len() == volumes@.len()
            &&& forall|i: int|
                0 <= i < volumes@.len() ==> (#[trigger] r.remove_fs_bindings@[i])@
                    == volumes@[i].name@
        },
        !spec_caps_have(capabilities@, "wascc:blobstore"@) ==> r.remove_fs_bindings@.len() == 0,
{
    let fs_cap = String::from_str("wascc:blobstore");
    let mut remove_fs_bindings: Vec<String> = Vec::new();
    if caps_have(capabilities, &fs_cap) {
        let mut i: usize = 0;
        while i < volumes.len()
            invariant
                0 <= i <= volumes@.len(),
                remove_fs_bindings@.len() == i,
                forall|j: int|
                    0 <= j < i ==> (#[trigger] remove_fs_bindings@[j])@ == volumes@[j].name@,
            decreases volumes@.len() - i,
        {
            remove_fs_bindings.push(volumes[i].name.clone());
            i = i + 1;
        }
    }
    StopPlan { actor_key: String::from_str(key), remove_fs_bindings }
}

/// The ports mapped to the key, front to back: what a finished pod
/// releases from the shared port map.
pub open spec fn spec_ports_for(map: Seq<(u16, PodKey)>, key: PodKey) -> Seq<u16>
    decreases map.len(),
{
    if map.len() == 0 {
        Seq::empty()
    } else if map.last().1.key_eq_spec(&key) {
        spec_ports_for(map.drop_last(), key).push(map.last().0)
    } else {
        spec_ports_for(map.drop_last(), key)
    }
}

pub fn ports_to_release(map: &Vec<(u16, PodKey)>, key: &PodKey) -> (r: Vec<u16>)
    ensures
        r@ == spec_ports_for(map@, *key),
{
    let mut r: Vec<u16> = Vec::new();
    let mut i: usize = 0;
    while i < map.len()
        invariant
            0 <= i <= map@.len(),
            r@ == spec_ports_for(map@.take(i as int), *key),
        decreases map@.len() - i,
    {
        proof {
            assert(map@.take(i + 1).drop_last() =~= map@.take(i as int));
            assert(map@.take(i + 1).last() == map@[i as int]);
        }
        if map[i].1 == *key {
            r.push(map[i].0);
        }
        i = i + 1;
    }
    proof {
        assert(map@.take(map@.len() as int) =~= map@);
    }
    r
}

} // verus!
