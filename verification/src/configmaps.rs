//! Materializing config maps: which volume mounts call for which config
//! maps, where each file lands, and what it holds. The writes themselves
//! happen outside; these functions compute the exact plan.

use vstd::prelude::*;
use crate::pod::{MountSpec, VolumeSpec};

verus! {

/// The path with every leading slash removed.
pub open spec fn spec_trim_slashes(s: Seq<char>) -> Seq<char>
    decreases s.len(),
{
    if s.len() > 0 && s[0] == '/' {
        spec_trim_slashes(s.drop_first())
    } else {
        s
    }
}

pub fn trim_leading_slashes(s: &str) -> (r: String)
    ensures
        r@ == spec_trim_slashes(s@),
{
    let len = s.unicode_len();
    let mut i: usize = 0;
    proof {
        assert(s@.skip(0) =~= s@);
    }
    while i < len && s.get_char(i) == '/'
        invariant
            0 <= i <= len,
            len == s@.len(),
            spec_trim_slashes(s@) == spec_trim_slashes(s@.skip(i as int)),
        decreases len - i,
    {
        proof {
            assert(s@.skip(i as int)[0] == s@[i as int]);
            assert(s@.skip(i as int).drop_first() =~= s@.skip(i + 1));
        }
        i = i + 1;
    }
    proof {
        if i < len {
            assert(s@.skip(i as int)[0] == s@[i as int]);
        } else {
            assert(s@.skip(i as int) =~= Seq::<char>::empty());
        }
        assert(spec_trim_slashes(s@) == s@.skip(i as int));
        assert(s@.subrange(i as int, len as int) =~= s@.skip(i as int));
    }
    String::from_str(s.substring_char(i, len))
}

/// The directory a mount's config files land in: the pod's config
/// target directory joined with the mount path.
pub fn config_dir_for_mount(target_directory: &str, mount_path: &str) -> (r: String)
    ensures
        r@ == target_directory@ + "/"@ + spec_trim_slashes(mount_path@),
{
    let mut out = String::from_str(target_directory);
    out.append("/");
    let trimmed = trim_leading_slashes(mount_path);
    out.append(trimmed.as_str());
    out
}

/// One file the agent is to write.
pub struct FileWrite {
    pub path: String,
    pub content: String,
}

/// The writes that materialize one config map in one directory: one
/// file per entry, named by the key, holding the value.
pub fn apply_config_map_plan(data: &Vec<(String, String)>, target_directory: &str) -> (r: Vec<
    FileWrite,
>)
    ensures
        r@.len() == data@.len(),
        forall|i: int|
            0 <= i < data@.len() ==> {
                &&& (#[trigger] r@[i]).path@ == target_directory@ + "/"@ + data@[i].0@
                &&& r@[i].content@ == data@[i].1@
            },
{
    let mut r: Vec<FileWrite> = Vec::new();
    let mut i: usize = 0;
    while i < data.len()
        invariant
            0 <= i <= data@.len(),
            r@.len() == i,
            forall|j: int|
                0 <= j < i ==> {
                    &&& (#[trigger] r@[j]).path@ == target_directory@ + "/"@ + data@[j].0@
                    &&& r@[j].content@ == data@[j].1@
                },
        decreases data@.len() - i,
    {
        let mut path = String::from_str(target_directory);
        path.append("/");
        path.append(data[i].0.as_str());
        r.push(FileWrite { path, content: data[i].1.clone() });
        i = i + 1;
    }
    r
}

/// The volumes one mount draws config maps from: every config-map
/// volume sharing the mount's name, in order.
pub open spec fn spec_mount_row(m: int, mount: MountSpec, vols: Seq<VolumeSpec>) -> Seq<(int, int)>
    decreases vols.len(),
{
    if vols.len() == 0 {
        Seq::empty()
    } else {
        let rest = spec_mount_row(m, mount, vols.drop_last());
        if vols.last().name@ == mount.name@ && vols.last().config_map is Some {
            rest.push((m, vols.len() - 1))
        } else {
            rest
        }
    }
}

/// Every (mount, volume) pair the agent acts on, mounts outermost.
pub open spec fn spec_config_pairs(mounts: Seq<MountSpec>, vols: Seq<VolumeSpec>) -> Seq<
    (int, int),
>
    decreases mounts.len(),
{
    if mounts.len() == 0 {
        Seq::empty()
    } else {
        spec_config_pairs(mounts.drop_last(), vols) + spec_mount_row(
            mounts.len() - 1,
            mounts.last(),
            vols,
        )
    }
}

/// Pair each of the container's mounts with the config-map volumes of
/// the same name: exactly the combinations the agent materializes.
pub fn config_mount_pairs(mounts: &Vec<MountSpec>, volumes: &Vec<VolumeSpec>) -> (r: Vec<
    (usize, usize),
>)
    ensures
        r@.map_values(|p: (usize, usize)| (p.0 as int, p.1 as int)) == spec_config_pairs(
            mounts@,
            volumes@,
        ),
{
    let mut r: Vec<(usize, usize)> = Vec::new();
    let mut i: usize = 0;
    proof {
        assert(mounts@.take(0) =~= Seq::<MountSpec>::empty());
        assert(r@.map_values(|p: (usize, usize)| (p.0 as int, p.1 as int)) =~= spec_config_pairs(
            mounts@.take(0),
            volumes@,
        ));
    }
    while i < mounts.len()
        invariant
            0 <= i <= mounts@.len(),
            r@.map_values(|p: (usize, usize)| (p.0 as int, p.1 as int)) == spec_config_pairs(
                mounts@.take(i as int),
                volumes@,
            ),
        decreases mounts@.len() - i,
    {
        let mut j: usize = 0;
        proof {
            assert(volumes@.take(0) =~= Seq::<VolumeSpec>::empty());
            assert(r@.map_values(|p: (usize, usize)| (p.0 as int, p.1 as int)) + spec_mount_row(
                i as int,
                mounts@[i as int],
                volumes@.take(0),
            ) =~= r@.map_values(|p: (usize, usize)| (p.0 as int, p.1 as int)));
        }
        let ghost row_base = r@.map_values(|p: (usize, usize)| (p.0 as int, p.1 as int));
        while j < volumes.len()
            invariant
                0 <= j <= volumes@.len(),
                i < mounts@.len(),
                r@.map_values(|p: (usize, usize)| (p.0 as int, p.1 as int)) == row_base
                    + spec_mount_row(i as int, mounts@[i as int], volumes@.take(j as int)),
            decreases volumes@.len() - j,
        {
            proof {
                assert(volumes@.take(j + 1).drop_last() =~= volumes@.take(j as int));
                assert(volumes@.take(j + 1).last() == volumes@[j as int]);
            }
            let matches_name = volumes[j].name.eq(&mounts[i].name);
            let is_config = matches!(&volumes[j].config_map, Some(_));
            if matches_name && is_config {
                let ghost r0 = r@;
                r.push((i, j));
                proof {
                    assert(spec_mount_row(i as int, mounts@[i as int], volumes@.take(j + 1))
                        == spec_mount_row(i as int, mounts@[i as int], volumes@.take(j as int))
                        .push((i as int, j as int)));
                    assert(r@.map_values(|p: (usize, usize)| (p.0 as int, p.1 as int)) =~= r0
                        .map_values(|p: (usize, usize)| (p.0 as int, p.1 as int)).push(
                        (i as int, j as int),
                    ));
                    assert(r@.map_values(|p: (usize, usize)| (p.0 as int, p.1 as int)) =~= row_base
                        + spec_mount_row(i as int, mounts@[i as int], volumes@.take(j + 1)));
                }
            } else {
                proof {
                    assert(spec_mount_row(i as int, mounts@[i as int], volumes@.take(j + 1))
                        == spec_mount_row(i as int, mounts@[i as int], volumes@.take(j as int)));
                }
            }
            j = j + 1;
        }
        proof {
            assert(volumes@.take(volumes@.len() as int) =~= volumes@);
            assert(mounts@.take(i + 1).drop_last() =~= mounts@.take(i as int));
            assert(mounts@.take(i + 1).last() == mounts@[i as int]);
        }
        i = i + 1;
    }
    proof {
        assert(mounts@.take(mounts@.len() as int) =~= mounts@);
    }
    r
}

} // verus!
