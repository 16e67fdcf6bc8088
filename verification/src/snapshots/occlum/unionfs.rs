//! The trusted union file system of Occlum, as a plan.
//!
//! Mounting is done by the caller. What is decided here is what to mount
//! with which options, in which order the layers are copied in, and which
//! directories and libraries the root file system needs besides.

use crate::mechanism::strings_view;
use vstd::prelude::*;
use vstd::string::*;

verus! {

/// Type, and source, of the mount.
pub const UNIONFS: &'static str = "unionfs";

/// Key that the file system is encrypted with.
pub const UNIONFS_KEY: &'static str = "c7-32-b3-ed-44-df-ec-7b-25-2d-9a-32-38-8d-58-61";

/// Directory that the C library of Occlum is taken from, and the place it
/// has below the mount path.
pub const OCCLUM_LIB_DIR: &'static str = "/opt/occlum/glibc/lib";

/// The snapshotter of the union file system.
#[derive(Debug)]
pub struct Unionfs {
    /// Directory that the snapshotter works in.
    pub data_dir: String,
    /// Number of the mounts made so far.
    pub index: usize,
}

/// A mounted root file system.
#[derive(Clone, Debug, PartialEq, Eq)]
pub struct MountPoint {
    /// Type of the file system.
    pub fs_type: String,
    /// Where it is mounted.
    pub mount_path: String,
    /// Directory that the snapshotter works in.
    pub work_dir: String,
}

/// What to do to mount the layers of a container.
#[derive(Clone, Debug, PartialEq, Eq)]
pub struct MountPlan {
    /// Options of the mount.
    pub options: String,
    /// The layers, in the order in which they are copied to the mount path:
    /// the last layer of the image first.
    pub layers: Vec<String>,
    /// The mount point that results.
    pub mount_point: MountPoint,
}

/// Options of the mount for the container `cid`: its lower and upper
/// directories below `/images`, and the key.
pub open spec fn mount_options(cid: Seq<char>) -> Seq<char> {
    "lowerdir=/images/"@ + cid + "/sefs/lower,upperdir=/images/"@ + cid + "/sefs/upper,key="@
        + UNIONFS_KEY@
}

/// The names of the directories that every root file system holds.
pub open spec fn system_dirs() -> Seq<Seq<char>> {
    seq!["dev"@, "etc"@, "host"@, "lib"@, "proc"@, "root"@, "sys"@, "tmp"@]
}

/// The names of the libraries that every root file system holds.
pub open spec fn occlum_libs() -> Seq<Seq<char>> {
    seq![
        "libc.so.6"@,
        "libdl.so.2"@,
        "libm.so.6"@,
        "libpthread.so.0"@,
        "libresolv.so.2"@,
        "librt.so.1"@,
    ]
}

/// Each of `names` below the directory `dir`.
pub open spec fn below(dir: Seq<char>, names: Seq<Seq<char>>) -> Seq<Seq<char>> {
    names.map_values(|name: Seq<char>| dir + seq!['/'] + name)
}

/// Puts each of `names` below the directory `dir`.
pub fn paths_below(dir: &str, names: &Vec<&'static str>) -> (paths: Vec<String>)
    ensures
        strings_view(paths) == below(dir@, names@.map_values(|n: &'static str| n@)),
{
    proof {
        reveal_strlit("/");
    }
    let ghost want = below(dir@, names@.map_values(|n: &'static str| n@));
    let mut paths: Vec<String> = Vec::new();
    let mut i: usize = 0;
    while i < names.len()
        invariant
            i <= names.len(),
            want == below(dir@, names@.map_values(|n: &'static str| n@)),
            strings_view(paths) == want.take(i as int),
            "/"@ == seq!['/'],
        decreases names.len() - i,
    {
        let mut path = String::from_str(dir);
        path.append("/");
        path.append(names[i]);
        let ghost before = strings_view(paths);
        paths.push(path);
        assert(strings_view(paths) =~= before.push(path@));
        assert(strings_view(paths) =~= want.take(i + 1));
        i += 1;
    }
    assert(want.take(i as int) =~= want);
    paths
}

impl Unionfs {
    /// The plan for mounting the layers `layer_path` of the container `cid`
    /// at `mount_path`.
    pub fn mount(&self, layer_path: &Vec<String>, mount_path: &str, cid: &str) -> (plan: MountPlan)
        ensures
            plan.options@ == mount_options(cid@),
            strings_view(plan.layers) == strings_view(*layer_path).reverse(),
            plan.mount_point.fs_type@ == UNIONFS@,
            plan.mount_point.mount_path@ == mount_path@,
            plan.mount_point.work_dir@ == self.data_dir@,
    {
        let mut options = String::from_str("lowerdir=/images/");
        options.append(cid);
        options.append("/sefs/lower,upperdir=/images/");
        options.append(cid);
        options.append("/sefs/upper,key=");
        options.append(UNIONFS_KEY);
        let ghost all = strings_view(*layer_path);
        let mut layers: Vec<String> = Vec::new();
        let mut left: usize = layer_path.len();
        while left > 0
            invariant
                left <= layer_path.len(),
                all == strings_view(*layer_path),
                layers.len() == layer_path.len() - left,
                forall|j: int|
                    0 <= j < layers.len() ==> (#[trigger] strings_view(layers)[j]) == all[
                        all.len() - 1 - j],
            decreases left,
        {
            left -= 1;
            let ghost before = strings_view(layers);
            layers.push(layer_path[left].clone());
            assert(strings_view(layers) =~= before.push(all[left as int]));
        }
        assert(strings_view(layers) =~= all.reverse());
        MountPlan {
            options,
            layers,
            mount_point: MountPoint {
                fs_type: String::from_str(UNIONFS),
                mount_path: String::from_str(mount_path),
                work_dir: self.data_dir.clone(),
            },
        }
    }

    /// The path to unmount for a mount point.
    pub fn unmount<'a>(&self, mount_point: &'a MountPoint) -> (path: &'a str)
        ensures
            path@ == mount_point.mount_path@,
    {
        mount_point.mount_path.as_str()
    }
}

/// The directories that a root file system at `mount_path` needs.
pub fn create_environment(mount_path: &str) -> (dirs: Vec<String>)
    ensures
        strings_view(dirs) == below(mount_path@, system_dirs()),
{
    let mut names: Vec<&'static str> = Vec::new();
    names.push("dev");
    names.push("etc");
    names.push("host");
    names.push("lib");
    names.push("proc");
    names.push("root");
    names.push("sys");
    names.push("tmp");
    assert(names@.map_values(|n: &'static str| n@) =~= system_dirs());
    paths_below(mount_path, &names)
}

/// The libraries that a root file system needs, each with its path in the
/// installation of Occlum.
pub fn occlum_libraries() -> (paths: Vec<String>)
    ensures
        strings_view(paths) == below(OCCLUM_LIB_DIR@, occlum_libs()),
{
    let mut names: Vec<&'static str> = Vec::new();
    names.push("libc.so.6");
    names.push("libdl.so.2");
    names.push("libm.so.6");
    names.push("libpthread.so.0");
    names.push("libresolv.so.2");
    names.push("librt.so.1");
    assert(names@.map_values(|n: &'static str| n@) =~= occlum_libs());
    paths_below(OCCLUM_LIB_DIR, &names)
}

} // verus!
