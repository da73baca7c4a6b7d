//! Where the registries and blobs live, relative to the fork registry.
//!
//! One fork registry document; beside it a directory of snapshot
//! registries, one per fork, and a directory of checkpoint registries, one
//! per session, with the blobs of all checkpoints in one directory.

use vstd::prelude::*;
use vstd::string::*;
use crate::checkpoint::{blob_name, spec_blob_name};
use crate::text::{concat2, concat3};

verus! {

/// The path of `name` inside the directory `base`: the two joined by one
/// separator, which is left out where `base` is empty or ends in one.
pub open spec fn spec_join(base: Seq<char>, name: Seq<char>) -> Seq<char> {
    if base.len() == 0 || base.last() == '/' {
        base + name
    } else {
        base + "/"@ + name
    }
}

/// The path of `name` inside the directory `base`.
pub fn join(base: &str, name: &str) -> (r: String)
    ensures
        r@ == spec_join(base@, name@),
{
    let n = base.unicode_len();
    if n == 0 || base.get_char(n - 1) == '/' {
        concat2(base, name)
    } else {
        concat3(base, "/", name)
    }
}

/// The fork registry's path under the user's data directory; under the
/// current directory where the user has none.
pub open spec fn spec_default_registry_path(data_dir: Option<Seq<char>>) -> Seq<char> {
    let base = match data_dir {
        Some(dir) => dir,
        None => "."@,
    };
    spec_join(spec_join(base, "anchor"@), "registry.json"@)
}

/// The fork registry's path, given the user's data directory.
pub fn registry_path_under(data_dir: Option<&str>) -> (r: String)
    ensures
        r@ == spec_default_registry_path(
            match data_dir {
                Some(dir) => Some(dir@),
                None => None,
            },
        ),
{
    let base = match data_dir {
        Some(dir) => dir,
        None => ".",
    };
    let home = join(base, "anchor");
    join(home.as_str(), "registry.json")
}

/// The user's local data directory, from `dirs::data_local_dir`. The
/// answer depends on the platform and on the environment of the process,
/// so nothing is claimed of it: there may be no such directory, and the
/// same call may answer differently in another process.
#[verifier::external_body]
fn local_data_dir() -> (r: Option<String>) {
    dirs::data_local_dir().map(|dir| dir.to_string_lossy().into_owned())
}

/// The fork registry's default path: in the user's local data directory,
/// whatever that is, or under the current directory where the user has
/// none.
pub fn default_registry_path() -> (r: String)
    ensures
        exists|data_dir: Option<Seq<char>>| r@ == spec_default_registry_path(data_dir),
{
    match local_data_dir() {
        Some(dir) => {
            let r = registry_path_under(Some(dir.as_str()));
            assert(r@ == spec_default_registry_path(Some(dir@)));
            r
        },
        None => {
            let r = registry_path_under(None);
            assert(r@ == spec_default_registry_path(None));
            r
        },
    }
}

/// The snapshot registry of the fork `fork_id`, for a fork registry that
/// lies in `dir`.
pub fn snapshot_registry_path(dir: &str, fork_id: &str) -> (r: String)
    ensures
        r@ == spec_join(spec_join(dir@, "snapshots"@), fork_id@ + ".json"@),
{
    let folder = join(dir, "snapshots");
    let file = concat2(fork_id, ".json");
    join(folder.as_str(), file.as_str())
}

/// The checkpoint registry of the session `session`, for a fork registry
/// that lies in `dir`.
pub fn checkpoint_registry_path(dir: &str, session: &str) -> (r: String)
    ensures
        r@ == spec_join(spec_join(dir@, "checkpoints"@), session@ + ".json"@),
{
    let folder = join(dir, "checkpoints");
    let file = concat2(session, ".json");
    join(folder.as_str(), file.as_str())
}

/// The directory of all checkpoint blobs, for a fork registry that lies in
/// `dir`.
pub fn checkpoint_data_dir(dir: &str) -> (r: String)
    ensures
        r@ == spec_join(spec_join(dir@, "checkpoints"@), "data"@),
{
    let folder = join(dir, "checkpoints");
    join(folder.as_str(), "data")
}

/// The blob file of the checkpoint `id` in the blob directory `data_dir`.
pub fn blob_path(data_dir: &str, id: &str) -> (r: String)
    ensures
        r@ == spec_join(data_dir@, spec_blob_name(id@)),
{
    let file = blob_name(id);
    join(data_dir, file.as_str())
}

} // verus!
