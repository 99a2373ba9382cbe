//! On-disk names derived from a release version and the platform.
//!
//! The version segment in the directory name keeps binaries of different
//! releases from colliding, so an already-installed release is recognised by
//! the mere existence of its binary path.

use vstd::prelude::*;
use vstd::string::StringExecFns;

use crate::platform::{Os, exe_suffix, exe_suffix_spec, tool_name, tool_name_spec};

verus! {

/// Fixed `owner/name` of the repository whose releases ship the tool.
pub open spec fn github_repo_spec() -> Seq<char> {
    "toba/epub-lsp"@
}

pub fn github_repo() -> (r: &'static str)
    ensures
        r@ == github_repo_spec(),
{
    "toba/epub-lsp"
}

/// Where a developer-supplied build of the tool preempts downloading:
/// `{worktree root}/{tool}`, with no platform suffix.
pub open spec fn dev_override_path_spec(root: Seq<char>) -> Seq<char> {
    root + "/"@ + tool_name_spec()
}

pub fn dev_override_path(root: &str) -> (r: String)
    ensures
        r@ == dev_override_path_spec(root@),
{
    let mut s = String::from_str(root);
    s.append("/");
    s.append(tool_name());
    proof {
        assert(s@ =~= dev_override_path_spec(root@));
    }
    s
}

/// The directory one release's files are unpacked into: `{tool}-{version}`.
pub open spec fn version_dir_spec(version: Seq<char>) -> Seq<char> {
    tool_name_spec() + "-"@ + version
}

pub fn version_dir(version: &str) -> (r: String)
    ensures
        r@ == version_dir_spec(version@),
{
    let mut s = String::from_str(tool_name());
    s.append("-");
    s.append(version);
    proof {
        assert(s@ =~= version_dir_spec(version@));
    }
    s
}

/// The installed binary's path: `{version directory}/{tool}{exe suffix}`.
pub open spec fn binary_path_spec(version: Seq<char>, os: Os) -> Seq<char> {
    version_dir_spec(version) + "/"@ + tool_name_spec() + exe_suffix_spec(os)
}

pub fn binary_path(version: &str, os: Os) -> (r: String)
    ensures
        r@ == binary_path_spec(version@, os),
{
    let mut s = version_dir(version);
    s.append("/");
    s.append(tool_name());
    s.append(exe_suffix(os));
    proof {
        assert(s@ =~= binary_path_spec(version@, os));
    }
    s
}

} // verus!
