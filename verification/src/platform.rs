//! The running platform and the names derived from it.
//!
//! A release of the tool ships one asset per (operating system, architecture)
//! pair, named `{tool}_{os token}_{arch token}.{extension}`; windows assets are
//! zip archives and carry an `.exe` binary, every other platform uses a
//! gzip-compressed tar and a bare binary name. All of these derivations are
//! pure lookups with no fallback branch.

use vstd::prelude::*;
use vstd::string::StringExecFns;

verus! {

/// Operating system of the running host.
#[derive(Clone, Copy, Debug, PartialEq, Eq)]
pub enum Os {
    Mac,
    Linux,
    Windows,
}

/// CPU architecture of the running host.
#[derive(Clone, Copy, Debug, PartialEq, Eq)]
pub enum Arch {
    Arm64,
    Amd64,
    X86,
}

/// The (operating system, architecture) pair that selects a release asset.
#[derive(Clone, Copy, Debug, PartialEq, Eq)]
pub struct PlatformKey {
    pub os: Os,
    pub arch: Arch,
}

/// Archive format of a release asset.
#[derive(Clone, Copy, Debug, PartialEq, Eq)]
pub enum ArchiveKind {
    Zip,
    GzipTar,
}

/// Name of the tool's binary and the stem of every derived name.
pub open spec fn tool_name_spec() -> Seq<char> {
    "epub-lsp"@
}

pub fn tool_name() -> (r: &'static str)
    ensures
        r@ == tool_name_spec(),
{
    "epub-lsp"
}

/// Token naming the operating system inside an asset file name.
pub open spec fn os_token_spec(os: Os) -> Seq<char> {
    match os {
        Os::Mac => "darwin"@,
        Os::Linux => "linux"@,
        Os::Windows => "windows"@,
    }
}

pub fn os_token(os: Os) -> (r: &'static str)
    ensures
        r@ == os_token_spec(os),
{
    match os {
        Os::Mac => "darwin",
        Os::Linux => "linux",
        Os::Windows => "windows",
    }
}

/// Token naming the architecture inside an asset file name.
pub open spec fn arch_token_spec(arch: Arch) -> Seq<char> {
    match arch {
        Arch::Arm64 => "arm64"@,
        Arch::Amd64 => "amd64"@,
        Arch::X86 => "386"@,
    }
}

pub fn arch_token(arch: Arch) -> (r: &'static str)
    ensures
        r@ == arch_token_spec(arch),
{
    match arch {
        Arch::Arm64 => "arm64",
        Arch::Amd64 => "amd64",
        Arch::X86 => "386",
    }
}

/// File-name extension of the archive a platform's asset ships as.
pub open spec fn archive_ext_spec(os: Os) -> Seq<char> {
    match os {
        Os::Windows => "zip"@,
        _ => "tar.gz"@,
    }
}

pub fn archive_ext(os: Os) -> (r: &'static str)
    ensures
        r@ == archive_ext_spec(os),
{
    match os {
        Os::Windows => "zip",
        _ => "tar.gz",
    }
}

/// Archive format of a platform's asset: zip on windows, gzip-tar elsewhere.
pub open spec fn archive_kind_spec(os: Os) -> ArchiveKind {
    match os {
        Os::Windows => ArchiveKind::Zip,
        _ => ArchiveKind::GzipTar,
    }
}

pub fn archive_kind(os: Os) -> (r: ArchiveKind)
    ensures
        r == archive_kind_spec(os),
{
    match os {
        Os::Windows => ArchiveKind::Zip,
        _ => ArchiveKind::GzipTar,
    }
}

/// Suffix of the binary's file name: `.exe` on windows, empty elsewhere.
pub open spec fn exe_suffix_spec(os: Os) -> Seq<char> {
    match os {
        Os::Windows => ".exe"@,
        _ => ""@,
    }
}

pub fn exe_suffix(os: Os) -> (r: &'static str)
    ensures
        r@ == exe_suffix_spec(os),
{
    match os {
        Os::Windows => ".exe",
        _ => "",
    }
}

/// The exact file name of the release asset for a platform:
/// `{tool}_{os token}_{arch token}.{extension}`.
pub open spec fn asset_name_spec(os: Os, arch: Arch) -> Seq<char> {
    tool_name_spec() + "_"@ + os_token_spec(os) + "_"@ + arch_token_spec(arch) + "."@
        + archive_ext_spec(os)
}

pub fn compute_asset_name(key: PlatformKey) -> (r: String)
    ensures
        r@ == asset_name_spec(key.os, key.arch),
{
    let mut s = String::from_str(tool_name());
    s.append("_");
    s.append(os_token(key.os));
    s.append("_");
    s.append(arch_token(key.arch));
    s.append(".");
    s.append(archive_ext(key.os));
    proof {
        assert(s@ =~= asset_name_spec(key.os, key.arch));
    }
    s
}

/// Every asset name begins with the tool's name and an underscore, and ends
/// in `.zip` exactly on windows and in `.tar.gz` on every other platform.
pub proof fn lemma_asset_name_shape(os: Os, arch: Arch)
    ensures
        ({
            let n = asset_name_spec(os, arch);
            &&& n.len() > 12
            &&& n.subrange(0, 9) == tool_name_spec() + "_"@
            &&& os is Windows ==> n.subrange(n.len() - 4, n.len() as int) == ".zip"@
            &&& !(os is Windows) ==> n.subrange(n.len() - 7, n.len() as int) == ".tar.gz"@
        }),
{
    reveal_strlit("epub-lsp");
    reveal_strlit("_");
    reveal_strlit(".");
    reveal_strlit("darwin");
    reveal_strlit("linux");
    reveal_strlit("windows");
    reveal_strlit("arm64");
    reveal_strlit("amd64");
    reveal_strlit("386");
    reveal_strlit("zip");
    reveal_strlit("tar.gz");
    reveal_strlit(".zip");
    reveal_strlit(".tar.gz");
    let n = asset_name_spec(os, arch);
    assert(n.subrange(0, 9) =~= tool_name_spec() + "_"@);
    if os is Windows {
        assert(n.subrange(n.len() - 4, n.len() as int) =~= ".zip"@);
    } else {
        assert(n.subrange(n.len() - 7, n.len() as int) =~= ".tar.gz"@);
    }
}

} // verus!
