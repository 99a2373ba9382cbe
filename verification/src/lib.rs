//! Provisioning of the `epub-lsp` language-analysis server binary.
//!
//! The library decides, step by step, how a host obtains an executable copy of
//! the tool for the running platform: reuse a previously resolved path, adopt a
//! developer-supplied build found in the worktree, or locate, download, unpack
//! and mark executable the matching release asset. All decisions live here and
//! are verified; the host performs the file probes, the release lookup and the
//! download, and feeds the outcomes back as events.

pub mod error;
pub mod paths;
pub mod platform;
pub mod release;
pub mod resolver;
