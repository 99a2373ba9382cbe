//! Full resolution attempts driven step by step through the state machine.

use epub_lsp::platform::{Arch, ArchiveKind, Os, PlatformKey};
use epub_lsp::release::{Asset, Release};
use epub_lsp::resolver::{Action, Event, Request, Resolver};

fn linux_request() -> Request {
    Request {
        worktree_root: "/work".to_string(),
        platform: PlatformKey { os: Os::Linux, arch: Arch::Amd64 },
    }
}

fn linux_release(version: &str) -> Release {
    Release {
        version: version.to_string(),
        assets: vec![Asset {
            name: "epub-lsp_linux_amd64.tar.gz".to_string(),
            download_url: "https://example.com/epub-lsp_linux_amd64.tar.gz".to_string(),
        }],
    }
}

#[test]
fn install_run_linux_amd64() {
    let mut r = Resolver::new();
    assert_eq!(r.cached_binary_path, None);

    let a = r.start(linux_request());
    assert_eq!(a, Action::CheckFile("/work/epub-lsp".to_string()));

    let a = r.on_event(Event::FileStatus(false));
    assert_eq!(a, Action::FetchLatestRelease("toba/epub-lsp".to_string()));

    let a = r.on_event(Event::ReleaseReady(linux_release("1.2.3")));
    assert_eq!(a, Action::CheckFile("epub-lsp-1.2.3/epub-lsp".to_string()));

    let a = r.on_event(Event::FileStatus(false));
    assert_eq!(
        a,
        Action::DownloadArchive {
            url: "https://example.com/epub-lsp_linux_amd64.tar.gz".to_string(),
            version_dir: "epub-lsp-1.2.3".to_string(),
            archive: ArchiveKind::GzipTar,
        }
    );

    let a = r.on_event(Event::Installed);
    assert_eq!(a, Action::MakeExecutable("epub-lsp-1.2.3/epub-lsp".to_string()));

    let a = r.on_event(Event::MarkedExecutable);
    assert_eq!(a, Action::Finish("epub-lsp-1.2.3/epub-lsp".to_string()));
    assert_eq!(r.cached_binary_path, Some("epub-lsp-1.2.3/epub-lsp".to_string()));
}

#[test]
fn second_resolve_reuses_installed_path() {
    let mut r = Resolver::new();
    let _ = r.start(linux_request());
    let _ = r.on_event(Event::FileStatus(false));
    let _ = r.on_event(Event::ReleaseReady(linux_release("1.2.3")));
    let _ = r.on_event(Event::FileStatus(false));
    let _ = r.on_event(Event::Installed);
    let first = r.on_event(Event::MarkedExecutable);
    assert_eq!(first, Action::Finish("epub-lsp-1.2.3/epub-lsp".to_string()));

    // The second attempt probes the remembered path and finishes with the
    // identical answer: no release lookup, no download.
    let a = r.start(linux_request());
    assert_eq!(a, Action::CheckFile("epub-lsp-1.2.3/epub-lsp".to_string()));
    let second = r.on_event(Event::FileStatus(true));
    assert_eq!(second, Action::Finish("epub-lsp-1.2.3/epub-lsp".to_string()));
    assert_eq!(first, second);
}

#[test]
fn already_installed_release_skips_download() {
    let mut r = Resolver::new();
    let _ = r.start(linux_request());
    let _ = r.on_event(Event::FileStatus(false));
    let a = r.on_event(Event::ReleaseReady(linux_release("2.0.0")));
    assert_eq!(a, Action::CheckFile("epub-lsp-2.0.0/epub-lsp".to_string()));

    // The versioned binary already exists on disk: no download, no chmod.
    let a = r.on_event(Event::FileStatus(true));
    assert_eq!(a, Action::Finish("epub-lsp-2.0.0/epub-lsp".to_string()));
    assert_eq!(r.cached_binary_path, Some("epub-lsp-2.0.0/epub-lsp".to_string()));
}

#[test]
fn dev_override_preempts_release_lookup() {
    let mut r = Resolver::new();
    let a = r.start(linux_request());
    assert_eq!(a, Action::CheckFile("/work/epub-lsp".to_string()));

    // The file is present in the worktree: adopted and cached at once.
    let a = r.on_event(Event::FileStatus(true));
    assert_eq!(a, Action::Finish("/work/epub-lsp".to_string()));
    assert_eq!(r.cached_binary_path, Some("/work/epub-lsp".to_string()));
}

#[test]
fn dev_override_wins_even_over_stale_cache() {
    let mut r = Resolver::new();
    r.cached_binary_path = Some("epub-lsp-0.9.0/epub-lsp".to_string());

    let a = r.start(linux_request());
    assert_eq!(a, Action::CheckFile("epub-lsp-0.9.0/epub-lsp".to_string()));

    // The cached file is gone; the worktree build takes over.
    let a = r.on_event(Event::FileStatus(false));
    assert_eq!(a, Action::CheckFile("/work/epub-lsp".to_string()));
    let a = r.on_event(Event::FileStatus(true));
    assert_eq!(a, Action::Finish("/work/epub-lsp".to_string()));
    assert_eq!(r.cached_binary_path, Some("/work/epub-lsp".to_string()));
}

#[test]
fn cached_path_returned_without_any_lookup() {
    let mut r = Resolver::new();
    r.cached_binary_path = Some("epub-lsp-1.0.0/epub-lsp".to_string());

    let a = r.start(linux_request());
    assert_eq!(a, Action::CheckFile("epub-lsp-1.0.0/epub-lsp".to_string()));
    let a = r.on_event(Event::FileStatus(true));
    assert_eq!(a, Action::Finish("epub-lsp-1.0.0/epub-lsp".to_string()));
    assert_eq!(r.cached_binary_path, Some("epub-lsp-1.0.0/epub-lsp".to_string()));
}

#[test]
fn stale_cache_is_not_returned() {
    let mut r = Resolver::new();
    r.cached_binary_path = Some("epub-lsp-1.0.0/epub-lsp".to_string());

    let a = r.start(linux_request());
    assert_eq!(a, Action::CheckFile("epub-lsp-1.0.0/epub-lsp".to_string()));

    // The file behind the cached path was deleted: the attempt moves on to
    // the developer-override probe instead of answering with the stale path.
    let a = r.on_event(Event::FileStatus(false));
    assert_eq!(a, Action::CheckFile("/work/epub-lsp".to_string()));
}

#[test]
fn windows_run_uses_zip_and_exe() {
    let mut r = Resolver::new();
    let req = Request {
        worktree_root: "C:/work".to_string(),
        platform: PlatformKey { os: Os::Windows, arch: Arch::Arm64 },
    };
    let a = r.start(req);
    assert_eq!(a, Action::CheckFile("C:/work/epub-lsp".to_string()));
    let a = r.on_event(Event::FileStatus(false));
    assert_eq!(a, Action::FetchLatestRelease("toba/epub-lsp".to_string()));
    let rel = Release {
        version: "1.0.0".to_string(),
        assets: vec![
            Asset {
                name: "epub-lsp_linux_arm64.tar.gz".to_string(),
                download_url: "https://example.com/linux".to_string(),
            },
            Asset {
                name: "epub-lsp_windows_arm64.zip".to_string(),
                download_url: "https://example.com/windows".to_string(),
            },
        ],
    };
    let a = r.on_event(Event::ReleaseReady(rel));
    assert_eq!(a, Action::CheckFile("epub-lsp-1.0.0/epub-lsp.exe".to_string()));
    let a = r.on_event(Event::FileStatus(false));
    assert_eq!(
        a,
        Action::DownloadArchive {
            url: "https://example.com/windows".to_string(),
            version_dir: "epub-lsp-1.0.0".to_string(),
            archive: ArchiveKind::Zip,
        }
    );
    let a = r.on_event(Event::Installed);
    assert_eq!(a, Action::MakeExecutable("epub-lsp-1.0.0/epub-lsp.exe".to_string()));
    let a = r.on_event(Event::MarkedExecutable);
    assert_eq!(a, Action::Finish("epub-lsp-1.0.0/epub-lsp.exe".to_string()));
}
