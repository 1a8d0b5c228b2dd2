use norminette::platform::{asset_name_for, Architecture, Os};
use norminette::provision::{
    stale_entries, Action, CleanupPolicy, Event, NorminetteExtension, Phase, ProvisionError,
    Status, Step,
};
use norminette::release::{find_asset, install_path_for, Asset, Release};

fn release(version: &str, names: &[&str]) -> Release {
    Release {
        version: version.to_string(),
        assets: names
            .iter()
            .map(|n| Asset {
                name: n.to_string(),
                download_url: format!("https://example.com/{n}"),
            })
            .collect(),
    }
}

fn strings(v: &[&str]) -> Vec<String> {
    v.iter().map(|s| s.to_string()).collect()
}

fn is_downloading(step: &Step) -> bool {
    matches!(step.status, Some(Status::Downloading))
}

fn finished_path(step: &Step) -> Option<String> {
    match &step.action {
        Action::Finish(Ok(c)) => Some(c.command.clone()),
        _ => None,
    }
}

/// Drives one cycle on Linux x86_64; `cached_file` says whether the cached
/// binary is still on disk, `target_file` whether the install target is.
fn run_cycle(
    p: &mut NorminetteExtension,
    rel: Release,
    cached_file: bool,
    target_file: bool,
    listing: &[&str],
) -> Vec<Step> {
    let mut steps = Vec::new();
    let mut step = p.step(Event::Begin(Os::Linux, Architecture::X8664));
    loop {
        let ev = match &step.action {
            Action::FetchRelease => Event::ReleaseFetched(rel.clone()),
            Action::CheckFile(_) => match &p.phase {
                Phase::AwaitCachedFile { .. } => Event::FileChecked(cached_file),
                _ => Event::FileChecked(target_file),
            },
            Action::Download { .. } => Event::Downloaded,
            Action::MakeExecutable(_) => Event::MadeExecutable,
            Action::ListDirectory => Event::Listed(strings(listing)),
            Action::Remove(_) => Event::Removed,
            Action::Finish(_) => {
                steps.push(step);
                return steps;
            }
        };
        steps.push(step);
        assert!(p.accepts(&ev));
        step = p.step(ev);
    }
}

#[test]
fn asset_names_follow_template() {
    let cases = [
        (Os::Mac, Architecture::Aarch64, "norminette_lsp-aarch64-apple-darwin"),
        (Os::Mac, Architecture::X86, "norminette_lsp-x86-apple-darwin"),
        (Os::Mac, Architecture::X8664, "norminette_lsp-x86_64-apple-darwin"),
        (Os::Linux, Architecture::Aarch64, "norminette_lsp-aarch64-unknown-linux-gnu"),
        (Os::Linux, Architecture::X86, "norminette_lsp-x86-unknown-linux-gnu"),
        (Os::Linux, Architecture::X8664, "norminette_lsp-x86_64-unknown-linux-gnu"),
        (Os::Windows, Architecture::Aarch64, "norminette_lsp-aarch64-windows"),
        (Os::Windows, Architecture::X86, "norminette_lsp-x86-windows"),
        (Os::Windows, Architecture::X8664, "norminette_lsp-x86_64-windows"),
    ];
    for (os, arch, want) in cases {
        assert_eq!(asset_name_for("norminette_lsp", os, arch), want);
    }
    assert_eq!(
        asset_name_for("tool", Os::Linux, Architecture::X8664),
        "tool-x86_64-unknown-linux-gnu"
    );
}

#[test]
fn install_path_is_versioned() {
    assert_eq!(install_path_for("tool", "1.2.0"), "tool_1.2.0");
    assert_eq!(install_path_for("norminette_lsp", "0.3.1"), "norminette_lsp_0.3.1");
}

#[test]
fn find_asset_takes_first_exact_match() {
    let assets = release("1", &["a", "tool-x", "tool-x", "tool-xy"]).assets;
    assert_eq!(find_asset(&assets, &"tool-x".to_string()), Some(1));
    assert_eq!(find_asset(&assets, &"tool-xy".to_string()), Some(3));
    assert_eq!(find_asset(&assets, &"tool".to_string()), None);
    assert_eq!(find_asset(&Vec::new(), &"a".to_string()), None);
}

#[test]
fn stale_entries_keep_order_and_skip_target() {
    let got = stale_entries(&strings(&["old_1", "tool_2", "x", "tool_2"]), &"tool_2".to_string());
    assert_eq!(got, strings(&["old_1", "x"]));
    assert!(stale_entries(&Vec::new(), &"t".to_string()).is_empty());
}

#[test]
fn error_messages() {
    let cases = [
        (ProvisionError::ReleaseFetch("e".into()), "failed to find release: e"),
        (ProvisionError::AssetNotFound("n".into()), "no asset found matching n"),
        (ProvisionError::Download("e".into()), "failed to download file: e"),
        (ProvisionError::Permission("e".into()), "failed to make file executable: e"),
        (ProvisionError::DirectoryList("e".into()), "failed to list working directory: e"),
        (ProvisionError::Cleanup("e".into()), "failed to remove file: e"),
    ];
    for (e, want) in cases {
        assert_eq!(e.message(), want);
    }
}

#[test]
fn new_provisioner_is_empty() {
    let p = NorminetteExtension::new();
    assert_eq!(p.tool, "norminette_lsp");
    assert_eq!(p.policy, CleanupPolicy::FailFast);
    assert!(p.cache.is_none());
    assert!(matches!(p.phase, Phase::Ready));
}

#[test]
fn fresh_install_downloads_and_cleans() {
    let mut p = NorminetteExtension::with_tool("tool", CleanupPolicy::FailFast);
    let rel = release("1.2.0", &["tool-x86_64-unknown-linux-gnu", "tool-aarch64-apple-darwin"]);
    let steps = run_cycle(&mut p, rel, false, false, &["tool_1.1.0", "tool_1.2.0"]);
    let statuses: Vec<&str> = steps
        .iter()
        .filter_map(|s| match &s.status {
            Some(Status::CheckingForUpdate) => Some("checking"),
            Some(Status::Downloading) => Some("downloading"),
            Some(Status::Idle) => Some("idle"),
            Some(Status::Failed(_)) => Some("failed"),
            None => None,
        })
        .collect();
    assert_eq!(statuses, vec!["checking", "downloading", "idle"]);
    let download = steps.iter().find_map(|s| match &s.action {
        Action::Download { url, path } => Some((url.clone(), path.clone())),
        _ => None,
    });
    assert_eq!(
        download,
        Some((
            "https://example.com/tool-x86_64-unknown-linux-gnu".to_string(),
            "tool_1.2.0".to_string()
        ))
    );
    assert!(steps.iter().any(|s| matches!(&s.action, Action::MakeExecutable(x) if x == "tool_1.2.0")));
    let removed: Vec<String> = steps
        .iter()
        .filter_map(|s| match &s.action {
            Action::Remove(x) => Some(x.clone()),
            _ => None,
        })
        .collect();
    assert_eq!(removed, strings(&["tool_1.1.0"]));
    assert_eq!(finished_path(steps.last().unwrap()), Some("tool_1.2.0".to_string()));
    let c = p.cache.as_ref().unwrap();
    assert_eq!((c.path.as_str(), c.version.as_str()), ("tool_1.2.0", "1.2.0"));
    assert!(matches!(p.phase, Phase::Ready));
}

#[test]
fn missing_asset_fails_without_install() {
    let mut p = NorminetteExtension::with_tool("tool", CleanupPolicy::FailFast);
    let rel = release("1.2.0", &["tool-aarch64-apple-darwin"]);
    let steps = run_cycle(&mut p, rel, false, false, &[]);
    assert_eq!(steps.len(), 2);
    let last = steps.last().unwrap();
    assert!(matches!(&last.status, Some(Status::Failed(m)) if m == "no asset found matching tool-x86_64-unknown-linux-gnu"));
    assert!(matches!(&last.action, Action::Finish(Err(ProvisionError::AssetNotFound(n))) if n == "tool-x86_64-unknown-linux-gnu"));
    assert!(!steps.iter().any(|s| matches!(s.action, Action::Download { .. })));
    assert!(p.cache.is_none());
}

#[test]
fn second_call_reuses_cache() {
    let mut p = NorminetteExtension::with_tool("tool", CleanupPolicy::FailFast);
    let rel = release("1.2.0", &["tool-x86_64-unknown-linux-gnu"]);
    let first = run_cycle(&mut p, rel.clone(), false, false, &["tool_1.2.0"]);
    let second = run_cycle(&mut p, rel, true, true, &["tool_1.2.0"]);
    assert!(!second.iter().any(is_downloading));
    assert!(!second.iter().any(|s| matches!(s.action, Action::Download { .. })));
    assert_eq!(finished_path(second.last().unwrap()), finished_path(first.last().unwrap()));
    assert!(matches!(second.last().unwrap().status, Some(Status::Idle)));
}

#[test]
fn deleted_cache_is_downloaded_again() {
    let mut p = NorminetteExtension::with_tool("tool", CleanupPolicy::FailFast);
    let rel = release("1.2.0", &["tool-x86_64-unknown-linux-gnu"]);
    run_cycle(&mut p, rel.clone(), false, false, &["tool_1.2.0"]);
    let again = run_cycle(&mut p, rel, false, false, &["tool_1.2.0"]);
    assert!(again.iter().any(is_downloading));
    assert_eq!(finished_path(again.last().unwrap()), Some("tool_1.2.0".to_string()));
}

#[test]
fn new_version_replaces_cache() {
    let mut p = NorminetteExtension::with_tool("tool", CleanupPolicy::FailFast);
    run_cycle(&mut p, release("1.0.0", &["tool-x86_64-unknown-linux-gnu"]), false, false, &["tool_1.0.0"]);
    let steps = run_cycle(
        &mut p,
        release("1.1.0", &["tool-x86_64-unknown-linux-gnu"]),
        true,
        false,
        &["tool_1.0.0", "tool_1.1.0"],
    );
    assert!(steps.iter().any(is_downloading));
    assert_eq!(p.cache.as_ref().unwrap().version, "1.1.0");
    assert_eq!(finished_path(steps.last().unwrap()), Some("tool_1.1.0".to_string()));
}

#[test]
fn existing_target_skips_download() {
    let mut p = NorminetteExtension::with_tool("tool", CleanupPolicy::FailFast);
    let rel = release("2.0.0", &["tool-x86_64-unknown-linux-gnu"]);
    let steps = run_cycle(&mut p, rel, false, true, &["tool_2.0.0", "junk"]);
    assert!(!steps.iter().any(is_downloading));
    assert!(steps.iter().any(|s| matches!(&s.action, Action::Remove(x) if x == "junk")));
    assert_eq!(finished_path(steps.last().unwrap()), Some("tool_2.0.0".to_string()));
}

fn start_cleanup(policy: CleanupPolicy) -> NorminetteExtension {
    let mut p = NorminetteExtension::with_tool("tool", policy);
    p.step(Event::Begin(Os::Mac, Architecture::Aarch64));
    p.step(Event::ReleaseFetched(release("3", &["tool-aarch64-apple-darwin"])));
    p.step(Event::FileChecked(false));
    p.step(Event::Downloaded);
    p.step(Event::MadeExecutable);
    let s = p.step(Event::Listed(strings(&["a", "tool_3", "b"])));
    assert!(matches!(&s.action, Action::Remove(x) if x == "a"));
    p
}

#[test]
fn cleanup_failure_fails_fast() {
    let mut p = start_cleanup(CleanupPolicy::FailFast);
    let s = p.step(Event::RemoveFailed("busy".into()));
    assert!(matches!(&s.status, Some(Status::Failed(m)) if m == "failed to remove file: busy"));
    assert!(matches!(&s.action, Action::Finish(Err(ProvisionError::Cleanup(e))) if e == "busy"));
    assert!(p.cache.is_none());
    assert!(matches!(p.phase, Phase::Ready));
}

#[test]
fn cleanup_failure_best_effort_goes_on() {
    let mut p = start_cleanup(CleanupPolicy::BestEffort);
    let s = p.step(Event::RemoveFailed("busy".into()));
    assert!(matches!(&s.action, Action::Remove(x) if x == "b"));
    let s = p.step(Event::Removed);
    assert_eq!(finished_path(&s), Some("tool_3".to_string()));
    assert_eq!(p.cache.as_ref().unwrap().path, "tool_3");
}

#[test]
fn release_fetch_failure() {
    let mut p = NorminetteExtension::new();
    p.step(Event::Begin(Os::Windows, Architecture::X86));
    let s = p.step(Event::ReleaseFailed("offline".into()));
    assert!(matches!(&s.status, Some(Status::Failed(m)) if m == "failed to find release: offline"));
    assert!(matches!(&s.action, Action::Finish(Err(ProvisionError::ReleaseFetch(e))) if e == "offline"));
}

#[test]
fn download_permission_and_listing_failures() {
    let fresh = || {
        let mut p = NorminetteExtension::with_tool("tool", CleanupPolicy::FailFast);
        p.step(Event::Begin(Os::Linux, Architecture::Aarch64));
        p.step(Event::ReleaseFetched(release("1", &["tool-aarch64-unknown-linux-gnu"])));
        let s = p.step(Event::FileChecked(false));
        assert!(is_downloading(&s));
        p
    };
    let mut p = fresh();
    let s = p.step(Event::DownloadFailed("404".into()));
    assert!(matches!(&s.action, Action::Finish(Err(ProvisionError::Download(e))) if e == "404"));

    let mut p = fresh();
    p.step(Event::Downloaded);
    let s = p.step(Event::PermissionFailed("ro".into()));
    assert!(matches!(&s.action, Action::Finish(Err(ProvisionError::Permission(e))) if e == "ro"));

    let mut p = fresh();
    p.step(Event::Downloaded);
    p.step(Event::MadeExecutable);
    assert!(!p.accepts(&Event::Removed));
    let s = p.step(Event::ListFailed("denied".into()));
    assert!(matches!(&s.action, Action::Finish(Err(ProvisionError::DirectoryList(e))) if e == "denied"));
    assert!(matches!(&s.status, Some(Status::Failed(m)) if m == "failed to list working directory: denied"));
}
