use std::path::PathBuf;

use rnpm::active::{marker_bytes, read_marker, NOT_UTF8};
use rnpm::config::{arch, platform, Config};
use rnpm::error::{AppError, StrError};
use rnpm::install::{extracted_dir, progress_topic, unpack_plan, Progress};
use rnpm::node::{DisplayMode, Lts, Node, NodeStatus};
use rnpm::remove::{plan_removal, removal_prompt, Removal};
use rnpm::state::{filter_releases, local_versions_of, DirEntry, NodeState};
use rnpm::status::{downloading_status, node_hidden, node_status};
use rnpm::version::{is_supported, parse_version, trim_leading_v};

fn arm_linux() -> Config {
    Config::new(PathBuf::from("/home/u/.rnpm"), "linux", "aarch64", 64)
}

fn node(version: &str, lts: Lts) -> Node {
    Node::from_index(version.to_string(), lts)
}

fn dir(name: &str) -> DirEntry {
    DirEntry { name: Some(name.to_string()), is_dir: true }
}

fn strings(v: &[&str]) -> Vec<String> {
    v.iter().map(|s| s.to_string()).collect()
}

#[test]
fn test_node_status_ord() {
    assert!(NodeStatus::Pendding < NodeStatus::Downloading(1));
    assert!(NodeStatus::Downloading(11) < NodeStatus::Downloading(22));
    assert!(NodeStatus::Downloading(33) < NodeStatus::Ready);
    assert!(NodeStatus::Ready < NodeStatus::CurVer);
}

#[test]
fn defaults() {
    assert_eq!(NodeStatus::default(), NodeStatus::Pendding);
    assert_eq!(DisplayMode::default(), DisplayMode::Remote);
    let s = NodeState::default();
    assert!(s.needs_fetch());
    assert!(s.local_versions().is_empty());
}

#[test]
fn platform_names() {
    assert_eq!(platform("macos"), "darwin");
    assert_eq!(platform("linux"), "linux");
    assert_eq!(platform("windows"), "win");
    assert_eq!(platform("freebsd"), "unknown");
}

#[test]
fn arch_names() {
    assert_eq!(arch("arm", 32), "armv7l");
    assert_eq!(arch("x86", 32), "x86");
    assert_eq!(arch("aarch64", 64), "arm64");
    assert_eq!(arch("x86_64", 64), "x64");
}

#[test]
fn filename_forces_x64_before_16() {
    let c = arm_linux();
    assert_eq!(c.filename("v14.0.0"), "node-v14.0.0-linux-x64.tar.xz");
}

#[test]
fn filename_keeps_host_arch_from_16() {
    let c = arm_linux();
    assert_eq!(c.filename("v18.0.0"), "node-v18.0.0-linux-arm64.tar.xz");
}

#[test]
fn filename_of_unparsable_version_keeps_host_arch() {
    let c = arm_linux();
    assert_eq!(c.filename("latest"), "node-latest-linux-arm64.tar.xz");
}

#[test]
fn filename_on_windows_is_zip() {
    let c = Config::new(PathBuf::from("C:\\rnpm"), "windows", "x86_64", 64);
    assert_eq!(c.filename("v20.1.0"), "node-v20.1.0-win-x64.zip");
}

#[test]
fn urls() {
    let c = arm_linux();
    assert_eq!(c.list_url(), "https://nodejs.org/dist/index.json");
    assert_eq!(
        c.download_url("v18.0.0"),
        "https://nodejs.org/dist/v18.0.0/node-v18.0.0-linux-arm64.tar.xz"
    );
    assert_eq!(c.node_dir, PathBuf::from("/home/u/.rnpm"));
}

#[test]
fn version_parsing() {
    assert_eq!(trim_leading_v("vv1.2.3"), "1.2.3");
    assert_eq!(trim_leading_v("1.2.3"), "1.2.3");
    assert_eq!(parse_version("v18.16.0"), Some((18, 16, 0)));
    assert_eq!(parse_version("18.16.0"), Some((18, 16, 0)));
    assert_eq!(parse_version("v18.16"), None);
    assert_eq!(parse_version(""), None);
    assert!(is_supported(4, 0));
    assert!(is_supported(0, 10));
    assert!(is_supported(0, 12));
    assert!(!is_supported(0, 11));
    assert!(!is_supported(2, 0));
}

#[test]
fn lts_flag_means_no_label() {
    let a: Option<String> = Lts::Bool(false).into();
    let b: Option<String> = Lts::Str("Deprecated".to_string()).into();
    assert_eq!(a, None);
    assert_eq!(b, Some("Deprecated".to_string()));
}

#[test]
fn list_filters_unsupported_releases() {
    let fetched = vec![
        node("v20.1.0", Lts::Bool(false)),
        node("v0.10.5", Lts::Str("Deprecated".to_string())),
        node("v2.0.0", Lts::Bool(false)),
    ];
    let kept = filter_releases(&fetched);
    assert_eq!(kept.len(), 2);
    assert_eq!(kept[0].version, "v20.1.0");
    assert_eq!(kept[0].lts, None);
    assert_eq!(kept[1].version, "v0.10.5");
    assert_eq!(kept[1].lts, Some("Deprecated".to_string()));
}

#[test]
fn catalog_is_cached_until_invalidated() {
    let mut s = NodeState::new();
    assert!(s.needs_fetch());
    let fetched = vec![
        node("v18.0.0", Lts::Str("Hydrogen".to_string())),
        node("v0.11.0", Lts::Bool(false)),
        node("garbage", Lts::Bool(false)),
    ];
    s.store_catalog(&fetched);
    assert!(!s.needs_fetch());
    assert_eq!(s.catalog().len(), 1);
    assert_eq!(s.catalog()[0].version, "v18.0.0");
    s.invalidate_catalog();
    assert!(s.needs_fetch());
    assert_eq!(s.catalog().len(), 0);
}

#[test]
fn scan_keeps_version_directories_under_their_names() {
    let entries = vec![
        dir("v18.0.0"),
        dir("20.1.0"),
        DirEntry { name: Some("v16.0.0".to_string()), is_dir: false },
        dir("version"),
        DirEntry { name: None, is_dir: true },
    ];
    assert_eq!(local_versions_of(&entries), strings(&["v18.0.0", "20.1.0"]));
}

#[test]
fn scan_twice_gives_same_result() {
    let entries = vec![dir("v18.0.0"), dir("tmp"), dir("v20.1.0")];
    let mut s = NodeState::new();
    let first = s.store_scan(&entries);
    let second = s.store_scan(&entries);
    assert_eq!(first, second);
    assert_eq!(s.local_versions(), &strings(&["v18.0.0", "v20.1.0"]));
}

#[test]
fn marker_round_trip_is_verbatim() {
    let bytes = marker_bytes("v18.16.0");
    assert_eq!(bytes, b"v18.16.0".to_vec());
    assert_eq!(read_marker(bytes).unwrap(), "v18.16.0");
}

#[test]
fn marker_with_invalid_utf8_is_an_error() {
    let e = read_marker(vec![0xff, 0xfe]).unwrap_err();
    assert_eq!(e.0, NOT_UTF8);
}

#[test]
fn stale_marker_is_not_announced() {
    let mut s = NodeState::new();
    s.store_scan(&vec![dir("v18.0.0")]);
    assert!(s.is_confirmed_active("v18.0.0"));
    assert!(!s.is_confirmed_active("v20.1.0"));
    assert!(!s.is_confirmed_active(""));
    let mut t = NodeState::new();
    t.store_scan(&vec![dir("v18.0.0")]);
    t.store_scan(&vec![dir("v20.1.0")]);
    assert!(!t.is_confirmed_active("v18.0.0"));
}

#[test]
fn progress_over_three_chunks() {
    let mut p = Progress::new(Some(1000));
    let mut seen = Vec::new();
    for len in [300usize, 300, 400] {
        p.advance(len);
        seen.push(p.progress);
    }
    assert_eq!(seen, vec![300, 600, 1000]);
    assert!(seen.windows(2).all(|w| w[0] < w[1]));
    assert_eq!(p.total, 1000);
    assert_eq!(p.progress, 1000);
}

#[test]
fn progress_without_advertised_length() {
    let p = Progress::new(None);
    assert_eq!(p, Progress { total: 0, progress: 0 });
}

#[test]
fn install_directory_is_the_requested_version() {
    let plan = unpack_plan("v14.0.0", "node-v14.0.0-linux-x64.tar.xz");
    assert_eq!(plan.from, "node-v14.0.0-linux-x64");
    assert_eq!(plan.to, "v14.0.0");
    assert_eq!(extracted_dir("a.tar.xz.tar.xz"), "a");
    assert_eq!(extracted_dir("a.zip"), "a.zip");
}

#[test]
fn progress_topic_replaces_dots() {
    assert_eq!(progress_topic("v18.0.0"), "node_download:v18-0-0");
}

#[test]
fn removal_on_decline_keeps_everything() {
    assert!(matches!(plan_removal("v18.0.0", false), Removal::Keep));
    match plan_removal("v18.0.0", true) {
        Removal::Delete(d) => assert_eq!(d, "v18.0.0"),
        Removal::Keep => panic!("a confirmed removal deletes"),
    }
    assert_eq!(removal_prompt("v18.0.0"), "Will the local node version v18.0.0 be deleted?");
}

#[test]
fn status_of_releases() {
    let local = strings(&["v18.0.0", "v20.1.0"]);
    let cur = Some("v20.1.0".to_string());
    assert_eq!(node_status("v16.0.0", &local, &cur), NodeStatus::Pendding);
    assert_eq!(node_status("v18.0.0", &local, &cur), NodeStatus::Ready);
    assert_eq!(node_status("v20.1.0", &local, &cur), NodeStatus::CurVer);
    assert_eq!(node_status("v20.1.0", &local, &None), NodeStatus::Ready);
}

#[test]
fn hidden_releases() {
    let local = strings(&["v18.0.0"]);
    assert!(!node_hidden("v18.0.0", DisplayMode::Remote, &local, "18"));
    assert!(node_hidden("v16.0.0", DisplayMode::Remote, &local, "18"));
    assert!(!node_hidden("v16.0.0", DisplayMode::Remote, &local, ""));
    assert!(node_hidden("v16.0.0", DisplayMode::Local, &local, ""));
    assert!(!node_hidden("v18.0.0", DisplayMode::Local, &local, "v1"));
}

#[test]
fn downloading_percentage() {
    assert_eq!(downloading_status(1000, 300), NodeStatus::Downloading(30));
    assert_eq!(downloading_status(3, 1), NodeStatus::Downloading(33));
    assert_eq!(downloading_status(1000, 1000), NodeStatus::Downloading(100));
    assert_eq!(downloading_status(u64::MAX, u64::MAX), NodeStatus::Downloading(100));
}

#[test]
fn errors_keep_their_message() {
    let e = AppError::from_str("no main window");
    assert_eq!(e.message(), "no main window");
    let s = StrError::from(e);
    assert_eq!(s.message(), "no main window");
}
