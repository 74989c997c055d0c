//! Where releases come from and what their archives are called on this host.
use std::path::PathBuf;
use vstd::prelude::*;
use crate::text::same_text;
use crate::version::{parse_version, version_of};

verus! {

/// `std::path::PathBuf`, carried through unread: the install root is only
/// handed back to the code that touches the disk.
#[verifier::external_type_specification]
#[verifier::external_body]
pub struct ExPathBuf(PathBuf);

/// Where the remote release index and archives live.
pub const NODE_URL: &'static str = "https://nodejs.org/dist";

/// The platform name used in archive names, for a target operating system.
pub open spec fn platform_name(os: Seq<char>) -> Seq<char> {
    if os == "macos"@ {
        "darwin"@
    } else if os == "linux"@ {
        "linux"@
    } else if os == "windows"@ {
        "win"@
    } else {
        "unknown"@
    }
}

/// Whether a target architecture belongs to the ARM family.
pub open spec fn is_arm(target_arch: Seq<char>) -> bool {
    target_arch == "arm"@ || target_arch == "aarch64"@
}

/// The architecture name used in archive names, for a target architecture
/// and pointer width.
pub open spec fn arch_name(target_arch: Seq<char>, pointer_width: u32) -> Seq<char> {
    if pointer_width == 32 {
        if is_arm(target_arch) {
            "armv7l"@
        } else {
            "x86"@
        }
    } else {
        if is_arm(target_arch) {
            "arm64"@
        } else {
            "x64"@
        }
    }
}

/// The architecture an archive of `version` is published for: releases
/// before 16 exist only as 64-bit x86 builds of this name.
pub open spec fn archive_arch(host_arch: Seq<char>, version: Seq<char>) -> Seq<char> {
    match version_of(version) {
        Some((major, _, _)) => if major < 16 {
            "x64"@
        } else {
            host_arch
        },
        None => host_arch,
    }
}

/// The archive format of a platform.
pub open spec fn archive_suffix(platform: Seq<char>) -> Seq<char> {
    if platform == "win"@ {
        "zip"@
    } else {
        "tar.xz"@
    }
}

/// The archive name of `version` for a platform and host architecture.
pub open spec fn filename_of(platform: Seq<char>, arch: Seq<char>, version: Seq<char>) -> Seq<
    char,
> {
    "node-"@ + version + "-"@ + platform + "-"@ + archive_arch(arch, version) + "."@
        + archive_suffix(platform)
}

/// The platform name used in archive names, for a target operating system
/// such as `linux` or `macos`.
pub fn platform(os: &str) -> (r: String)
    ensures
        r@ == platform_name(os@),
{
    if same_text(os, "macos") {
        String::from_str("darwin")
    } else if same_text(os, "linux") {
        String::from_str("linux")
    } else if same_text(os, "windows") {
        String::from_str("win")
    } else {
        String::from_str("unknown")
    }
}

/// The architecture name used in archive names, for a target architecture
/// such as `aarch64` and a pointer width in bits.
pub fn arch(target_arch: &str, pointer_width: u32) -> (r: String)
    requires
        pointer_width == 32 || pointer_width == 64,
    ensures
        r@ == arch_name(target_arch@, pointer_width),
{
    let arm = same_text(target_arch, "arm") || same_text(target_arch, "aarch64");
    if pointer_width == 32 {
        if arm {
            String::from_str("armv7l")
        } else {
            String::from_str("x86")
        }
    } else {
        if arm {
            String::from_str("arm64")
        } else {
            String::from_str("x64")
        }
    }
}

/// Where releases are fetched from and installed to, and the host's names.
pub struct Config {
    pub node_url: String,
    pub node_dir: PathBuf,
    pub platform: String,
    pub arch: String,
}

impl Config {
    /// The configuration for an install root and the host's operating
    /// system, architecture and pointer width.
    pub fn new(node_dir: PathBuf, os: &str, target_arch: &str, pointer_width: u32) -> (r: Config)
        requires
            pointer_width == 32 || pointer_width == 64,
        ensures
            r.node_url@ == NODE_URL@,
            r.node_dir == node_dir,
            r.platform@ == platform_name(os@),
            r.arch@ == arch_name(target_arch@, pointer_width),
    {
        Config {
            node_url: String::from_str(NODE_URL),
            node_dir,
            platform: platform(os),
            arch: arch(target_arch, pointer_width),
        }
    }

    /// The archive name of `version`, such as `node-v18.0.0-linux-arm64.tar.xz`.
    pub fn filename(&self, version: &str) -> (r: String)
        ensures
            r@ == filename_of(self.platform@, self.arch@, version@),
    {
        let mut arch = self.arch.clone();
        match parse_version(version) {
            Some((major, _, _)) => {
                if major < 16 {
                    arch = String::from_str("x64");
                }
            },
            None => {},
        }
        let suffix = if same_text(self.platform.as_str(), "win") {
            "zip"
        } else {
            "tar.xz"
        };
        let mut r = String::from_str("node-");
        r.append(version);
        r.append("-");
        r.append(self.platform.as_str());
        r.append("-");
        r.append(arch.as_str());
        r.append(".");
        r.append(suffix);
        r
    }

    /// Where the archive of `version` is downloaded from.
    pub fn download_url(&self, version: &str) -> (r: String)
        ensures
            r@ == self.node_url@ + "/"@ + version@ + "/"@ + filename_of(
                self.platform@,
                self.arch@,
                version@,
            ),
    {
        let filename = self.filename(version);
        let mut r = self.node_url.clone();
        r.append("/");
        r.append(version);
        r.append("/");
        r.append(filename.as_str());
        r
    }

    /// Where the release index is fetched from.
    pub fn list_url(&self) -> (r: String)
        ensures
            r@ == self.node_url@ + "/index.json"@,
    {
        let mut r = self.node_url.clone();
        r.append("/index.json");
        r
    }
}

} // verus!
