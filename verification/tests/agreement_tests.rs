use std::path::Path;

use devenv::container::CLONE_NEWCGROUP;
use devenv::container::CLONE_NEWIPC;
use devenv::container::CLONE_NEWNET;
use devenv::container::CLONE_NEWNS;
use devenv::container::CLONE_NEWPID;
use devenv::container::CLONE_NEWUSER;
use devenv::container::CLONE_NEWUTS;
use devenv::filesystem::Filesystem;
use devenv::filesystem::FsAction;
use devenv::filesystem::DEVICE_MODE;
use devenv::kernel::KernelVersion;
use devenv::mount::MS_BIND;
use devenv::mount::MS_NODEV;
use devenv::mount::MS_NOEXEC;
use devenv::mount::MS_NOSUID;
use devenv::mount::MS_PRIVATE;
use devenv::mount::MS_RDONLY;
use devenv::mount::MS_REC;
use devenv::mount::MS_REMOUNT;
use devenv::mount::MS_STRICTATIME;
use devenv::path::components_of;
use devenv::path::join;
use devenv::path::same_path;
use devenv::path::starts_with;
use devenv::text::split;
use devenv::text::Separator;
use nix::mount::MsFlags;
use nix::sched::CloneFlags;
use nix::sys::stat::Mode;

const PATHS: [&str; 28] = [
    "",
    "/",
    "//",
    ".",
    "./",
    "..",
    "/.",
    "/..",
    "a",
    "a/",
    "/a",
    "a/b",
    "/a/b",
    "/a//b/",
    "./env",
    "./env/merge",
    "env/./merge",
    "env/merge/.",
    "a/../b",
    ".devenv",
    "/home/user/.devenv",
    "/home/user",
    "/home/us",
    "/tmp/alpine",
    "merge",
    "/proc/sys/net",
    "a.b/c..d/...",
    "/\u{e9}t\u{e9}/\u{4e16}\u{754c}",
];

fn std_components(path: &str) -> Vec<String> {
    Path::new(path).components().map(|c| c.as_os_str().to_str().unwrap().to_string()).collect()
}

#[test]
fn components_agree_with_the_standard_library() {
    for path in PATHS {
        assert_eq!(components_of(path), std_components(path), "{:?}", path);
    }
}

#[test]
fn starts_with_agrees_with_the_standard_library() {
    for path in PATHS {
        for base in PATHS {
            assert_eq!(starts_with(path, base), Path::new(path).starts_with(base), "{:?} {:?}", path, base);
        }
    }
}

#[test]
fn same_path_agrees_with_the_standard_library() {
    for a in PATHS {
        for b in PATHS {
            assert_eq!(same_path(a, b), Path::new(a) == Path::new(b), "{:?} {:?}", a, b);
        }
    }
}

#[test]
fn join_agrees_with_the_standard_library() {
    for base in PATHS {
        for name in PATHS {
            assert_eq!(join(base, name), Path::new(base).join(name).to_str().unwrap(), "{:?} {:?}", base, name);
        }
    }
}

#[test]
fn split_agrees_with_the_standard_library() {
    let texts = [
        "",
        " ",
        "proc /proc proc rw,nosuid 0 0",
        "\ta  b\t\tc \n d\r\n",
        "a\u{a0}b\u{2003}c\u{3000}d\u{85}e\u{1680}f\u{2028}g\u{2029}h\u{202f}i\u{205f}j",
        "a\u{200b}b \u{feff}c",
    ];
    for text in texts {
        let expected: Vec<String> = text.split_whitespace().map(str::to_string).collect();
        assert_eq!(split(text, Separator::Whitespace), expected);
        let lines: Vec<String> = text.split('\n').filter(|l| !l.is_empty()).map(str::to_string).collect();
        assert_eq!(split(text, Separator::Newline), lines);
    }
}

#[test]
fn mount_flags_are_those_of_the_system() {
    assert_eq!(MS_RDONLY, MsFlags::MS_RDONLY.bits());
    assert_eq!(MS_NOSUID, MsFlags::MS_NOSUID.bits());
    assert_eq!(MS_NODEV, MsFlags::MS_NODEV.bits());
    assert_eq!(MS_NOEXEC, MsFlags::MS_NOEXEC.bits());
    assert_eq!(MS_REMOUNT, MsFlags::MS_REMOUNT.bits());
    assert_eq!(MS_BIND, MsFlags::MS_BIND.bits());
    assert_eq!(MS_REC, MsFlags::MS_REC.bits());
    assert_eq!(MS_PRIVATE, MsFlags::MS_PRIVATE.bits());
    assert_eq!(MS_STRICTATIME, MsFlags::MS_STRICTATIME.bits());
}

#[test]
fn namespace_flags_are_those_of_the_system() {
    assert_eq!(CLONE_NEWNS, CloneFlags::CLONE_NEWNS.bits());
    assert_eq!(CLONE_NEWCGROUP, CloneFlags::CLONE_NEWCGROUP.bits());
    assert_eq!(CLONE_NEWUTS, CloneFlags::CLONE_NEWUTS.bits());
    assert_eq!(CLONE_NEWIPC, CloneFlags::CLONE_NEWIPC.bits());
    assert_eq!(CLONE_NEWUSER, CloneFlags::CLONE_NEWUSER.bits());
    assert_eq!(CLONE_NEWPID, CloneFlags::CLONE_NEWPID.bits());
    assert_eq!(CLONE_NEWNET, CloneFlags::CLONE_NEWNET.bits());
}

#[test]
fn device_mode_is_read_and_write_for_everyone() {
    let mode = Mode::S_IRUSR | Mode::S_IWUSR | Mode::S_IRGRP | Mode::S_IWGRP | Mode::S_IROTH | Mode::S_IWOTH;
    assert_eq!(DEVICE_MODE, mode.bits());
}

#[test]
fn device_numbers_are_those_of_the_system() {
    let expected = [(1, 3), (1, 5), (1, 7), (1, 8), (1, 9), (5, 0), (5, 2)];
    let nodes = Filesystem::new("/", "/env").create_dev_devices();
    assert_eq!(nodes.len(), expected.len());
    for (node, (major, minor)) in nodes.iter().zip(expected) {
        match node {
            FsAction::MakeCharDevice { device, .. } => {
                assert_eq!(*device, nix::sys::stat::makedev(major, minor));
                assert_eq!(nix::sys::stat::major(*device), major);
                assert_eq!(nix::sys::stat::minor(*device), minor);
                assert_eq!(*device, major * 256 + minor);
            }
            other => panic!("no device: {:?}", other),
        }
    }
}

#[test]
fn at_least_agrees_with_the_order_of_semantic_versions() {
    let versions = [
        "0.0.0",
        "2.6.32",
        "3.17.9",
        "3.18.0-rc1",
        "3.18.0-0",
        "3.18.0",
        "3.18.0+build",
        "3.18.1-rc1",
        "3.18.1",
        "3.19.0-alpha.1",
        "4.0.0",
        "5.15.0-91-generic",
        "6.18.44-fc-v165",
    ];
    let releases: [(u64, u64, u64); 6] = [(3, 18, 0), (3, 18, 1), (0, 0, 0), (4, 0, 0), (5, 15, 0), (6, 18, 45)];
    for text in versions {
        let parsed = semver::Version::parse(text).unwrap();
        let version = KernelVersion {
            major: parsed.major,
            minor: parsed.minor,
            patch: parsed.patch,
            pre: parsed.pre.as_str().to_string(),
        };
        for (major, minor, patch) in releases {
            let release = semver::Version::new(major, minor, patch);
            assert_eq!(version.at_least(major, minor, patch), parsed >= release, "{} {}", text, release);
        }
        assert_eq!(
            Filesystem::is_kernel_version_compatible(text).unwrap(),
            parsed >= semver::Version::new(3, 18, 0)
        );
    }
}
