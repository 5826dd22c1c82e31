use std::collections::BTreeSet;

use devenv::filesystem::DeleteStep;
use devenv::filesystem::Filesystem;
use devenv::filesystem::FsAction;
use devenv::mount::FsType;
use devenv::mount::MTab;
use devenv::mount::MountingPoint;
use devenv::path::components_of;
use devenv::teardown::Teardown;
use devenv::teardown::TeardownAction;
use devenv::teardown::TeardownEvent;

type Place = Vec<String>;

/// A host as far as the composer's actions touch it: the directories and
/// the mounts, the oldest first, each with the directories that it covers.
#[derive(Debug, Clone, PartialEq)]
struct Host {
    dirs: BTreeSet<Place>,
    mounts: Vec<(Place, Option<FsType>, BTreeSet<Place>)>,
}

fn place(path: &str) -> Place {
    components_of(path)
}

fn path_of(place: &Place) -> String {
    match place.split_first() {
        Some((first, rest)) if first == "/" => format!("/{}", rest.join("/")),
        _ => place.join("/"),
    }
}

fn strictly_below(d: &Place, p: &Place) -> bool {
    d.len() > p.len() && d[..p.len()] == p[..]
}

impl Host {
    fn empty() -> Host {
        Host { dirs: BTreeSet::new(), mounts: Vec::new() }
    }

    fn registry(&self) -> MTab {
        MTab::new(
            self.mounts
                .iter()
                .map(|(p, t, _)| MountingPoint::new(Some("none".to_string()), &path_of(p), t.clone()))
                .collect(),
        )
    }

    fn mounted(&self, path: &str, fstype: FsType) -> bool {
        self.stack(path).contains(&Some(fstype))
    }

    fn stack(&self, path: &str) -> Vec<Option<FsType>> {
        let at = place(path);
        self.mounts.iter().filter(|(p, _, _)| p == &at).map(|(_, t, _)| t.clone()).collect()
    }

    fn has_dir(&self, path: &str) -> bool {
        self.dirs.contains(&place(path))
    }

    /// Takes the directories below a place away and hands them out.
    fn take_below(&mut self, at: &Place) -> BTreeSet<Place> {
        let below: BTreeSet<Place> = self.dirs.iter().filter(|d| strictly_below(d, at)).cloned().collect();
        self.dirs.retain(|d| !strictly_below(d, at));
        below
    }

    fn add_mount(&mut self, path: &str, fstype: Option<FsType>) -> bool {
        let at = place(path);
        if !self.dirs.contains(&at) {
            return false;
        }
        let covered = self.take_below(&at);
        self.mounts.push((at, fstype, covered));
        true
    }

    fn perform(&mut self, action: &FsAction) -> bool {
        match action {
            FsAction::CreateDir(p) => self.dirs.insert(place(p)),
            FsAction::CreateDirAll(p) => {
                let at = place(p);
                for n in 1..at.len() {
                    self.dirs.insert(at[..n].to_vec());
                }
                self.dirs.insert(at);
                true
            }
            FsAction::Warn(_) | FsAction::MakeCharDevice { .. } => true,
            FsAction::MountTmpfs(p) => self.add_mount(p, Some(FsType::Tmpfs)),
            FsAction::MountOverlay { upper, work, target, .. } => {
                self.has_dir(upper) && self.has_dir(work) && self.add_mount(target, Some(FsType::Overlay))
            }
            FsAction::Mount(m) => self.add_mount(&m.path, m.fstype.clone()),
            FsAction::Unmount(p) => {
                let at = place(p);
                match self.mounts.iter().rposition(|(q, _, _)| q == &at) {
                    Some(i) => {
                        let (_, _, covered) = self.mounts.remove(i);
                        self.take_below(&at);
                        self.dirs.extend(covered);
                        true
                    }
                    None => false,
                }
            }
            FsAction::RemoveDirAll(p) => {
                let at = place(p);
                let present = self.dirs.contains(&at);
                self.dirs.retain(|d| !(d == &at || strictly_below(d, &at)));
                present
            }
        }
    }

    /// Performs the actions of a plan that are due, up to the first failure;
    /// says whether none failed.
    fn perform_all(&mut self, plan: &[FsAction]) -> bool {
        plan.iter().all(|action| {
            let present = action.decided_by().map(|dir| self.has_dir(dir)).unwrap_or(false);
            !action.is_due(present) || self.perform(action)
        })
    }

    fn mount(&mut self, fs: &Filesystem) -> bool {
        let plan = fs.mount(&self.registry());
        self.perform_all(&plan)
    }

    /// Takes the layout down, reading the registry before each round.
    fn delete(&mut self, fs: &Filesystem, rounds: usize) -> bool {
        for _ in 0..=rounds {
            match fs.delete(&self.registry()) {
                DeleteStep::Unmount(plan) => {
                    if !self.perform_all(&plan) {
                        return false;
                    }
                }
                DeleteStep::Remove(plan) => return self.perform_all(&plan),
            }
        }
        false
    }
}

/// Drives a teardown on a host; a step that fails is reported with the
/// error number 22.
fn teardown(host: &mut Host, fs: &Filesystem) -> Result<(), devenv::error::Error> {
    let mut machine = Teardown::new(fs.clone());
    let mut action = machine.step(TeardownEvent::Begin);
    for _ in 0..20 {
        let event = match action {
            TeardownAction::Filesystem(plan) => {
                if host.perform_all(&plan) {
                    TeardownEvent::Done
                } else {
                    TeardownEvent::Failed(devenv::error::Error::from_errno(22))
                }
            }
            TeardownAction::ReadRegistry => TeardownEvent::Registry(host.registry()),
            TeardownAction::Return => return Ok(()),
            TeardownAction::Fail(e) => return Err(e),
        };
        action = machine.step(event);
    }
    panic!("the teardown does not end");
}

fn filesystems() -> Vec<Filesystem> {
    vec![
        Filesystem::new("/", "/home/user/env"),
        Filesystem::new("/", "./env"),
        Filesystem::new("/tmp/alpine", "/home/user/env"),
        Filesystem::new("/home", "/home/user/project/.devenv/"),
    ]
}

fn layout(fs: &Filesystem) -> (String, String, String, String) {
    let target = fs.target_path().trim_end_matches('/').to_string();
    (format!("{}/merge", target), format!("{}/upper", target), format!("{}/workdir", target), target)
}

#[test]
fn after_mount_the_layout_exists_and_the_overlay_is_mounted() {
    for fs in filesystems() {
        let mut host = Host::empty();
        assert!(host.mount(&fs));
        let (merge, upper, work, target) = layout(&fs);
        assert!(host.has_dir(&merge));
        assert!(host.has_dir(&upper));
        assert!(host.has_dir(&work));
        assert!(host.has_dir(&target));
        assert!(host.mounted(&merge, FsType::Overlay));
        assert!(host.registry().contains(MountingPoint::new(None, &merge, Some(FsType::Overlay))));
        assert_eq!(host.mounted(&target, FsType::Tmpfs), fs.image_holds_target());
    }
}

#[test]
fn mount_on_a_host_with_the_overlay_keeps_the_mounts() {
    let fs = Filesystem::new("/", "/env");
    let mut host = Host::empty();
    host.perform(&FsAction::CreateDirAll("/env/merge".to_string()));
    host.perform(&FsAction::Mount(MountingPoint::new(None, "/env/merge", Some(FsType::Overlay))));
    let mounts = host.mounts.clone();
    assert!(host.mount(&fs));
    assert_eq!(host.mounts, mounts);
    assert_eq!(host.stack("/env"), Vec::new());
    assert!(host.has_dir("/env/upper") && host.has_dir("/env/workdir") && host.has_dir("/env/merge"));
}

#[test]
fn second_mount_changes_nothing() {
    for fs in filesystems() {
        let mut host = Host::empty();
        assert!(host.mount(&fs));
        let once = host.clone();
        assert!(host.mount(&fs));
        assert_eq!(host, once);
        assert!(host.mount(&fs));
        assert_eq!(host, once);
    }
}

#[test]
fn delete_leaves_no_mount_and_no_directory() {
    let fs = Filesystem::new("/", "/home/user/env");
    let mut host = Host::empty();
    assert!(host.mount(&fs));
    host.perform(&FsAction::CreateDirAll("/home/user/env/merge/proc".to_string()));
    assert!(host.perform(&FsAction::Mount(MountingPoint::new(None, "/home/user/env/merge/proc", Some(FsType::Proc)))));
    assert!(host.delete(&fs, 3));
    assert!(!host.mounted("/home/user/env/merge", FsType::Overlay));
    assert!(!host.mounted("/home/user/env", FsType::Tmpfs));
    assert!(!host.has_dir("/home/user/env/merge"));
    assert!(!host.has_dir("/home/user/env/upper"));
    assert!(!host.has_dir("/home/user/env/workdir"));
    assert!(!host.has_dir("/home/user/env"));
    assert!(host.mounts.is_empty());
}

#[test]
fn delete_of_a_layout_that_is_not_mounted_only_removes() {
    let fs = Filesystem::new("/tmp/alpine", "/env");
    let mut host = Host::empty();
    for dir in ["/env", "/env/merge", "/env/upper", "/env/workdir"] {
        host.perform(&FsAction::CreateDirAll(dir.to_string()));
    }
    assert!(host.delete(&fs, 0));
    assert!(!host.has_dir("/env") && !host.has_dir("/env/merge"));
    assert!(host.has_dir("/"));
}

#[test]
fn delete_stops_at_an_unmount_that_fails() {
    let fs = Filesystem::new("/tmp/alpine", "/env");
    let mut host = Host::empty();
    assert!(host.mount(&fs));
    assert!(!host.delete(&fs, 5));
    assert!(host.mounted("/env/merge", FsType::Overlay));
    assert!(host.has_dir("/env/merge"));
}

#[test]
fn mount_after_umount_mounts_what_the_first_mount_did() {
    for fs in filesystems() {
        for with_proc in [false, true] {
            let (merge, _, _, target) = layout(&fs);
            let mut host = Host::empty();
            assert!(host.mount(&fs));
            let once = host.clone();
            if with_proc {
                let proc = format!("{}/proc", merge);
                host.perform(&FsAction::CreateDirAll(proc.clone()));
                assert!(host.perform(&FsAction::Mount(MountingPoint::new(None, &proc, Some(FsType::Proc)))));
            }
            let all = host.perform_all(&fs.umount());
            assert_eq!(all, with_proc && fs.image_holds_target());
            assert!(host.mount(&fs));
            assert_eq!(host.stack(&merge), once.stack(&merge));
            assert_eq!(host.stack(&target), once.stack(&target));
            let table = host.registry();
            let first = once.registry();
            for fstype in [FsType::Overlay, FsType::Tmpfs, FsType::Proc] {
                for path in [&merge, &target] {
                    assert_eq!(
                        table.contains(MountingPoint::new(None, path, Some(fstype.clone()))),
                        first.contains(MountingPoint::new(None, path, Some(fstype.clone())))
                    );
                }
            }
        }
    }
}

#[test]
fn teardown_of_a_layout_that_was_never_mounted_removes_its_directories() {
    for fs in filesystems() {
        let (merge, upper, work, target) = layout(&fs);
        let mut host = Host::empty();
        for dir in [&target, &merge, &upper, &work] {
            host.perform(&FsAction::CreateDirAll(dir.clone()));
        }
        let e = teardown(&mut host, &fs).unwrap_err();
        assert_eq!(e.kind(), &devenv::error::ErrorKind::UnixError(22));
        for dir in [&target, &merge, &upper, &work] {
            assert!(!host.has_dir(dir));
        }
        assert!(host.mounts.is_empty());
    }
}

#[test]
fn teardown_of_a_mounted_layout_leaves_nothing() {
    let fs = Filesystem::new("/", "/home/user/env");
    let mut host = Host::empty();
    assert!(host.mount(&fs));
    host.perform(&FsAction::CreateDirAll("/home/user/env/merge/proc".to_string()));
    assert!(host.perform(&FsAction::Mount(MountingPoint::new(None, "/home/user/env/merge/proc", Some(FsType::Proc)))));
    assert!(teardown(&mut host, &fs).is_ok());
    assert!(host.mounts.is_empty());
    assert!(!host.has_dir("/home/user/env"));
    assert!(!host.has_dir("/home/user/env/merge"));
}

#[test]
fn tmpfs_that_lay_deeper_than_the_rounds_stays() {
    let fs = Filesystem::new("/", "/env");
    let mut host = Host::empty();
    host.perform(&FsAction::CreateDirAll("/env".to_string()));
    assert!(host.perform(&FsAction::MountTmpfs("/env".to_string())));
    assert!(host.mount(&fs));
    assert_eq!(host.stack("/env"), vec![Some(FsType::Tmpfs), Some(FsType::Tmpfs)]);
    host.perform(&FsAction::CreateDirAll("/env/merge/proc".to_string()));
    assert!(host.perform(&FsAction::Mount(MountingPoint::new(None, "/env/merge/proc", Some(FsType::Proc)))));
    assert!(host.delete(&fs, 3));
    assert!(!host.mounted("/env/merge", FsType::Overlay));
    assert_eq!(host.stack("/env"), vec![Some(FsType::Tmpfs)]);
    assert!(!host.has_dir("/env"));
}

fn with_proc(host: &mut Host, merge: &str) {
    let proc = format!("{}/proc", merge);
    host.perform(&FsAction::CreateDirAll(proc.clone()));
    assert!(host.perform(&FsAction::Mount(MountingPoint::new(None, &proc, Some(FsType::Proc)))));
}

#[test]
fn remount_restores_over_foreign_mounts_when_the_image_holds_the_target() {
    let fs = Filesystem::new("/", "/env");
    let mut host = Host::empty();
    host.perform(&FsAction::CreateDirAll("/env".to_string()));
    assert!(host.perform(&FsAction::Mount(MountingPoint::new(None, "/env", Some(FsType::Other("ext4".to_string()))))));
    assert!(host.mount(&fs));
    let once = host.clone();
    with_proc(&mut host, "/env/merge");
    assert!(host.perform_all(&fs.umount()));
    assert!(host.mount(&fs));
    assert_eq!(host.stack("/env"), once.stack("/env"));
    assert_eq!(host.stack("/env/merge"), once.stack("/env/merge"));
    assert_eq!(host.stack("/env"), vec![Some(FsType::Other("ext4".to_string())), Some(FsType::Tmpfs)]);
}

#[test]
fn remount_does_not_bring_back_a_foreign_mount_that_the_unmount_took() {
    let fs = Filesystem::new("/tmp/alpine", "/env");
    let mut host = Host::empty();
    host.perform(&FsAction::CreateDirAll("/env".to_string()));
    assert!(host.perform(&FsAction::MountTmpfs("/env".to_string())));
    assert!(host.mount(&fs));
    let once = host.clone();
    with_proc(&mut host, "/env/merge");
    assert!(host.perform_all(&fs.umount()));
    assert!(host.mount(&fs));
    assert_eq!(host.stack("/env/merge"), once.stack("/env/merge"));
    assert_eq!(once.stack("/env"), vec![Some(FsType::Tmpfs)]);
    assert_eq!(host.stack("/env"), Vec::new());
}

#[test]
fn remount_over_a_second_overlay_does_not_restore() {
    let fs = Filesystem::new("/", "/env");
    let mut host = Host::empty();
    assert!(host.mount(&fs));
    assert!(host.perform(&FsAction::Mount(MountingPoint::new(None, "/env/merge", Some(FsType::Overlay)))));
    with_proc(&mut host, "/env/merge");
    let before = host.clone();
    assert!(host.mount(&fs));
    assert_eq!(host.mounts, before.mounts);
    assert!(host.perform_all(&fs.umount()));
    assert!(host.mount(&fs));
    assert_eq!(before.stack("/env/merge").len(), 2);
    assert_eq!(host.stack("/env/merge"), vec![Some(FsType::Overlay)]);
}

#[test]
fn inner_plan_can_be_performed_on_an_empty_host() {
    let fs = Filesystem::new("/", "/env");
    let mut host = Host::empty();
    assert!(host.perform_all(&fs.inner_mount()));
    assert!(host.mounted("/proc", FsType::Proc));
    assert!(host.mounted("/dev/shm", FsType::Tmpfs));
    assert_eq!(host.stack("/sys"), vec![Some(FsType::Tmpfs), Some(FsType::Sysfs)]);
    assert_eq!(host.mounts.len(), 11);
}

#[test]
fn mount_without_its_directory_fails() {
    let mut host = Host::empty();
    assert!(!host.perform(&FsAction::Mount(MountingPoint::new(None, "/proc", Some(FsType::Proc)))));
    assert!(!host.perform(&FsAction::MountTmpfs("/env".to_string())));
    assert!(!host.perform(&FsAction::Unmount("/env".to_string())));
    assert!(!host.perform(&FsAction::RemoveDirAll("/env".to_string())));
    assert!(host.perform_all(&[FsAction::RemoveDirAll("/env".to_string())]));
}

#[test]
fn unmount_brings_back_what_the_mount_covered() {
    let mut host = Host::empty();
    host.perform(&FsAction::CreateDirAll("/env/old".to_string()));
    assert!(host.perform(&FsAction::MountTmpfs("/env".to_string())));
    assert!(!host.has_dir("/env/old"));
    assert!(host.perform(&FsAction::CreateDir("/env/new".to_string())));
    assert!(!host.perform(&FsAction::CreateDir("/env/new".to_string())));
    assert!(host.perform_all(&[FsAction::CreateDir("/env/new".to_string())]));
    assert!(host.perform(&FsAction::Unmount("/env".to_string())));
    assert!(host.has_dir("/env/old"));
    assert!(!host.has_dir("/env/new"));
    assert!(host.has_dir("/env"));
}
