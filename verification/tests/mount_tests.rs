use devenv::error::ErrorKind;
use devenv::mount::mount;
use devenv::mount::mount_error;
use devenv::mount::FsType;
use devenv::mount::MTab;
use devenv::mount::MountCall;
use devenv::mount::MountingPoint;
use devenv::mount::MS_BIND;
use devenv::mount::MS_NODEV;
use devenv::mount::MS_NOEXEC;
use devenv::mount::MS_NOSUID;
use devenv::mount::MS_PRIVATE;
use devenv::mount::MS_RDONLY;
use devenv::mount::MS_REC;
use devenv::mount::MS_REMOUNT;
use devenv::mount::MS_STRICTATIME;

const TABLE: &str = "sysfs /sys sysfs rw,nosuid,nodev,noexec,relatime 0 0\n\
proc /proc proc rw,nosuid,nodev,noexec,relatime 0 0\n\
\n\
tmpfs /home/user/env tmpfs rw,relatime 0 0\n\
overlay /home/user/env/merge overlay rw,relatime,lowerdir=/ 0 0\n\
/dev/sda1 /boot ext4 rw 0 0\n";

#[test]
fn known_names_are_their_types() {
    assert_eq!(FsType::from_str("proc").unwrap(), FsType::Proc);
    assert_eq!(FsType::from_str("tmpfs").unwrap(), FsType::Tmpfs);
    assert_eq!(FsType::from_str("overlay").unwrap(), FsType::Overlay);
    assert_eq!(FsType::from_str("sysfs").unwrap(), FsType::Sysfs);
}

#[test]
fn other_names_are_kept() {
    assert_eq!(FsType::from_str("ext4").unwrap(), FsType::Other("ext4".to_string()));
    assert_eq!(FsType::from_str("").unwrap(), FsType::Other(String::new()));
    assert_eq!(FsType::from_str("Proc").unwrap(), FsType::Other("Proc".to_string()));
}

#[test]
fn types_show_their_names() {
    assert_eq!(FsType::Proc.to_string(), "proc");
    assert_eq!(FsType::Overlay.to_string(), "overlay");
    assert_eq!(FsType::Tmpfs.to_string(), "tmpfs");
    assert_eq!(FsType::Sysfs.to_string(), "sysfs");
    assert_eq!(FsType::Other("ext4".to_string()).to_string(), "ext4");
}

#[test]
fn name_of_type_of_name_is_the_name() {
    for name in ["proc", "tmpfs", "overlay", "sysfs", "ext4", "btrfs"] {
        assert_eq!(FsType::from_str(name).unwrap().to_string(), name);
    }
}

#[test]
fn other_type_named_like_a_known_one_is_another_type() {
    assert_ne!(FsType::Other("proc".to_string()), FsType::Proc);
    assert_eq!(FsType::Other("proc".to_string()).clone(), FsType::Other("proc".to_string()));
}

#[test]
fn flags_have_the_values_of_the_system() {
    assert_eq!(MS_RDONLY, 1);
    assert_eq!(MS_NOSUID, 2);
    assert_eq!(MS_NODEV, 4);
    assert_eq!(MS_NOEXEC, 8);
    assert_eq!(MS_REMOUNT, 32);
    assert_eq!(MS_BIND, 4096);
    assert_eq!(MS_REC, 16384);
    assert_eq!(MS_PRIVATE, 1 << 18);
    assert_eq!(MS_STRICTATIME, 1 << 24);
}

#[test]
fn new_mounting_point_has_only_three_fields() {
    let m = MountingPoint::new(Some("proc".to_string()), "/proc", Some(FsType::Proc));
    assert_eq!(m.what, Some("proc".to_string()));
    assert_eq!(m.path, "/proc");
    assert_eq!(m.fstype, Some(FsType::Proc));
    assert_eq!(m.options, None);
    assert_eq!(m.flags, None);
    assert_eq!(m.fatal, None);
    assert_eq!(m.in_userns, None);
    assert_eq!(m.use_netns, None);
}

#[test]
fn new_all_keeps_every_field() {
    let m = MountingPoint::new_all(
        Some("tmpfs".to_string()),
        "/dev",
        Some(FsType::Tmpfs),
        Some("mode=755".to_string()),
        Some(MS_NOSUID | MS_STRICTATIME),
        Some(true),
        Some(false),
        Some(true),
    );
    assert_eq!(m.what, Some("tmpfs".to_string()));
    assert_eq!(m.path, "/dev");
    assert_eq!(m.fstype, Some(FsType::Tmpfs));
    assert_eq!(m.options, Some("mode=755".to_string()));
    assert_eq!(m.flags, Some(0x100_0002));
    assert_eq!(m.fatal, Some(true));
    assert_eq!(m.in_userns, Some(false));
    assert_eq!(m.use_netns, Some(true));
    assert_eq!(m.clone(), m);
}

#[test]
fn table_has_one_entry_for_each_line_that_is_not_blank() {
    let entries = MTab::get_mounting_points(TABLE).unwrap();
    assert_eq!(entries.len(), 5);
    assert_eq!(entries[0].what, Some("sysfs".to_string()));
    assert_eq!(entries[0].path, "/sys");
    assert_eq!(entries[0].fstype, Some(FsType::Sysfs));
    assert_eq!(entries[0].options, Some("rw,nosuid,nodev,noexec,relatime".to_string()));
    assert_eq!(entries[0].flags, None);
    assert_eq!(entries[0].fatal, None);
    assert_eq!(entries[3].path, "/home/user/env/merge");
    assert_eq!(entries[3].fstype, Some(FsType::Overlay));
    assert_eq!(entries[4].what, Some("/dev/sda1".to_string()));
    assert_eq!(entries[4].fstype, Some(FsType::Other("ext4".to_string())));
}

#[test]
fn empty_table_has_no_entries() {
    assert_eq!(MTab::get_mounting_points("").unwrap().len(), 0);
    assert_eq!(MTab::get_mounting_points("\n  \n\t\n").unwrap().len(), 0);
}

#[test]
fn line_with_four_fields_is_an_entry() {
    let entries = MTab::get_mounting_points("proc /proc proc rw").unwrap();
    assert_eq!(entries.len(), 1);
    assert_eq!(entries[0].options, Some("rw".to_string()));
}

#[test]
fn line_with_too_few_fields_fails_the_table() {
    let e = MTab::get_mounting_points("proc /proc proc rw 0 0\nproc /proc proc\n").unwrap_err();
    assert_eq!(e.kind(), &ErrorKind::Custom);
    assert_eq!(e.message(), "Could not read the mount table");
    assert!(MTab::get_mounting_points("proc").is_err());
    assert!(MTab::get_mounting_points("proc /proc").is_err());
}

#[test]
fn registry_matches_on_place_and_type() {
    let table = MTab::new(MTab::get_mounting_points(TABLE).unwrap());
    assert!(table.contains(MountingPoint::new(None, "/home/user/env/merge", Some(FsType::Overlay))));
    assert!(table.contains(MountingPoint::new(None, "/home/user/env", Some(FsType::Tmpfs))));
    assert!(!table.contains(MountingPoint::new(None, "/home/user/env", Some(FsType::Overlay))));
    assert!(!table.contains(MountingPoint::new(None, "/home/user/env/merge", Some(FsType::Tmpfs))));
    assert!(!table.contains(MountingPoint::new(None, "/nowhere", Some(FsType::Proc))));
}

#[test]
fn registry_ignores_the_other_fields() {
    let table = MTab::new(MTab::get_mounting_points(TABLE).unwrap());
    let query = MountingPoint::new_all(
        Some("something else".to_string()),
        "/proc",
        Some(FsType::Proc),
        Some("ro".to_string()),
        Some(MS_RDONLY),
        Some(false),
        Some(true),
        Some(true),
    );
    assert!(table.contains(query));
}

#[test]
fn registry_compares_paths_by_components() {
    let table = MTab::new(MTab::get_mounting_points(TABLE).unwrap());
    assert!(table.contains(MountingPoint::new(None, "/home//user/env/merge/", Some(FsType::Overlay))));
    assert!(!table.contains(MountingPoint::new(None, "home/user/env/merge", Some(FsType::Overlay))));
}

#[test]
fn query_without_type_matches_only_entries_without_type() {
    let table = MTab::new(MTab::get_mounting_points(TABLE).unwrap());
    assert!(!table.contains(MountingPoint::new(None, "/proc", None)));
    let bare = MTab::new(vec![MountingPoint::new(None, "/proc", None)]);
    assert!(bare.contains(MountingPoint::new(None, "/proc", None)));
    assert!(!bare.contains(MountingPoint::new(None, "/proc", Some(FsType::Proc))));
}

#[test]
fn empty_registry_contains_nothing() {
    let table = MTab::new(Vec::new());
    assert!(!table.contains(MountingPoint::new(None, "/", None)));
}

#[test]
fn mount_call_of_a_full_descriptor() {
    let m = MountingPoint::new_all(
        Some("tmpfs".to_string()),
        "/dev/shm",
        Some(FsType::Tmpfs),
        Some("mode=1777".to_string()),
        Some(MS_NOSUID | MS_STRICTATIME | MS_NODEV),
        Some(true),
        Some(false),
        Some(false),
    );
    assert_eq!(
        mount(&m),
        MountCall {
            source: Some("tmpfs".to_string()),
            target: "/dev/shm".to_string(),
            fstype: Some("tmpfs".to_string()),
            flags: 0x100_0006,
            data: Some("mode=1777".to_string()),
        }
    );
}

#[test]
fn mount_call_without_flags_is_read_only() {
    let m = MountingPoint::new(None, "/proc", Some(FsType::Other("ext4".to_string())));
    assert_eq!(
        mount(&m),
        MountCall {
            source: None,
            target: "/proc".to_string(),
            fstype: Some("ext4".to_string()),
            flags: MS_RDONLY,
            data: None,
        }
    );
}

#[test]
fn mount_call_without_type_has_none() {
    let m = MountingPoint::new_all(None, "/", None, None, Some(MS_REC | MS_PRIVATE), None, None, None);
    let call = mount(&m);
    assert_eq!(call.fstype, None);
    assert_eq!(call.flags, 0x4_4000);
    assert_eq!(call.target, "/");
}

#[test]
fn mount_error_names_the_place_and_wraps_the_cause() {
    let m = MountingPoint::new(Some("proc".to_string()), "/proc", Some(FsType::Proc));
    let e = mount_error(&m, 1);
    assert_eq!(e.message(), "Could not mount /proc");
    assert_eq!(e.kind(), &ErrorKind::Other("EPERM: Operation not permitted".to_string()));
    assert_eq!(mount_error(&m, 16).kind(), &ErrorKind::Other("EBUSY: Device or resource busy".to_string()));
}

#[test]
fn remount_flags_of_proc_sys() {
    assert_eq!(MS_BIND | MS_RDONLY | MS_NOSUID | MS_NOEXEC | MS_NODEV | MS_REMOUNT, 0x102f);
}
