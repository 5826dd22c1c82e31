//! The filesystem composer: which directories to create and which
//! filesystems to mount, in which order, to give a container its root; and
//! how to take the layout down again.
//!
//! The composer decides; it performs nothing. Each function returns the
//! actions to perform, in order, for whoever runs them against the system.

use vstd::prelude::*;
use vstd::string::StringExecFns;
use crate::error::Error;
use crate::error::ErrorView;
use crate::error::ErrorKindView;
use crate::error::errno_display;
use crate::kernel::compatibility;
use crate::kernel::compatibility_view;
use crate::kernel::kernel_compatibility;
use crate::kernel::parse_version;
use crate::kernel::semver_parse;
use crate::mount::FsType;
use crate::mount::FsTypeView;
use crate::mount::MTab;
use crate::mount::MountingPoint;
use crate::mount::MountingPointView;
use crate::mount::MS_BIND;
use crate::mount::MS_NODEV;
use crate::mount::MS_NOEXEC;
use crate::mount::MS_NOSUID;
use crate::mount::MS_PRIVATE;
use crate::mount::MS_RDONLY;
use crate::mount::MS_REC;
use crate::mount::MS_REMOUNT;
use crate::mount::MS_STRICTATIME;
use crate::mount::lists;
use crate::mount::mount_error;
use crate::path::components;
use crate::path::components_of;
use crate::path::join;
use crate::path::joined;
use crate::path::lies_below;
use crate::path::root_component;
use crate::path::starts_with;

verus! {

/// One step for the system to perform.
#[derive(Debug, PartialEq)]
pub enum FsAction {
    /// Create the directory. Due only where there is no such directory.
    CreateDir(String),
    /// Create the directory and its missing parents, unless it exists.
    CreateDirAll(String),
    /// Tell the user.
    Warn(String),
    /// Mount a memory-backed filesystem on the directory.
    MountTmpfs(String),
    /// Mount an overlay of `upper` over `lower` on `target`, with `work` as
    /// its scratch directory.
    MountOverlay { lower: String, upper: String, work: String, target: String },
    /// Establish the mount.
    Mount(MountingPoint),
    /// Create a character device node.
    MakeCharDevice { path: String, mode: u32, device: u64 },
    /// Unmount what is mounted on the directory.
    Unmount(String),
    /// Remove the directory and what is in it. Due only where there is such
    /// a directory.
    RemoveDirAll(String),
}

/// Mathematical model of an [`FsAction`].
pub enum FsActionView {
    CreateDir(Seq<char>),
    CreateDirAll(Seq<char>),
    Warn(Seq<char>),
    MountTmpfs(Seq<char>),
    MountOverlay { lower: Seq<char>, upper: Seq<char>, work: Seq<char>, target: Seq<char> },
    Mount(MountingPointView),
    MakeCharDevice { path: Seq<char>, mode: u32, device: u64 },
    Unmount(Seq<char>),
    RemoveDirAll(Seq<char>),
}

impl View for FsAction {
    type V = FsActionView;

    open spec fn view(&self) -> FsActionView {
        match self {
            FsAction::CreateDir(p) => FsActionView::CreateDir(p@),
            FsAction::CreateDirAll(p) => FsActionView::CreateDirAll(p@),
            FsAction::Warn(text) => FsActionView::Warn(text@),
            FsAction::MountTmpfs(p) => FsActionView::MountTmpfs(p@),
            FsAction::MountOverlay { lower, upper, work, target } => FsActionView::MountOverlay {
                lower: lower@,
                upper: upper@,
                work: work@,
                target: target@,
            },
            FsAction::Mount(m) => FsActionView::Mount(m@),
            FsAction::MakeCharDevice { path, mode, device } => FsActionView::MakeCharDevice {
                path: path@,
                mode: *mode,
                device: *device,
            },
            FsAction::Unmount(p) => FsActionView::Unmount(p@),
            FsAction::RemoveDirAll(p) => FsActionView::RemoveDirAll(p@),
        }
    }
}

impl DeepView for FsAction {
    type V = FsActionView;

    open spec fn deep_view(&self) -> FsActionView {
        self@
    }
}

/// Why the system could not perform an action.
#[derive(Debug, PartialEq)]
pub enum Failure {
    /// A system call failed with this raw error number.
    Os(i32),
    /// Something else failed; this is its text.
    Io(String),
}

/// Mathematical model of a [`Failure`].
pub enum FailureView {
    Os(int),
    Io(Seq<char>),
}

impl View for Failure {
    type V = FailureView;

    open spec fn view(&self) -> FailureView {
        match self {
            Failure::Os(code) => FailureView::Os(*code as int),
            Failure::Io(text) => FailureView::Io(text@),
        }
    }
}

/// The error of a failure that is passed on as it is.
pub open spec fn surfaced(cause: FailureView) -> ErrorView {
    match cause {
        FailureView::Os(code) => ErrorView {
            kind: ErrorKindView::UnixError(code),
            msg: errno_display(code),
        },
        FailureView::Io(text) => ErrorView { kind: ErrorKindView::IOError(text), msg: text },
    }
}

/// The error that a failed action ends in. A failed mount of the layout's
/// two filesystems is a custom error that names the filesystem; a failed
/// mount of a descriptor names the place and wraps the cause; every other
/// failure is passed on as it is.
pub open spec fn failure_of(action: FsActionView, cause: FailureView) -> ErrorView {
    match action {
        FsActionView::MountTmpfs(_) => ErrorView {
            kind: ErrorKindView::Custom,
            msg: "Could not mount tmpfs"@,
        },
        FsActionView::MountOverlay { .. } => ErrorView {
            kind: ErrorKindView::Custom,
            msg: "Could not mount overlayfs"@,
        },
        FsActionView::Mount(m) => ErrorView {
            kind: ErrorKindView::Other(
                match cause {
                    FailureView::Os(code) => errno_display(code),
                    FailureView::Io(text) => text,
                },
            ),
            msg: "Could not mount "@ + m.path,
        },
        _ => surfaced(cause),
    }
}

impl Failure {
    /// The error of this failure, passed on as it is.
    pub fn surface(&self) -> (e: Error)
        ensures
            e@ == surfaced(self@),
    {
        match self {
            Failure::Os(code) => Error::from_errno(*code),
            Failure::Io(text) => Error::from_io(text.as_str()),
        }
    }
}

/// The directory whose presence decides whether an action is due, for the
/// actions that depend on one.
pub open spec fn decided_by(action: FsActionView) -> Option<Seq<char>> {
    match action {
        FsActionView::CreateDir(p) => Some(p),
        FsActionView::RemoveDirAll(p) => Some(p),
        _ => None,
    }
}

/// Whether an action is due, given whether the directory that decides is
/// there: a directory is created only where there is none, and removed only
/// where there is one. Every other action is due.
pub open spec fn is_due(action: FsActionView, present: bool) -> bool {
    match action {
        FsActionView::CreateDir(_) => !present,
        FsActionView::RemoveDirAll(_) => present,
        _ => true,
    }
}

impl FsAction {
    /// The directory whose presence decides whether this action is due, if
    /// the action depends on one.
    pub fn decided_by(&self) -> (dir: Option<&String>)
        ensures
            dir.deep_view() == decided_by(self@),
    {
        match self {
            FsAction::CreateDir(p) => Some(p),
            FsAction::RemoveDirAll(p) => Some(p),
            _ => None,
        }
    }

    /// Whether this action is due, given whether the directory that decides
    /// is there.
    pub fn is_due(&self, present: bool) -> (due: bool)
        ensures
            due == is_due(self@, present),
    {
        match self {
            FsAction::CreateDir(_) => !present,
            FsAction::RemoveDirAll(_) => present,
            _ => true,
        }
    }

    /// The error that this action ends in when the system could not perform
    /// it.
    pub fn failure(&self, cause: &Failure) -> (e: Error)
        ensures
            e@ == failure_of(self@, cause@),
    {
        match self {
            FsAction::MountTmpfs(_) => Error::new("Could not mount tmpfs"),
            FsAction::MountOverlay { .. } => Error::new("Could not mount overlayfs"),
            FsAction::Mount(m) => match cause {
                Failure::Os(code) => mount_error(m, *code),
                Failure::Io(text) => {
                    let msg: String = String::from_str("Could not mount ").concat(m.path.as_str());
                    Error::new_error(msg.as_str(), text.as_str())
                },
            },
            _ => cause.surface(),
        }
    }
}

/// The name of the directory that the overlay is mounted on.
pub const MERGE_DIR: &'static str = "merge";

/// The name of the writable upper layer.
pub const UPPER_DIR: &'static str = "upper";

/// The name of the overlay's scratch directory.
pub const WORK_DIR: &'static str = "workdir";

/// What the user is told when the layout is backed by memory.
pub const TMPFS_WARNING: &'static str =
    "The image path contains the devenv path. All non-persisted changes will be lost at reboot.";

/// The composer of one container's filesystem: the image that is the lower
/// layer, and the directory that holds the layout.
#[derive(Debug, PartialEq)]
pub struct Filesystem {
    imagepath: String,
    targetpath: String,
}

/// Mathematical model of a [`Filesystem`].
pub struct FilesystemView {
    pub image: Seq<char>,
    pub target: Seq<char>,
}

impl View for Filesystem {
    type V = FilesystemView;

    closed spec fn view(&self) -> FilesystemView {
        FilesystemView { image: self.imagepath@, target: self.targetpath@ }
    }
}

impl FilesystemView {
    /// The directory that the overlay is mounted on: the container's root.
    pub open spec fn merge(self) -> Seq<char> {
        joined(self.target, MERGE_DIR@)
    }

    /// The writable upper layer.
    pub open spec fn upper(self) -> Seq<char> {
        joined(self.target, UPPER_DIR@)
    }

    /// The overlay's scratch directory.
    pub open spec fn work(self) -> Seq<char> {
        joined(self.target, WORK_DIR@)
    }

    /// Where the container's process information is mounted.
    pub open spec fn proc(self) -> Seq<char> {
        joined(self.merge(), "proc"@)
    }

    /// The overlay mount as the registry is asked for it.
    pub open spec fn overlay_query(self) -> MountingPointView {
        MountingPointView {
            what: None,
            path: self.merge(),
            fstype: Some(FsTypeView::Overlay),
            options: None,
            flags: None,
            fatal: None,
            in_userns: None,
            use_netns: None,
        }
    }

    /// Whether the image holds the layout's directory: the image is the root
    /// directory, or the directory lies below the image. An overlay cannot
    /// lie inside its own lower layer, so the directory is then backed by
    /// memory.
    pub open spec fn image_holds_target(self) -> bool {
        components(self.image) == seq![root_component()] || lies_below(self.target, self.image)
    }

    /// The actions that establish the overlay, given whether the registry
    /// lists it already.
    pub open spec fn mount_plan(self, overlay_listed: bool) -> Seq<FsActionView> {
        seq![FsActionView::CreateDir(self.target)] + (if self.image_holds_target() {
            seq![FsActionView::Warn(TMPFS_WARNING@)] + (if overlay_listed {
                Seq::empty()
            } else {
                seq![FsActionView::MountTmpfs(self.target)]
            })
        } else {
            Seq::empty()
        }) + seq![
            FsActionView::CreateDir(self.merge()),
            FsActionView::CreateDir(self.upper()),
            FsActionView::CreateDir(self.work()),
        ] + (if overlay_listed {
            Seq::empty()
        } else {
            seq![
                FsActionView::MountOverlay {
                    lower: self.image,
                    upper: self.upper(),
                    work: self.work(),
                    target: self.merge(),
                },
            ]
        })
    }

    /// The actions that unmount the layout, innermost first.
    pub open spec fn umount_plan(self) -> Seq<FsActionView> {
        seq![
            FsActionView::Unmount(self.proc()),
            FsActionView::Unmount(self.merge()),
            FsActionView::Unmount(self.target),
        ]
    }

    /// The actions that remove the layout's directories.
    pub open spec fn remove_plan(self) -> Seq<FsActionView> {
        seq![
            FsActionView::RemoveDirAll(self.merge()),
            FsActionView::RemoveDirAll(self.upper()),
            FsActionView::RemoveDirAll(self.work()),
            FsActionView::RemoveDirAll(self.target),
        ]
    }
}

/// One round of taking the layout down.
#[derive(Debug, PartialEq)]
pub enum DeleteStep {
    /// The overlay is still mounted: perform these actions, read the registry
    /// again and ask again.
    Unmount(Vec<FsAction>),
    /// Nothing of the layout is mounted: perform these actions, and the
    /// layout is gone.
    Remove(Vec<FsAction>),
}

/// Mathematical model of a [`DeleteStep`].
pub enum DeleteStepView {
    Unmount(Seq<FsActionView>),
    Remove(Seq<FsActionView>),
}

impl View for DeleteStep {
    type V = DeleteStepView;

    open spec fn view(&self) -> DeleteStepView {
        match self {
            DeleteStep::Unmount(actions) => DeleteStepView::Unmount(actions.deep_view()),
            DeleteStep::Remove(actions) => DeleteStepView::Remove(actions.deep_view()),
        }
    }
}

impl Clone for Filesystem {
    fn clone(&self) -> (fs: Filesystem)
        ensures
            fs@ == self@,
    {
        Filesystem { imagepath: self.imagepath.clone(), targetpath: self.targetpath.clone() }
    }
}

impl Filesystem {
    /// The composer for the image at `image` and the layout at `target`.
    pub fn new(image: &str, target: &str) -> (fs: Filesystem)
        ensures
            fs@ == (FilesystemView { image: image@, target: target@ }),
    {
        Filesystem { imagepath: image.to_owned(), targetpath: target.to_owned() }
    }

    /// Whether the kernel with the given release has overlay filesystems:
    /// its version is 3.18.0 or later. A release that is no semantic version
    /// is an error.
    pub fn is_kernel_version_compatible(release: &str) -> (r: Result<bool, Error>)
        ensures
            compatibility_view(r) == compatibility(semver_parse(release@)),
    {
        kernel_compatibility(parse_version(release))
    }

    /// The container's root: the directory that the overlay is mounted on.
    pub fn root_path(&self) -> (p: String)
        ensures
            p@ == self@.merge(),
    {
        join(self.targetpath.as_str(), MERGE_DIR)
    }

    /// The image that is the overlay's lower layer.
    pub fn image_path(&self) -> (p: &String)
        ensures
            p@ == self@.image,
    {
        &self.imagepath
    }

    /// The directory that holds the layout.
    pub fn target_path(&self) -> (p: &String)
        ensures
            p@ == self@.target,
    {
        &self.targetpath
    }

    /// Whether the image holds the layout's directory.
    pub fn image_holds_target(&self) -> (r: bool)
        ensures
            r == self@.image_holds_target(),
    {
        let image: Vec<String> = components_of(self.imagepath.as_str());
        let root: bool = image.len() == 1 && image[0] == String::from_str("/");
        proof {
            reveal_strlit("/");
            assert("/"@ =~= root_component());
            if image.len() == 1 {
                assert(components(self@.image)[0] == image@[0]@);
                if image@[0]@ == root_component() {
                    assert(components(self@.image) =~= seq![root_component()]);
                }
            }
        }
        root || starts_with(self.targetpath.as_str(), self.imagepath.as_str())
    }

    /// The actions that establish the overlay, in order: the layout's
    /// directory; where the image holds that directory, a warning and, unless
    /// the overlay is mounted already, a memory-backed filesystem on it; the
    /// three directories of the overlay; and the overlay itself, unless it is
    /// mounted already.
    pub fn mount(&self, mtab: &MTab) -> (plan: Vec<FsAction>)
        ensures
            plan.deep_view() == self@.mount_plan(lists(mtab@, self@.overlay_query())),
    {
        let target: &str = self.targetpath.as_str();
        let merge: String = join(target, MERGE_DIR);
        let upper: String = join(target, UPPER_DIR);
        let work: String = join(target, WORK_DIR);
        let listed: bool = mtab.contains(MountingPoint::new(None, merge.as_str(), Some(FsType::Overlay)));
        let mut plan: Vec<FsAction> = Vec::new();
        plan.push(FsAction::CreateDir(self.targetpath.clone()));
        if self.image_holds_target() {
            plan.push(FsAction::Warn(String::from_str(TMPFS_WARNING)));
            if !listed {
                plan.push(FsAction::MountTmpfs(self.targetpath.clone()));
            }
        }
        plan.push(FsAction::CreateDir(merge.clone()));
        plan.push(FsAction::CreateDir(upper.clone()));
        plan.push(FsAction::CreateDir(work.clone()));
        if !listed {
            plan.push(
                FsAction::MountOverlay {
                    lower: self.imagepath.clone(),
                    upper,
                    work,
                    target: merge,
                },
            );
        }
        assert(plan.deep_view() =~= self@.mount_plan(listed));
        plan
    }

    /// The actions that unmount the layout, innermost first: the container's
    /// process information, the overlay, the layout's directory.
    pub fn umount(&self) -> (plan: Vec<FsAction>)
        ensures
            plan.deep_view() == self@.umount_plan(),
    {
        let merge: String = join(self.targetpath.as_str(), MERGE_DIR);
        let mut plan: Vec<FsAction> = Vec::new();
        plan.push(FsAction::Unmount(join(merge.as_str(), "proc")));
        plan.push(FsAction::Unmount(merge));
        plan.push(FsAction::Unmount(self.targetpath.clone()));
        assert(plan.deep_view() =~= self@.umount_plan());
        plan
    }

    /// One round of taking the layout down: while the registry lists the
    /// overlay, unmount; once it does not, remove the directories.
    pub fn delete(&self, mtab: &MTab) -> (step: DeleteStep)
        ensures
            step@ == (if lists(mtab@, self@.overlay_query()) {
                DeleteStepView::Unmount(self@.umount_plan())
            } else {
                DeleteStepView::Remove(self@.remove_plan())
            }),
    {
        let target: &str = self.targetpath.as_str();
        let merge: String = join(target, MERGE_DIR);
        if mtab.contains(MountingPoint::new(None, merge.as_str(), Some(FsType::Overlay))) {
            DeleteStep::Unmount(self.umount())
        } else {
            let mut plan: Vec<FsAction> = Vec::new();
            plan.push(FsAction::RemoveDirAll(merge));
            plan.push(FsAction::RemoveDirAll(join(target, UPPER_DIR)));
            plan.push(FsAction::RemoveDirAll(join(target, WORK_DIR)));
            plan.push(FsAction::RemoveDirAll(self.targetpath.clone()));
            assert(plan.deep_view() =~= self@.remove_plan());
            DeleteStep::Remove(plan)
        }
    }
}

/// The mode of the device nodes: read and write for everyone.
pub const DEVICE_MODE: u32 = 0o666;

/// An entry of the table of mounts inside the container. A failure of any
/// of them is fatal.
pub open spec fn table_entry(
    what: Option<Seq<char>>,
    path: Seq<char>,
    fstype: Option<FsTypeView>,
    options: Option<Seq<char>>,
    flags: u64,
    in_userns: bool,
    use_netns: bool,
) -> MountingPointView {
    MountingPointView {
        what,
        path,
        fstype,
        options,
        flags: Some(flags),
        fatal: Some(true),
        in_userns: Some(in_userns),
        use_netns: Some(use_netns),
    }
}

/// The mounts inside the container, in the order in which they are made.
pub open spec fn inner_table() -> Seq<MountingPointView> {
    seq![
        table_entry(None, "/"@, None, None, MS_REC | MS_PRIVATE, true, false),
        table_entry(
            Some("proc"@),
            "/proc"@,
            Some(FsTypeView::Proc),
            None,
            MS_NOSUID | MS_NOEXEC | MS_NODEV,
            true,
            false,
        ),
        table_entry(Some("/proc/sys"@), "/proc/sys"@, None, None, MS_BIND, true, false),
        table_entry(Some("/proc/sys/net"@), "/proc/sys/net"@, None, None, MS_BIND, true, true),
        table_entry(
            None,
            "/proc/sys"@,
            None,
            None,
            MS_BIND | MS_RDONLY | MS_NOSUID | MS_NOEXEC | MS_NODEV | MS_REMOUNT,
            true,
            false,
        ),
        table_entry(
            Some("tmpfs"@),
            "/sys"@,
            Some(FsTypeView::Tmpfs),
            Some("mode=755"@),
            MS_NOSUID | MS_NOEXEC | MS_NODEV,
            false,
            true,
        ),
        table_entry(
            Some("sysfs"@),
            "/sys"@,
            Some(FsTypeView::Sysfs),
            None,
            MS_RDONLY | MS_NOSUID | MS_NOEXEC | MS_NODEV,
            false,
            false,
        ),
        table_entry(
            Some("tmpfs"@),
            "/dev"@,
            Some(FsTypeView::Tmpfs),
            Some("mode=755"@),
            MS_NOSUID | MS_STRICTATIME,
            false,
            false,
        ),
        table_entry(
            Some("tmpfs"@),
            "/dev/shm"@,
            Some(FsTypeView::Tmpfs),
            Some("mode=1777"@),
            MS_NOSUID | MS_STRICTATIME | MS_NODEV,
            false,
            false,
        ),
        table_entry(
            Some("tmpfs"@),
            "/run"@,
            Some(FsTypeView::Tmpfs),
            Some("mode=755"@),
            MS_NOSUID | MS_STRICTATIME | MS_NODEV,
            false,
            false,
        ),
        table_entry(
            Some("tmpfs"@),
            "/tmp"@,
            Some(FsTypeView::Tmpfs),
            Some("mode=1777"@),
            MS_STRICTATIME,
            false,
            false,
        ),
    ]
}

/// The number of a device, from its major and minor numbers.
pub open spec fn device_number(major: u64, minor: u64) -> u64 {
    ((major & 0xffff_f000) << 32) | ((major & 0x0000_0fff) << 8) | ((minor & 0xffff_ff00) << 12) | (
    minor & 0x0000_00ff)
}

/// `nix::sys::stat::makedev` packs a major and a minor number into a device
/// number, bit by bit as [`device_number`] says.
pub assume_specification[ nix::sys::stat::makedev ](major: u64, minor: u64) -> (dev: u64)
    ensures
        dev == device_number(major, minor),
;

/// The number of a device with a small major and minor number is the major
/// number times 256 plus the minor number.
pub proof fn lemma_small_device_number(major: u64, minor: u64)
    requires
        major < 0x1000,
        minor < 0x100,
    ensures
        device_number(major, minor) == major * 256 + minor,
{
    assert(major < 0x1000 && minor < 0x100 ==> ((major & 0xffff_f000) << 32) | ((major
        & 0x0000_0fff) << 8) | ((minor & 0xffff_ff00) << 12) | (minor & 0x0000_00ff) == major * 256
        + minor) by (bit_vector);
}

/// The character device with the given path and numbers, as an action.
pub open spec fn device_node(path: Seq<char>, major: u64, minor: u64) -> FsActionView {
    FsActionView::MakeCharDevice { path, mode: DEVICE_MODE, device: device_number(major, minor) }
}

/// The device nodes of a container, in the order in which they are made.
pub open spec fn device_nodes() -> Seq<FsActionView> {
    seq![
        device_node("/dev/null"@, 1, 3),
        device_node("/dev/zero"@, 1, 5),
        device_node("/dev/full"@, 1, 7),
        device_node("/dev/random"@, 1, 8),
        device_node("/dev/urandom"@, 1, 9),
        device_node("/dev/tty"@, 5, 0),
        device_node("/dev/ptmx"@, 5, 2),
    ]
}

/// The actions that make the mounts of a table, in order: before each mount,
/// its directory is created.
pub open spec fn with_directories(table: Seq<MountingPointView>) -> Seq<FsActionView> {
    Seq::new(
        2 * table.len(),
        |i: int|
            if i % 2 == 0 {
                FsActionView::CreateDirAll(table[i / 2].path)
            } else {
                FsActionView::Mount(table[i / 2])
            },
    )
}

/// The actions that furnish the container's root from inside, in order.
pub open spec fn inner_plan() -> Seq<FsActionView> {
    with_directories(inner_table()) + device_nodes()
}

fn text(s: &str) -> (r: Option<String>)
    ensures
        r.deep_view() == Some(s@),
{
    Some(String::from_str(s))
}

fn entry(
    what: Option<String>,
    path: &str,
    fstype: Option<FsType>,
    options: Option<String>,
    flags: u64,
    in_userns: bool,
    use_netns: bool,
) -> (m: MountingPoint)
    ensures
        m@ == table_entry(
            what.deep_view(),
            path@,
            fstype.deep_view(),
            options.deep_view(),
            flags,
            in_userns,
            use_netns,
        ),
{
    MountingPoint::new_all(
        what,
        path,
        fstype,
        options,
        Some(flags),
        Some(true),
        Some(in_userns),
        Some(use_netns),
    )
}

fn node(path: &str, major: u64, minor: u64) -> (a: FsAction)
    ensures
        a@ == device_node(path@, major, minor),
{
    FsAction::MakeCharDevice {
        path: String::from_str(path),
        mode: DEVICE_MODE,
        device: nix::sys::stat::makedev(major, minor),
    }
}

impl Filesystem {
    /// The mounts inside the container, in the order in which they are made.
    pub fn inner_mount_table(&self) -> (table: Vec<MountingPoint>)
        ensures
            table.deep_view() == inner_table(),
    {
        let mut table: Vec<MountingPoint> = Vec::new();
        table.push(entry(None, "/", None, None, MS_REC | MS_PRIVATE, true, false));
        table.push(
            entry(
                text("proc"),
                "/proc",
                Some(FsType::Proc),
                None,
                MS_NOSUID | MS_NOEXEC | MS_NODEV,
                true,
                false,
            ),
        );
        table.push(entry(text("/proc/sys"), "/proc/sys", None, None, MS_BIND, true, false));
        table.push(entry(text("/proc/sys/net"), "/proc/sys/net", None, None, MS_BIND, true, true));
        table.push(
            entry(
                None,
                "/proc/sys",
                None,
                None,
                MS_BIND | MS_RDONLY | MS_NOSUID | MS_NOEXEC | MS_NODEV | MS_REMOUNT,
                true,
                false,
            ),
        );
        table.push(
            entry(
                text("tmpfs"),
                "/sys",
                Some(FsType::Tmpfs),
                text("mode=755"),
                MS_NOSUID | MS_NOEXEC | MS_NODEV,
                false,
                true,
            ),
        );
        table.push(
            entry(
                text("sysfs"),
                "/sys",
                Some(FsType::Sysfs),
                None,
                MS_RDONLY | MS_NOSUID | MS_NOEXEC | MS_NODEV,
                false,
                false,
            ),
        );
        table.push(
            entry(
                text("tmpfs"),
                "/dev",
                Some(FsType::Tmpfs),
                text("mode=755"),
                MS_NOSUID | MS_STRICTATIME,
                false,
                false,
            ),
        );
        table.push(
            entry(
                text("tmpfs"),
                "/dev/shm",
                Some(FsType::Tmpfs),
                text("mode=1777"),
                MS_NOSUID | MS_STRICTATIME | MS_NODEV,
                false,
                false,
            ),
        );
        table.push(
            entry(
                text("tmpfs"),
                "/run",
                Some(FsType::Tmpfs),
                text("mode=755"),
                MS_NOSUID | MS_STRICTATIME | MS_NODEV,
                false,
                false,
            ),
        );
        table.push(
            entry(
                text("tmpfs"),
                "/tmp",
                Some(FsType::Tmpfs),
                text("mode=1777"),
                MS_STRICTATIME,
                false,
                false,
            ),
        );
        assert(table.deep_view() =~= inner_table());
        table
    }

    /// The actions that create the device nodes of a container: seven
    /// character devices that everyone may read and write.
    pub fn create_dev_devices(&self) -> (plan: Vec<FsAction>)
        ensures
            plan.deep_view() == device_nodes(),
    {
        let mut plan: Vec<FsAction> = Vec::new();
        plan.push(node("/dev/null", 1, 3));
        plan.push(node("/dev/zero", 1, 5));
        plan.push(node("/dev/full", 1, 7));
        plan.push(node("/dev/random", 1, 8));
        plan.push(node("/dev/urandom", 1, 9));
        plan.push(node("/dev/tty", 5, 0));
        plan.push(node("/dev/ptmx", 5, 2));
        assert(plan.deep_view() =~= device_nodes());
        plan
    }

    /// The actions that furnish the container's root from inside, in order:
    /// for each mount of the table its directory and then the mount, and
    /// after the last mount the device nodes. Every mount of the plan comes
    /// directly after the creation of its directory.
    pub fn inner_mount(&self) -> (plan: Vec<FsAction>)
        ensures
            plan.deep_view() == inner_plan(),
            forall|k: int|
                0 <= k < plan.len() && (#[trigger] plan.deep_view()[k]) is Mount ==> k > 0
                    && plan.deep_view()[k - 1] == FsActionView::CreateDirAll(
                    plan.deep_view()[k]->Mount_0.path,
                ),
    {
        let table: Vec<MountingPoint> = self.inner_mount_table();
        let mut plan: Vec<FsAction> = Vec::new();
        let mut i: usize = 0;
        assert(plan.deep_view() =~= with_directories(table.deep_view().take(0)));
        while i < table.len()
            invariant
                0 <= i <= table.len(),
                plan.len() == 2 * i,
                plan.deep_view() == with_directories(table.deep_view().take(i as int)),
            decreases table.len() - i,
        {
            let ghost before = plan.deep_view();
            let ghost rows = table.deep_view();
            plan.push(FsAction::CreateDirAll(table[i].path.clone()));
            plan.push(FsAction::Mount(table[i].clone()));
            proof {
                let after = with_directories(rows.take(i + 1));
                assert(plan.deep_view().len() == after.len());
                assert forall|k: int| 0 <= k < after.len() implies plan.deep_view()[k]
                    == after[k] by {
                    if k < 2 * i {
                        assert(plan.deep_view()[k] == before[k]);
                        assert(rows.take(i + 1)[k / 2] == rows.take(i as int)[k / 2]);
                    } else {
                        assert(rows.take(i + 1)[k / 2] == rows[i as int]);
                    }
                }
            }
            i = i + 1;
            assert(plan.deep_view() =~= with_directories(table.deep_view().take(i as int)));
        }
        assert(table.deep_view().take(i as int) =~= table.deep_view());
        let ghost mounts = plan.deep_view();
        let mut devices: Vec<FsAction> = self.create_dev_devices();
        plan.append(&mut devices);
        assert(plan.deep_view() =~= mounts + device_nodes());
        plan
    }
}

} // verus!
