//! A model of the host that the composer's actions are performed on: which
//! directories exist and what is mounted where. The laws of the composer are
//! stated and proved on this model.
//!
//! A place is a path by its components. At each place the mounts are
//! stacked: the last one made is the first one unmounted. The model takes a
//! filesystem to be empty when it is mounted: a mount covers the directories
//! below its place, and the unmount brings them back in place of what was
//! made since.

use vstd::prelude::*;
use crate::filesystem::FilesystemView;
use crate::filesystem::FsActionView;
use crate::filesystem::MERGE_DIR;
use crate::filesystem::TMPFS_WARNING;
use crate::filesystem::UPPER_DIR;
use crate::filesystem::WORK_DIR;
use crate::filesystem::device_nodes;
use crate::filesystem::inner_plan;
use crate::filesystem::is_due;
use crate::filesystem::inner_table;
use crate::filesystem::with_directories;
use crate::mount::FsTypeView;
use crate::mount::MountingPointView;
use crate::mount::lists;
use crate::path::components;
use crate::error::ErrorView;
use crate::teardown::TeardownActionView;
use crate::teardown::TeardownEventView;
use crate::teardown::TeardownState;
use crate::teardown::TeardownView;
use crate::path::dot;
use crate::path::is_plain_name;
use crate::path::lemma_components_of_joined;
use crate::path::SEPARATOR;

verus! {

/// A place: a path by its components.
pub type Place = Seq<Seq<char>>;

/// One mount: the type of the filesystem, and the directories that the
/// mount covers.
pub struct Mounted {
    pub fstype: Option<FsTypeView>,
    pub covered: Set<Place>,
}

/// A host.
pub struct Host {
    /// The places that are directories.
    pub dirs: Set<Place>,
    /// What is mounted at each place, the oldest mount first.
    pub mounts: Map<Place, Seq<Mounted>>,
}

/// Whether the place `d` lies below the place `p` and is not `p`.
pub open spec fn strictly_below(d: Place, p: Place) -> bool {
    p.len() < d.len() && p.is_prefix_of(d)
}

/// Whether the place `d` is `p` or lies below it.
pub open spec fn at_or_below(d: Place, p: Place) -> bool {
    p.is_prefix_of(d)
}

impl Host {
    /// The mounts at a place, the oldest first.
    pub open spec fn stack(self, place: Place) -> Seq<Mounted> {
        if self.mounts.dom().contains(place) {
            self.mounts[place]
        } else {
            Seq::empty()
        }
    }

    /// The types of the filesystems mounted at a place, the oldest first.
    pub open spec fn types(self, place: Place) -> Seq<Option<FsTypeView>> {
        Seq::new(self.stack(place).len(), |i: int| self.stack(place)[i].fstype)
    }

    /// Whether a filesystem of the given type is mounted at a place.
    pub open spec fn mounted(self, place: Place, fstype: Option<FsTypeView>) -> bool {
        self.types(place).contains(fstype)
    }

    /// The directories below a place.
    pub open spec fn below(self, place: Place) -> Set<Place> {
        Set::new(|d: Place| self.dirs.contains(d) && strictly_below(d, place))
    }

    /// The host with one more directory.
    pub open spec fn with_dir(self, place: Place) -> Host {
        Host { dirs: self.dirs.insert(place), ..self }
    }

    /// The host with a directory and the directories above it.
    pub open spec fn with_dirs_down_to(self, place: Place) -> Host {
        Host {
            dirs: Set::new(
                |d: Place|
                    self.dirs.contains(d) || d == place || (d.len() > 0 && d.is_prefix_of(place)),
            ),
            ..self
        }
    }

    /// The host without a directory and what is below it.
    pub open spec fn without_dir(self, place: Place) -> Host {
        Host { dirs: Set::new(|d: Place| self.dirs.contains(d) && !at_or_below(d, place)), ..self }
    }

    /// The host after a mount at a place: the directories below the place
    /// are covered.
    pub open spec fn with_mount(self, place: Place, fstype: Option<FsTypeView>) -> Host {
        Host {
            dirs: Set::new(|d: Place| self.dirs.contains(d) && !strictly_below(d, place)),
            mounts: self.mounts.insert(
                place,
                self.stack(place).push(Mounted { fstype, covered: self.below(place) }),
            ),
        }
    }

    /// The host after the last mount at a place is unmounted: the
    /// directories that the mount covered are back, and what was below the
    /// place is gone.
    pub open spec fn without_mount(self, place: Place) -> Host {
        Host {
            dirs: Set::new(
                |d: Place|
                    (self.dirs.contains(d) && !strictly_below(d, place)) || self.stack(
                        place,
                    ).last().covered.contains(d),
            ),
            mounts: self.mounts.insert(place, self.stack(place).drop_last()),
        }
    }
}

/// Whether a registry says of the host's mounts what is the case: it lists
/// a mount at a place with a type exactly when one is mounted there.
pub open spec fn reads(table: Seq<MountingPointView>, h: Host) -> bool {
    forall|q: MountingPointView| #[trigger] lists(table, q) <==> h.mounted(components(q.path), q.fstype)
}

/// The host after an action, where the action can be performed. A mount
/// needs its directory, an overlay also the directories of its upper layer
/// and its scratch space; an unmount needs a mount. A directory is created
/// or removed where the action is due, and the host is left as it is where
/// it is not. Device nodes are no directories and leave the host as it is.
pub open spec fn perform(h: Host, action: FsActionView) -> Option<Host> {
    match action {
        FsActionView::CreateDir(p) => Some(
            if is_due(action, h.dirs.contains(components(p))) {
                h.with_dir(components(p))
            } else {
                h
            },
        ),
        FsActionView::CreateDirAll(p) => Some(h.with_dirs_down_to(components(p))),
        FsActionView::Warn(_) => Some(h),
        FsActionView::MountTmpfs(p) => if h.dirs.contains(components(p)) {
            Some(h.with_mount(components(p), Some(FsTypeView::Tmpfs)))
        } else {
            None
        },
        FsActionView::MountOverlay { lower, upper, work, target } => if h.dirs.contains(
            components(target),
        ) && h.dirs.contains(components(upper)) && h.dirs.contains(components(work)) {
            Some(h.with_mount(components(target), Some(FsTypeView::Overlay)))
        } else {
            None
        },
        FsActionView::Mount(m) => if h.dirs.contains(components(m.path)) {
            Some(h.with_mount(components(m.path), m.fstype))
        } else {
            None
        },
        FsActionView::MakeCharDevice { .. } => Some(h),
        FsActionView::Unmount(p) => if h.stack(components(p)).len() > 0 {
            Some(h.without_mount(components(p)))
        } else {
            None
        },
        FsActionView::RemoveDirAll(p) => Some(
            if is_due(action, h.dirs.contains(components(p))) {
                h.without_dir(components(p))
            } else {
                h
            },
        ),
    }
}

/// What came of a plan: the host it left, and whether every action was
/// performed.
pub struct Outcome {
    pub host: Host,
    pub complete: bool,
}

/// What comes of performing a plan on a host, action by action, up to the
/// first action that cannot be performed.
pub open spec fn outcome(h: Host, plan: Seq<FsActionView>) -> Outcome
    decreases plan.len(),
{
    if plan.len() == 0 {
        Outcome { host: h, complete: true }
    } else {
        let before = outcome(h, plan.drop_last());
        if before.complete {
            match perform(before.host, plan.last()) {
                Some(after) => Outcome { host: after, complete: true },
                None => Outcome { host: before.host, complete: false },
            }
        } else {
            before
        }
    }
}

/// What comes of one plan after another: what comes of the second on the
/// host that the first left, if the first was performed to its end.
pub open spec fn then(first: Outcome, plan: Seq<FsActionView>) -> Outcome {
    if first.complete {
        outcome(first.host, plan)
    } else {
        first
    }
}

/// Performing two plans in a row is performing the first and then the
/// second.
pub proof fn lemma_outcome_of_concat(h: Host, front: Seq<FsActionView>, back: Seq<FsActionView>)
    ensures
        outcome(h, front + back) == then(outcome(h, front), back),
    decreases back.len(),
{
    if back.len() == 0 {
        assert(front + back =~= front);
    } else {
        assert((front + back).drop_last() =~= front + back.drop_last());
        assert((front + back).last() == back.last());
        lemma_outcome_of_concat(h, front, back.drop_last());
    }
}

/// What comes of a plan of one action.
pub proof fn lemma_outcome_of_one(h: Host, a: FsActionView)
    ensures
        outcome(h, seq![a]) == (match perform(h, a) {
            Some(after) => Outcome { host: after, complete: true },
            None => Outcome { host: h, complete: false },
        }),
{
    assert(seq![a].drop_last() =~= Seq::<FsActionView>::empty());
    assert(seq![a].last() == a);
    assert(outcome(h, Seq::<FsActionView>::empty()) == Outcome { host: h, complete: true });
}

/// What comes of a plan with one more action at its end.
pub proof fn lemma_outcome_of_push(h: Host, plan: Seq<FsActionView>, a: FsActionView)
    ensures
        outcome(h, plan.push(a)) == then(outcome(h, plan), seq![a]),
{
    assert(plan.push(a) =~= plan + seq![a]);
    lemma_outcome_of_concat(h, plan, seq![a]);
}

/// After the creation of a directory, due or not, the directory is there
/// and nothing else has changed.
pub proof fn lemma_directory_is_there(h: Host, path: Seq<char>)
    ensures
        perform(h, FsActionView::CreateDir(path)) == Some(h.with_dir(components(path))),
{
    if h.dirs.contains(components(path)) {
        assert(h.with_dir(components(path)).dirs =~= h.dirs);
    }
}

/// After the removal of a directory, due or not, the directory is not
/// there, no directory has come, and the mounts are as they were.
pub proof fn lemma_directory_is_gone(h: Host, path: Seq<char>)
    ensures
        perform(h, FsActionView::RemoveDirAll(path)) is Some,
        !perform(h, FsActionView::RemoveDirAll(path))->Some_0.dirs.contains(components(path)),
        perform(h, FsActionView::RemoveDirAll(path))->Some_0.mounts == h.mounts,
        forall|d: Place| #[trigger]
            perform(h, FsActionView::RemoveDirAll(path))->Some_0.dirs.contains(d)
                ==> h.dirs.contains(d),
{
}

/// Every mount of a table finds its directory: the actions that make the
/// mounts of a table, each after its directory, can all be performed on any
/// host.
pub proof fn lemma_mounts_find_their_directories(h: Host, table: Seq<MountingPointView>)
    ensures
        outcome(h, with_directories(table)).complete,
    decreases table.len(),
{
    let plan = with_directories(table);
    if table.len() > 0 {
        let front = table.drop_last();
        let m = table.last();
        let dir = FsActionView::CreateDirAll(m.path);
        lemma_mounts_find_their_directories(h, front);
        assert(plan =~= with_directories(front).push(dir).push(FsActionView::Mount(m))) by {
            let built = with_directories(front).push(dir).push(FsActionView::Mount(m));
            assert(plan.len() == built.len());
            assert forall|i: int| 0 <= i < plan.len() implies plan[i] == built[i] by {
                if i < 2 * front.len() {
                    assert(table[i / 2] == front[i / 2]);
                }
            }
        }
        let made = outcome(h, with_directories(front));
        lemma_outcome_of_push(h, with_directories(front), dir);
        lemma_outcome_of_one(made.host, dir);
        let ready = outcome(h, with_directories(front).push(dir));
        assert(ready.complete);
        assert(ready.host.dirs.contains(components(m.path)));
        lemma_outcome_of_push(h, with_directories(front).push(dir), FsActionView::Mount(m));
        lemma_outcome_of_one(ready.host, FsActionView::Mount(m));
    } else {
        assert(plan =~= Seq::<FsActionView>::empty());
    }
}

/// The actions that furnish a container's root from inside can all be
/// performed on any host: every mount is made on a directory that exists.
pub proof fn lemma_inner_plan_completes(h: Host)
    ensures
        outcome(h, inner_plan()).complete,
{
    lemma_mounts_find_their_directories(h, inner_table());
    let mounted = outcome(h, with_directories(inner_table()));
    lemma_outcome_of_concat(h, with_directories(inner_table()), device_nodes());
    lemma_devices_complete(mounted.host, device_nodes());
}

/// A plan that only creates device nodes can be performed on any host.
proof fn lemma_devices_complete(h: Host, plan: Seq<FsActionView>)
    requires
        forall|i: int| 0 <= i < plan.len() ==> (#[trigger] plan[i]) is MakeCharDevice,
    ensures
        outcome(h, plan) == (Outcome { host: h, complete: true }),
    decreases plan.len(),
{
    if plan.len() > 0 {
        lemma_devices_complete(h, plan.drop_last());
        assert(plan.last() == plan[plan.len() - 1]);
    }
}

impl FilesystemView {
    /// The place of the layout's directory.
    pub open spec fn target_place(self) -> Place {
        components(self.target)
    }

    /// The place that the overlay is mounted on.
    pub open spec fn merge_place(self) -> Place {
        components(self.merge())
    }

    /// The place of the upper layer.
    pub open spec fn upper_place(self) -> Place {
        components(self.upper())
    }

    /// The place of the overlay's scratch directory.
    pub open spec fn work_place(self) -> Place {
        components(self.work())
    }

    /// The place where the container's process information is mounted.
    pub open spec fn proc_place(self) -> Place {
        components(self.proc())
    }

    /// The host after the overlay is established on `h`, given whether the
    /// overlay was listed as mounted.
    pub open spec fn composed(self, h: Host, overlay_listed: bool) -> Host {
        let made = h.with_dir(self.target_place());
        let backed = if self.image_holds_target() && !overlay_listed {
            made.with_mount(self.target_place(), Some(FsTypeView::Tmpfs))
        } else {
            made
        };
        let laid = backed.with_dir(self.merge_place()).with_dir(self.upper_place()).with_dir(
            self.work_place(),
        );
        if overlay_listed {
            laid
        } else {
            laid.with_mount(self.merge_place(), Some(FsTypeView::Overlay))
        }
    }
}

/// The directories of the layout lie directly in the layout's directory,
/// under their names, and the container's process information directly in
/// the container's root.
pub proof fn lemma_layout_places(fs: FilesystemView)
    ensures
        fs.merge_place() == fs.target_place().push(MERGE_DIR@),
        fs.upper_place() == fs.target_place().push(UPPER_DIR@),
        fs.work_place() == fs.target_place().push(WORK_DIR@),
        fs.proc_place() == fs.merge_place().push("proc"@),
        MERGE_DIR@ != UPPER_DIR@,
        MERGE_DIR@ != WORK_DIR@,
        UPPER_DIR@ != WORK_DIR@,
{
    reveal_strlit("merge");
    reveal_strlit("upper");
    reveal_strlit("workdir");
    reveal_strlit("proc");
    assert(is_plain_name(MERGE_DIR@)) by {
        assert(MERGE_DIR@.len() == 5);
        assert(MERGE_DIR@ != dot());
        assert forall|i: int| 0 <= i < MERGE_DIR@.len() implies MERGE_DIR@[i] != SEPARATOR by {}
    }
    assert(is_plain_name(UPPER_DIR@)) by {
        assert(UPPER_DIR@.len() == 5);
        assert(UPPER_DIR@ != dot());
        assert forall|i: int| 0 <= i < UPPER_DIR@.len() implies UPPER_DIR@[i] != SEPARATOR by {}
    }
    assert(is_plain_name(WORK_DIR@)) by {
        assert(WORK_DIR@.len() == 7);
        assert(WORK_DIR@ != dot());
        assert forall|i: int| 0 <= i < WORK_DIR@.len() implies WORK_DIR@[i] != SEPARATOR by {}
    }
    assert(is_plain_name("proc"@)) by {
        assert("proc"@.len() == 4);
        assert("proc"@ != dot());
        assert forall|i: int| 0 <= i < "proc"@.len() implies "proc"@[i] != SEPARATOR by {}
    }
    lemma_components_of_joined(fs.target, MERGE_DIR@);
    lemma_components_of_joined(fs.target, UPPER_DIR@);
    lemma_components_of_joined(fs.target, WORK_DIR@);
    lemma_components_of_joined(fs.merge(), "proc"@);
    assert(MERGE_DIR@[0] != UPPER_DIR@[0]);
    assert(MERGE_DIR@.len() != WORK_DIR@.len());
    assert(UPPER_DIR@.len() != WORK_DIR@.len());
}

/// The places of the layout are four different places, none of the three
/// directories lies below another, and the layout's directory lies below
/// none of them.
pub proof fn lemma_layout_places_differ(fs: FilesystemView)
    ensures
        fs.merge_place() != fs.target_place(),
        fs.upper_place() != fs.target_place(),
        fs.work_place() != fs.target_place(),
        fs.merge_place() != fs.upper_place(),
        fs.merge_place() != fs.work_place(),
        fs.upper_place() != fs.work_place(),
        fs.proc_place() != fs.merge_place(),
        fs.proc_place() != fs.target_place(),
        fs.merge_place().len() == fs.target_place().len() + 1,
        fs.upper_place().len() == fs.target_place().len() + 1,
        fs.work_place().len() == fs.target_place().len() + 1,
        fs.proc_place().len() == fs.target_place().len() + 2,
{
    lemma_layout_places(fs);
    let t = fs.target_place();
    let n = t.len() as int;
    assert(fs.merge_place()[n] == MERGE_DIR@);
    assert(fs.upper_place()[n] == UPPER_DIR@);
    assert(fs.work_place()[n] == WORK_DIR@);
}

/// Establishing the overlay can always be performed, and leaves the host
/// that [`FilesystemView::composed`] describes.
pub proof fn lemma_mount_plan_outcome(fs: FilesystemView, h: Host, overlay_listed: bool)
    ensures
        outcome(h, fs.mount_plan(overlay_listed)) == (Outcome {
            host: fs.composed(h, overlay_listed),
            complete: true,
        }),
{
    lemma_layout_places_differ(fs);
    let t = fs.target_place();
    let m = fs.merge_place();
    let u = fs.upper_place();
    let w = fs.work_place();
    let first = seq![FsActionView::CreateDir(fs.target)];
    let second = if fs.image_holds_target() {
        seq![FsActionView::Warn(TMPFS_WARNING@)] + (if overlay_listed {
            Seq::empty()
        } else {
            seq![FsActionView::MountTmpfs(fs.target)]
        })
    } else {
        Seq::empty()
    };
    let third = seq![
        FsActionView::CreateDir(fs.merge()),
        FsActionView::CreateDir(fs.upper()),
        FsActionView::CreateDir(fs.work()),
    ];
    let overlay = FsActionView::MountOverlay {
        lower: fs.image,
        upper: fs.upper(),
        work: fs.work(),
        target: fs.merge(),
    };
    let fourth = if overlay_listed {
        Seq::empty()
    } else {
        seq![overlay]
    };
    assert(fs.mount_plan(overlay_listed) == first + second + third + fourth);
    let made = h.with_dir(t);
    let backed = if fs.image_holds_target() && !overlay_listed {
        made.with_mount(t, Some(FsTypeView::Tmpfs))
    } else {
        made
    };
    let laid = backed.with_dir(m).with_dir(u).with_dir(w);
    lemma_outcome_of_one(h, FsActionView::CreateDir(fs.target));
    lemma_directory_is_there(h, fs.target);
    assert(outcome(h, first) == Outcome { host: made, complete: true });
    assert(outcome(made, second) == Outcome { host: backed, complete: true }) by {
        if fs.image_holds_target() {
            let warn = FsActionView::Warn(TMPFS_WARNING@);
            lemma_outcome_of_one(made, warn);
            if overlay_listed {
                assert(second =~= seq![warn]);
            } else {
                lemma_outcome_of_concat(made, seq![warn], seq![FsActionView::MountTmpfs(fs.target)]);
                lemma_outcome_of_one(made, FsActionView::MountTmpfs(fs.target));
            }
        }
    }
    assert(outcome(backed, third) == Outcome { host: laid, complete: true }) by {
        let a = FsActionView::CreateDir(fs.merge());
        let b = FsActionView::CreateDir(fs.upper());
        let c = FsActionView::CreateDir(fs.work());
        assert(third =~= seq![a].push(b).push(c));
        lemma_directory_is_there(backed, fs.merge());
        lemma_directory_is_there(backed.with_dir(m), fs.upper());
        lemma_directory_is_there(backed.with_dir(m).with_dir(u), fs.work());
        lemma_outcome_of_one(backed, a);
        lemma_outcome_of_push(backed, seq![a], b);
        lemma_outcome_of_one(backed.with_dir(m), b);
        lemma_outcome_of_push(backed, seq![a].push(b), c);
        lemma_outcome_of_one(backed.with_dir(m).with_dir(u), c);
    }
    assert(outcome(laid, fourth) == Outcome { host: fs.composed(h, overlay_listed), complete: true })
        by {
        if !overlay_listed {
            lemma_outcome_of_one(laid, overlay);
        }
    }
    lemma_outcome_of_concat(h, first, second);
    lemma_outcome_of_concat(h, first + second, third);
    lemma_outcome_of_concat(h, first + second + third, fourth);
}

/// Establishing the overlay keeps its order: the memory-backed filesystem
/// is mounted before any directory of the overlay is created, and the
/// overlay is mounted after all of them.
pub proof fn lemma_mount_plan_order(fs: FilesystemView, overlay_listed: bool)
    ensures
        ({
            let plan = fs.mount_plan(overlay_listed);
            &&& forall|i: int, j: int|
                0 <= i < plan.len() && 0 <= j < plan.len() && (#[trigger] plan[i]) is MountTmpfs && (
                (#[trigger] plan[j]) == FsActionView::CreateDir(fs.merge()) || plan[j]
                    == FsActionView::CreateDir(fs.upper()) || plan[j] == FsActionView::CreateDir(
                    fs.work(),
                )) ==> i < j
            &&& forall|i: int, j: int|
                0 <= i < plan.len() && 0 <= j < plan.len() && (#[trigger] plan[i]) is MountOverlay
                    && (#[trigger] plan[j]) is CreateDir ==> j < i
        }),
{
    reveal_strlit("merge");
    reveal_strlit("upper");
    reveal_strlit("workdir");
    let plan = fs.mount_plan(overlay_listed);
    assert(fs.merge().len() > fs.target.len());
    assert(fs.upper().len() > fs.target.len());
    assert(fs.work().len() > fs.target.len());
    let dirs = seq![
        FsActionView::CreateDir(fs.merge()),
        FsActionView::CreateDir(fs.upper()),
        FsActionView::CreateDir(fs.work()),
    ];
    let overlay = FsActionView::MountOverlay {
        lower: fs.image,
        upper: fs.upper(),
        work: fs.work(),
        target: fs.merge(),
    };
    let first = FsActionView::CreateDir(fs.target);
    let warn = FsActionView::Warn(TMPFS_WARNING@);
    let tmpfs = FsActionView::MountTmpfs(fs.target);
    if fs.image_holds_target() {
        if overlay_listed {
            assert(plan =~= seq![first, warn] + dirs);
        } else {
            assert(plan =~= seq![first, warn, tmpfs] + dirs + seq![overlay]);
        }
    } else {
        if overlay_listed {
            assert(plan =~= seq![first] + dirs);
        } else {
            assert(plan =~= seq![first] + dirs + seq![overlay]);
        }
    }
}

/// After the overlay is established, the three directories of the layout
/// exist and an overlay is mounted on the container's root.
pub proof fn lemma_mount_establishes_layout(
    fs: FilesystemView,
    table: Seq<MountingPointView>,
    h: Host,
)
    requires
        reads(table, h),
    ensures
        ({
            let done = outcome(h, fs.mount_plan(lists(table, fs.overlay_query())));
            &&& done.complete
            &&& done.host.dirs.contains(fs.target_place())
            &&& done.host.dirs.contains(fs.merge_place())
            &&& done.host.dirs.contains(fs.upper_place())
            &&& done.host.dirs.contains(fs.work_place())
            &&& done.host.mounted(fs.merge_place(), Some(FsTypeView::Overlay))
        }),
{
    let listed = lists(table, fs.overlay_query());
    lemma_mount_plan_outcome(fs, h, listed);
    lemma_layout_places_differ(fs);
    let after = fs.composed(h, listed);
    let m = fs.merge_place();
    if listed {
        assert(h.mounted(components(fs.overlay_query().path), fs.overlay_query().fstype));
        assert(after.stack(m) == h.stack(m));
    } else {
        let grown = after.types(m);
        assert(grown[grown.len() - 1] == Some(FsTypeView::Overlay));
    }
}

/// Establishing the overlay a second time changes nothing: with the
/// registry read again in between, every action of the second time leaves
/// the host as it is.
pub proof fn lemma_mount_is_idempotent(
    fs: FilesystemView,
    table: Seq<MountingPointView>,
    h: Host,
    again: Seq<MountingPointView>,
)
    requires
        reads(table, h),
        reads(again, outcome(h, fs.mount_plan(lists(table, fs.overlay_query()))).host),
    ensures
        ({
            let once = outcome(h, fs.mount_plan(lists(table, fs.overlay_query())));
            let twice = outcome(once.host, fs.mount_plan(lists(again, fs.overlay_query())));
            twice == once
        }),
{
    let once = outcome(h, fs.mount_plan(lists(table, fs.overlay_query())));
    lemma_mount_establishes_layout(fs, table, h);
    assert(lists(again, fs.overlay_query()));
    lemma_mount_plan_outcome(fs, once.host, true);
    let twice = fs.composed(once.host, true);
    assert(twice.dirs =~= once.host.dirs);
}

/// How many rounds of unmounting it takes until no overlay is left in a
/// stack of mounts.
pub open spec fn rounds_needed(stack: Seq<Option<FsTypeView>>) -> nat
    decreases stack.len(),
{
    if stack.len() > 0 && stack.contains(Some(FsTypeView::Overlay)) {
        1 + rounds_needed(stack.drop_last())
    } else {
        0
    }
}

/// What comes of taking the layout down in at most `rounds` rounds of
/// unmounting: while an overlay is mounted on the container's root, the
/// layout is unmounted; once none is, its directories are removed.
pub open spec fn delete_outcome(fs: FilesystemView, h: Host, rounds: nat) -> Outcome
    decreases rounds,
{
    if h.mounted(fs.merge_place(), Some(FsTypeView::Overlay)) {
        if rounds == 0 {
            Outcome { host: h, complete: false }
        } else {
            let unmounted = outcome(h, fs.umount_plan());
            if unmounted.complete {
                delete_outcome(fs, unmounted.host, (rounds - 1) as nat)
            } else {
                unmounted
            }
        }
    } else {
        outcome(h, fs.remove_plan())
    }
}

/// What comes of unmounting the layout: performed to its end, it takes the
/// last mount from each of the three places.
pub proof fn lemma_umount_plan_outcome(fs: FilesystemView, h: Host)
    ensures
        ({
            let done = outcome(h, fs.umount_plan());
            let p = fs.proc_place();
            let m = fs.merge_place();
            let t = fs.target_place();
            if h.stack(p).len() == 0 {
                done == Outcome { host: h, complete: false }
            } else if h.stack(m).len() == 0 {
                done == Outcome { host: h.without_mount(p), complete: false }
            } else if h.stack(t).len() == 0 {
                done == Outcome { host: h.without_mount(p).without_mount(m), complete: false }
            } else {
                done == Outcome {
                    host: h.without_mount(p).without_mount(m).without_mount(t),
                    complete: true,
                }
            }
        }),
{
    lemma_layout_places_differ(fs);
    let a = FsActionView::Unmount(fs.proc());
    let b = FsActionView::Unmount(fs.merge());
    let c = FsActionView::Unmount(fs.target);
    assert(fs.umount_plan() =~= seq![a].push(b).push(c));
    lemma_outcome_of_one(h, a);
    lemma_outcome_of_push(h, seq![a], b);
    lemma_outcome_of_one(h.without_mount(fs.proc_place()), b);
    lemma_outcome_of_push(h, seq![a].push(b), c);
    lemma_outcome_of_one(h.without_mount(fs.proc_place()).without_mount(fs.merge_place()), c);
}

/// The removal of the layout's directories can always be performed. It
/// leaves none of them, and the mounts as they were.
pub proof fn lemma_remove_plan_outcome(fs: FilesystemView, h: Host)
    ensures
        ({
            let done = outcome(h, fs.remove_plan());
            &&& done.complete
            &&& done.host.mounts == h.mounts
            &&& !done.host.dirs.contains(fs.merge_place())
            &&& !done.host.dirs.contains(fs.upper_place())
            &&& !done.host.dirs.contains(fs.work_place())
            &&& !done.host.dirs.contains(fs.target_place())
        }),
{
    let a = FsActionView::RemoveDirAll(fs.merge());
    let b = FsActionView::RemoveDirAll(fs.upper());
    let c = FsActionView::RemoveDirAll(fs.work());
    let d = FsActionView::RemoveDirAll(fs.target);
    assert(fs.remove_plan() =~= seq![a].push(b).push(c).push(d));
    lemma_directory_is_gone(h, fs.merge());
    let h1 = perform(h, a)->Some_0;
    lemma_directory_is_gone(h1, fs.upper());
    let h2 = perform(h1, b)->Some_0;
    lemma_directory_is_gone(h2, fs.work());
    let h3 = perform(h2, c)->Some_0;
    lemma_directory_is_gone(h3, fs.target);
    lemma_outcome_of_one(h, a);
    lemma_outcome_of_push(h, seq![a], b);
    lemma_outcome_of_one(h1, b);
    lemma_outcome_of_push(h, seq![a].push(b), c);
    lemma_outcome_of_one(h2, c);
    lemma_outcome_of_push(h, seq![a].push(b).push(c), d);
    lemma_outcome_of_one(h3, d);
}

/// What stays mounted on the layout's directory when the layout is taken
/// down: the mounts that lie deeper than the rounds of unmounting reach.
pub open spec fn left_on_target(fs: FilesystemView, h: Host) -> Seq<Option<FsTypeView>> {
    let on_target = h.types(fs.target_place());
    let rounds = rounds_needed(h.types(fs.merge_place()));
    if rounds <= on_target.len() {
        on_target.take(on_target.len() - rounds)
    } else {
        Seq::empty()
    }
}

/// What taking the layout down leaves, on every host: no overlay on the
/// container's root, none of the layout's directories, and on the layout's
/// directory the mounts that lay deeper than the rounds of unmounting
/// reached, and no others.
pub proof fn lemma_delete_outcome(fs: FilesystemView, h: Host, rounds: nat)
    requires
        delete_outcome(fs, h, rounds).complete,
    ensures
        ({
            let gone = delete_outcome(fs, h, rounds).host;
            &&& !gone.mounted(fs.merge_place(), Some(FsTypeView::Overlay))
            &&& rounds_needed(h.types(fs.merge_place())) <= h.types(fs.target_place()).len()
            &&& gone.types(fs.target_place()) == left_on_target(fs, h)
            &&& !gone.dirs.contains(fs.merge_place())
            &&& !gone.dirs.contains(fs.upper_place())
            &&& !gone.dirs.contains(fs.work_place())
            &&& !gone.dirs.contains(fs.target_place())
        }),
    decreases rounds,
{
    lemma_layout_places_differ(fs);
    lemma_layout_places(fs);
    let p = fs.proc_place();
    let m = fs.merge_place();
    let t = fs.target_place();
    if h.mounted(m, Some(FsTypeView::Overlay)) {
        lemma_umount_plan_outcome(fs, h);
        let next = h.without_mount(p).without_mount(m).without_mount(t);
        assert(next.stack(m) == h.stack(m).drop_last());
        assert(next.stack(t) == h.stack(t).drop_last());
        assert(next.types(m) =~= h.types(m).drop_last());
        assert(next.types(t) =~= h.types(t).drop_last());
        lemma_delete_outcome(fs, next, (rounds - 1) as nat);
        let reach = rounds_needed(h.types(m));
        assert(reach == 1 + rounds_needed(next.types(m)));
        let kept = h.types(t).len() - reach;
        assert(next.types(t).take(kept) =~= h.types(t).take(kept));
    } else {
        lemma_remove_plan_outcome(fs, h);
        let gone = outcome(h, fs.remove_plan()).host;
        assert(gone.types(t) =~= h.types(t));
        assert(gone.types(m) =~= h.types(m));
        assert(h.types(t).take(h.types(t).len() as int) =~= h.types(t));
    }
}

/// Once the layout is taken down, no overlay is mounted on the container's
/// root, no memory-backed filesystem on the layout's directory, and none of
/// the layout's directories exists. This holds on every host on which no
/// memory-backed filesystem lies deeper on the layout's directory than the
/// rounds of unmounting reach; on every other host one of them stays, as
/// [`lemma_delete_outcome`] shows.
pub proof fn lemma_delete_leaves_nothing(fs: FilesystemView, h: Host, rounds: nat)
    requires
        !left_on_target(fs, h).contains(Some(FsTypeView::Tmpfs)),
        delete_outcome(fs, h, rounds).complete,
    ensures
        ({
            let gone = delete_outcome(fs, h, rounds).host;
            &&& !gone.mounted(fs.merge_place(), Some(FsTypeView::Overlay))
            &&& !gone.mounted(fs.target_place(), Some(FsTypeView::Tmpfs))
            &&& !gone.dirs.contains(fs.merge_place())
            &&& !gone.dirs.contains(fs.upper_place())
            &&& !gone.dirs.contains(fs.work_place())
            &&& !gone.dirs.contains(fs.target_place())
        }),
{
    lemma_delete_outcome(fs, h, rounds);
}

/// A layout that is established where nothing was mounted before has no
/// memory-backed filesystem deeper on its directory than unmounting reaches:
/// what [`lemma_delete_leaves_nothing`] asks of a host holds of it.
pub proof fn lemma_fresh_layout_can_be_taken_down(
    fs: FilesystemView,
    table: Seq<MountingPointView>,
    h: Host,
)
    requires
        reads(table, h),
        h.stack(fs.target_place()).len() == 0,
        h.stack(fs.merge_place()).len() == 0,
    ensures
        ({
            let once = outcome(h, fs.mount_plan(lists(table, fs.overlay_query()))).host;
            !left_on_target(fs, once).contains(Some(FsTypeView::Tmpfs))
        }),
{
    lemma_layout_places_differ(fs);
    let query = fs.overlay_query();
    assert(!lists(table, query)) by {
        assert(!h.mounted(components(query.path), query.fstype));
    }
    lemma_mount_plan_outcome(fs, h, false);
    let once = fs.composed(h, false);
    let types = once.types(fs.merge_place());
    assert(types =~= seq![Some(FsTypeView::Overlay)]);
    assert(types[0] == Some(FsTypeView::Overlay));
    assert(types.contains(Some(FsTypeView::Overlay)));
    assert(rounds_needed(types) == 1 + rounds_needed(types.drop_last()));
    assert(once.types(fs.target_place()).len() <= 1);
    assert(left_on_target(fs, once) =~= Seq::<Option<FsTypeView>>::empty());
}

/// The teardown of a layout that was never mounted removes its directories
/// although the unmount fails: the unmount cannot be performed and leaves
/// the host as it is, the teardown goes on to read the registry and to
/// remove the directories, the removal can be performed and leaves none of
/// the four, and the teardown ends in the error of the unmount.
pub proof fn lemma_teardown_of_unmounted_layout(
    t: TeardownView,
    h: Host,
    table: Seq<MountingPointView>,
    e: ErrorView,
)
    requires
        t.state == TeardownState::Idle,
        t.failure is None,
        reads(table, h),
        h.stack(t.fs.proc_place()).len() == 0,
        h.stack(t.fs.merge_place()).len() == 0,
    ensures
        ({
            let begun = t.next(TeardownEventView::Begin);
            let read = begun.0.next(TeardownEventView::Failed(e));
            let removal = read.0.next(TeardownEventView::Registry(table));
            let end = removal.0.next(TeardownEventView::Done);
            let gone = outcome(h, t.fs.remove_plan());
            &&& begun.1 == TeardownActionView::Filesystem(t.fs.umount_plan())
            &&& outcome(h, t.fs.umount_plan()) == Outcome { host: h, complete: false }
            &&& read.1 == TeardownActionView::ReadRegistry
            &&& removal.1 == TeardownActionView::Filesystem(t.fs.remove_plan())
            &&& gone.complete
            &&& !gone.host.dirs.contains(t.fs.merge_place())
            &&& !gone.host.dirs.contains(t.fs.upper_place())
            &&& !gone.host.dirs.contains(t.fs.work_place())
            &&& !gone.host.dirs.contains(t.fs.target_place())
            &&& end.1 == TeardownActionView::Fail(e)
        }),
{
    let query = t.fs.overlay_query();
    assert(!lists(table, query)) by {
        assert(!h.mounted(components(query.path), query.fstype));
    }
    lemma_umount_plan_outcome(t.fs, h);
    lemma_remove_plan_outcome(t.fs, h);
}

/// The types mounted at a place after a mount: one more at the place of the
/// mount, the same everywhere else.
pub proof fn lemma_types_with_mount(
    h: Host,
    place: Place,
    fstype: Option<FsTypeView>,
    at: Place,
)
    ensures
        h.with_mount(place, fstype).types(at) == (if at == place {
            h.types(at).push(fstype)
        } else {
            h.types(at)
        }),
{
    let after = h.with_mount(place, fstype);
    if at == place {
        assert(after.types(at) =~= h.types(at).push(fstype));
    } else {
        assert(after.types(at) =~= h.types(at));
    }
}

/// The types mounted at a place after an unmount: one fewer at the place of
/// the unmount, the same everywhere else.
pub proof fn lemma_types_without_mount(h: Host, place: Place, at: Place)
    requires
        h.stack(place).len() > 0,
    ensures
        h.without_mount(place).types(at) == (if at == place {
            h.types(at).drop_last()
        } else {
            h.types(at)
        }),
{
    let after = h.without_mount(place);
    if at == place {
        assert(after.types(at) =~= h.types(at).drop_last());
    } else {
        assert(after.types(at) =~= h.types(at));
    }
}

/// What establishing the overlay mounts: an overlay on the container's
/// root, unless one was listed; a memory-backed filesystem on the layout's
/// directory, if the image holds it and no overlay was listed; nothing where
/// the container's process information is mounted.
pub proof fn lemma_composed_types(fs: FilesystemView, h: Host, overlay_listed: bool)
    ensures
        ({
            let made = fs.composed(h, overlay_listed);
            &&& made.types(fs.merge_place()) == (if overlay_listed {
                h.types(fs.merge_place())
            } else {
                h.types(fs.merge_place()).push(Some(FsTypeView::Overlay))
            })
            &&& made.types(fs.target_place()) == (if fs.image_holds_target() && !overlay_listed {
                h.types(fs.target_place()).push(Some(FsTypeView::Tmpfs))
            } else {
                h.types(fs.target_place())
            })
            &&& made.stack(fs.proc_place()) == h.stack(fs.proc_place())
        }),
{
    lemma_layout_places_differ(fs);
    let t = fs.target_place();
    let m = fs.merge_place();
    let p = fs.proc_place();
    let first = h.with_dir(t);
    let backed = if fs.image_holds_target() && !overlay_listed {
        first.with_mount(t, Some(FsTypeView::Tmpfs))
    } else {
        first
    };
    let laid = backed.with_dir(m).with_dir(fs.upper_place()).with_dir(fs.work_place());
    assert(first.types(t) =~= h.types(t));
    assert(first.types(m) =~= h.types(m));
    lemma_types_with_mount(first, t, Some(FsTypeView::Tmpfs), t);
    lemma_types_with_mount(first, t, Some(FsTypeView::Tmpfs), m);
    assert(laid.types(t) =~= backed.types(t));
    assert(laid.types(m) =~= backed.types(m));
    lemma_types_with_mount(laid, m, Some(FsTypeView::Overlay), t);
    lemma_types_with_mount(laid, m, Some(FsTypeView::Overlay), m);
}

/// What unmounting the layout leaves on the two places of the layout, as far
/// as it gets.
pub proof fn lemma_unmounted_types(fs: FilesystemView, h: Host)
    requires
        h.stack(fs.merge_place()).len() > 0,
    ensures
        ({
            let left = outcome(h, fs.umount_plan()).host;
            let m = fs.merge_place();
            let t = fs.target_place();
            if h.stack(fs.proc_place()).len() == 0 {
                left == h
            } else {
                &&& left.types(m) == h.types(m).drop_last()
                &&& left.types(t) == (if h.stack(t).len() == 0 {
                    h.types(t)
                } else {
                    h.types(t).drop_last()
                })
            }
        }),
{
    lemma_layout_places_differ(fs);
    lemma_umount_plan_outcome(fs, h);
    let p = fs.proc_place();
    let m = fs.merge_place();
    let t = fs.target_place();
    if h.stack(p).len() > 0 {
        let a = h.without_mount(p);
        lemma_types_without_mount(h, p, m);
        lemma_types_without_mount(h, p, t);
        assert(a.stack(m) == h.stack(m));
        assert(a.stack(t) == h.stack(t));
        let b = a.without_mount(m);
        lemma_types_without_mount(a, m, m);
        lemma_types_without_mount(a, m, t);
        assert(b.stack(t) == h.stack(t));
        if h.stack(t).len() > 0 {
            lemma_types_without_mount(b, t, m);
            lemma_types_without_mount(b, t, t);
        }
    }
}

/// Whether establishing the overlay, unmounting the layout and establishing
/// the overlay again leaves the mounts of the layout as establishing it once
/// does. It does where the unmount stops at once because no process
/// information is mounted; where no overlay was mounted before and the
/// unmount takes nothing from the layout's directory that the mount did not
/// put there; and where the one overlay that was mounted before is put back
/// with exactly what the unmount took from the layout's directory.
pub open spec fn remount_restores(fs: FilesystemView, h: Host) -> bool {
    let on_merge = h.types(fs.merge_place());
    let on_target = h.types(fs.target_place());
    let overlay = Some(FsTypeView::Overlay);
    ||| h.stack(fs.proc_place()).len() == 0
    ||| !on_merge.contains(overlay) && (fs.image_holds_target() || on_target.len() == 0)
    ||| on_merge.contains(overlay) && !on_merge.drop_last().contains(overlay) && (if on_target.len()
        == 0 {
        !fs.image_holds_target()
    } else {
        fs.image_holds_target() && on_target.last() == Some(FsTypeView::Tmpfs)
    })
}

/// Establishing the overlay again after an unmount can always be performed,
/// and it leaves the same mounts on the container's root and on the layout's
/// directory as establishing the overlay once exactly on the hosts that
/// [`remount_restores`] describes.
pub proof fn lemma_remount_outcome(
    fs: FilesystemView,
    table: Seq<MountingPointView>,
    h: Host,
    again: Seq<MountingPointView>,
)
    requires
        reads(table, h),
        reads(
            again,
            outcome(
                outcome(h, fs.mount_plan(lists(table, fs.overlay_query()))).host,
                fs.umount_plan(),
            ).host,
        ),
    ensures
        ({
            let once = outcome(h, fs.mount_plan(lists(table, fs.overlay_query()))).host;
            let unmounted = outcome(once, fs.umount_plan()).host;
            let twice = outcome(unmounted, fs.mount_plan(lists(again, fs.overlay_query())));
            &&& twice.complete
            &&& (twice.host.types(fs.merge_place()) == once.types(fs.merge_place())
                && twice.host.types(fs.target_place()) == once.types(fs.target_place()))
                <==> remount_restores(fs, h)
        }),
{
    lemma_layout_places_differ(fs);
    let p = fs.proc_place();
    let m = fs.merge_place();
    let t = fs.target_place();
    let overlay = Some(FsTypeView::Overlay);
    let tmpfs = Some(FsTypeView::Tmpfs);
    let query = fs.overlay_query();
    let listed = lists(table, query);
    assert(listed == h.mounted(components(query.path), query.fstype));
    assert(listed == h.types(m).contains(overlay));
    lemma_mount_plan_outcome(fs, h, listed);
    lemma_mount_establishes_layout(fs, table, h);
    lemma_composed_types(fs, h, listed);
    let once = fs.composed(h, listed);
    let on_merge = h.types(m);
    let on_target = h.types(t);
    assert(once.types(m).contains(overlay));
    assert(once.stack(m).len() == once.types(m).len());
    assert(once.stack(t).len() == once.types(t).len());
    assert(h.stack(t).len() == on_target.len());
    lemma_unmounted_types(fs, once);
    let unmounted = outcome(once, fs.umount_plan()).host;
    let relisted = lists(again, query);
    assert(relisted == unmounted.mounted(components(query.path), query.fstype));
    assert(relisted == unmounted.types(m).contains(overlay));
    lemma_mount_plan_outcome(fs, unmounted, relisted);
    lemma_composed_types(fs, unmounted, relisted);
    let twice = fs.composed(unmounted, relisted);
    if once.stack(p).len() == 0 {
        assert(relisted);
    } else if !listed {
        assert(once.types(m).drop_last() =~= on_merge);
        assert(!relisted);
        if fs.image_holds_target() {
            assert(once.types(t).drop_last() =~= on_target);
        } else if on_target.len() > 0 {
            assert(twice.types(t).len() != once.types(t).len());
        }
    } else {
        assert(once.types(m) == on_merge);
        assert(once.types(t) == on_target);
        if relisted {
            assert(twice.types(m).len() != once.types(m).len());
        } else {
            assert(on_merge.len() > 0);
            assert(on_merge.last() == overlay) by {
                let i = choose|i: int| 0 <= i < on_merge.len() && on_merge[i] == overlay;
                if i < on_merge.len() - 1 {
                    assert(on_merge.drop_last()[i] == overlay);
                }
            }
            assert(on_merge.drop_last().push(overlay) =~= on_merge);
            if on_target.len() == 0 {
                if fs.image_holds_target() {
                    assert(twice.types(t).len() != once.types(t).len());
                }
            } else {
                if fs.image_holds_target() {
                    if on_target.last() == tmpfs {
                        assert(on_target.drop_last().push(tmpfs) =~= on_target);
                    } else {
                        assert(twice.types(t).last() != once.types(t).last());
                    }
                } else {
                    assert(twice.types(t).len() != once.types(t).len());
                }
            }
        }
    }
}

/// Establishing the overlay, unmounting the layout and establishing the
/// overlay again leaves the same mounts on the container's root and on the
/// layout's directory as establishing the overlay once, however far the
/// unmounting got. This holds on the hosts that [`remount_restores`]
/// describes, and on no others, as [`lemma_remount_outcome`] shows.
pub proof fn lemma_remount_restores_mounts(
    fs: FilesystemView,
    table: Seq<MountingPointView>,
    h: Host,
    again: Seq<MountingPointView>,
)
    requires
        remount_restores(fs, h),
        reads(table, h),
        reads(
            again,
            outcome(
                outcome(h, fs.mount_plan(lists(table, fs.overlay_query()))).host,
                fs.umount_plan(),
            ).host,
        ),
    ensures
        ({
            let once = outcome(h, fs.mount_plan(lists(table, fs.overlay_query()))).host;
            let unmounted = outcome(once, fs.umount_plan()).host;
            let twice = outcome(unmounted, fs.mount_plan(lists(again, fs.overlay_query())));
            &&& twice.complete
            &&& twice.host.types(fs.merge_place()) == once.types(fs.merge_place())
            &&& twice.host.types(fs.target_place()) == once.types(fs.target_place())
        }),
{
    lemma_remount_outcome(fs, table, h, again);
}

/// A host on which nothing is mounted on the layout's directory and on the
/// container's root is one on which mounting again restores the mounts.
pub proof fn lemma_fresh_layout_can_be_remounted(fs: FilesystemView, h: Host)
    requires
        h.stack(fs.target_place()).len() == 0,
        h.stack(fs.merge_place()).len() == 0,
    ensures
        remount_restores(fs, h),
{
}

} // verus!
