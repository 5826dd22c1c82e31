//! Mount descriptors, the mount registry read from the mount table, and the
//! arguments of the mount system call.

use vstd::prelude::*;
use vstd::string::StringExecFns;
use crate::error::Error;
use crate::error::ErrorView;
use crate::error::ErrorKindView;
use crate::error::errno_display;
use crate::error::errno_text;
use crate::path::components;
use crate::path::same_path;
use crate::text::Separator;
use crate::text::clone_text;
use crate::text::split;
use crate::text::tokens;

verus! {

/// Mount read-only.
pub const MS_RDONLY: u64 = 0x1;

/// Ignore set-user-id and set-group-id bits.
pub const MS_NOSUID: u64 = 0x2;

/// Disallow access to device special files.
pub const MS_NODEV: u64 = 0x4;

/// Disallow program execution.
pub const MS_NOEXEC: u64 = 0x8;

/// Alter the flags of a mounted filesystem.
pub const MS_REMOUNT: u64 = 0x20;

/// Make a directory subtree visible at another place.
pub const MS_BIND: u64 = 0x1000;

/// Apply to the whole subtree.
pub const MS_REC: u64 = 0x4000;

/// Make the mount point private.
pub const MS_PRIVATE: u64 = 0x4_0000;

/// Always update the last access time.
pub const MS_STRICTATIME: u64 = 0x100_0000;

/// The filesystem types that matter here, and any other by its name.
#[derive(Debug)]
pub enum FsType {
    Proc,
    Overlay,
    Tmpfs,
    Sysfs,
    Other(String),
}

/// Mathematical model of an [`FsType`].
pub enum FsTypeView {
    Proc,
    Overlay,
    Tmpfs,
    Sysfs,
    Other(Seq<char>),
}

impl View for FsType {
    type V = FsTypeView;

    open spec fn view(&self) -> FsTypeView {
        match self {
            FsType::Proc => FsTypeView::Proc,
            FsType::Overlay => FsTypeView::Overlay,
            FsType::Tmpfs => FsTypeView::Tmpfs,
            FsType::Sysfs => FsTypeView::Sysfs,
            FsType::Other(name) => FsTypeView::Other(name@),
        }
    }
}

/// The filesystem type that a name stands for.
pub open spec fn fstype_of(name: Seq<char>) -> FsTypeView {
    if name == "proc"@ {
        FsTypeView::Proc
    } else if name == "tmpfs"@ {
        FsTypeView::Tmpfs
    } else if name == "overlay"@ {
        FsTypeView::Overlay
    } else if name == "sysfs"@ {
        FsTypeView::Sysfs
    } else {
        FsTypeView::Other(name)
    }
}

/// The name of a filesystem type, as the kernel knows it.
pub open spec fn fstype_name(fstype: FsTypeView) -> Seq<char> {
    match fstype {
        FsTypeView::Proc => "proc"@,
        FsTypeView::Overlay => "overlay"@,
        FsTypeView::Tmpfs => "tmpfs"@,
        FsTypeView::Sysfs => "sysfs"@,
        FsTypeView::Other(name) => name,
    }
}

/// Every name is the name of the filesystem type that it stands for.
pub proof fn lemma_name_of_type_of_name(name: Seq<char>)
    ensures
        fstype_name(fstype_of(name)) == name,
{
}

fn str_eq(a: &str, b: &str) -> (r: bool)
    ensures
        r == (a@ == b@),
{
    a.to_owned() == b.to_owned()
}

impl FsType {
    /// The filesystem type that a name stands for. Every name stands for one.
    pub fn from_str(s: &str) -> (r: Result<FsType, Error>)
        ensures
            r is Ok,
            r->Ok_0@ == fstype_of(s@),
    {
        if str_eq(s, "proc") {
            Ok(FsType::Proc)
        } else if str_eq(s, "tmpfs") {
            Ok(FsType::Tmpfs)
        } else if str_eq(s, "overlay") {
            Ok(FsType::Overlay)
        } else if str_eq(s, "sysfs") {
            Ok(FsType::Sysfs)
        } else {
            Ok(FsType::Other(s.to_owned()))
        }
    }

    /// The name of this filesystem type.
    pub fn to_string(&self) -> (name: String)
        ensures
            name@ == fstype_name(self@),
    {
        match self {
            FsType::Proc => String::from_str("proc"),
            FsType::Overlay => String::from_str("overlay"),
            FsType::Tmpfs => String::from_str("tmpfs"),
            FsType::Sysfs => String::from_str("sysfs"),
            FsType::Other(name) => name.clone(),
        }
    }
}

impl Clone for FsType {
    fn clone(&self) -> (r: FsType)
        ensures
            r@ == self@,
    {
        match self {
            FsType::Proc => FsType::Proc,
            FsType::Overlay => FsType::Overlay,
            FsType::Tmpfs => FsType::Tmpfs,
            FsType::Sysfs => FsType::Sysfs,
            FsType::Other(name) => FsType::Other(name.clone()),
        }
    }
}

impl PartialEq for FsType {
    fn eq(&self, other: &FsType) -> (r: bool) {
        match (self, other) {
            (FsType::Proc, FsType::Proc) => true,
            (FsType::Overlay, FsType::Overlay) => true,
            (FsType::Tmpfs, FsType::Tmpfs) => true,
            (FsType::Sysfs, FsType::Sysfs) => true,
            (FsType::Other(a), FsType::Other(b)) => *a == *b,
            _ => false,
        }
    }
}

impl vstd::std_specs::cmp::PartialEqSpecImpl for FsType {
    open spec fn obeys_eq_spec() -> bool {
        true
    }

    open spec fn eq_spec(&self, other: &FsType) -> bool {
        self@ == other@
    }
}

impl DeepView for FsType {
    type V = FsTypeView;

    open spec fn deep_view(&self) -> FsTypeView {
        self@
    }
}

/// One mount: what is mounted, where, as which filesystem type, with which
/// options and flags. The last three fields are hints for whoever selects
/// among mounts: whether a failure is fatal, whether the mount applies inside
/// a user namespace, and whether it depends on a network namespace.
#[derive(Debug, PartialEq)]
pub struct MountingPoint {
    pub what: Option<String>,
    pub path: String,
    pub fstype: Option<FsType>,
    pub options: Option<String>,
    pub flags: Option<u64>,
    pub fatal: Option<bool>,
    pub in_userns: Option<bool>,
    pub use_netns: Option<bool>,
}

/// Mathematical model of a [`MountingPoint`].
pub struct MountingPointView {
    pub what: Option<Seq<char>>,
    pub path: Seq<char>,
    pub fstype: Option<FsTypeView>,
    pub options: Option<Seq<char>>,
    pub flags: Option<u64>,
    pub fatal: Option<bool>,
    pub in_userns: Option<bool>,
    pub use_netns: Option<bool>,
}

impl View for MountingPoint {
    type V = MountingPointView;

    open spec fn view(&self) -> MountingPointView {
        MountingPointView {
            what: self.what.deep_view(),
            path: self.path@,
            fstype: self.fstype.deep_view(),
            options: self.options.deep_view(),
            flags: self.flags,
            fatal: self.fatal,
            in_userns: self.in_userns,
            use_netns: self.use_netns,
        }
    }
}

impl DeepView for MountingPoint {
    type V = MountingPointView;

    open spec fn deep_view(&self) -> MountingPointView {
        self@
    }
}

impl Clone for MountingPoint {
    fn clone(&self) -> (r: MountingPoint)
        ensures
            r@ == self@,
    {
        let fstype: Option<FsType> = match &self.fstype {
            Some(t) => Some(t.clone()),
            None => None,
        };
        MountingPoint {
            what: clone_text(&self.what),
            path: self.path.clone(),
            fstype,
            options: clone_text(&self.options),
            flags: self.flags,
            fatal: self.fatal,
            in_userns: self.in_userns,
            use_netns: self.use_netns,
        }
    }
}

impl MountingPoint {
    /// A mount of `what` at `path` as `fstype`, with nothing else said.
    pub fn new(what: Option<String>, path: &str, fstype: Option<FsType>) -> (m: MountingPoint)
        ensures
            m@ == (MountingPointView {
                what: what.deep_view(),
                path: path@,
                fstype: fstype.deep_view(),
                options: None,
                flags: None,
                fatal: None,
                in_userns: None,
                use_netns: None,
            }),
    {
        MountingPoint {
            what,
            path: path.to_owned(),
            fstype,
            options: None,
            flags: None,
            fatal: None,
            in_userns: None,
            use_netns: None,
        }
    }

    /// A mount with every field given.
    pub fn new_all(
        what: Option<String>,
        path: &str,
        fstype: Option<FsType>,
        options: Option<String>,
        flags: Option<u64>,
        fatal: Option<bool>,
        in_userns: Option<bool>,
        use_netns: Option<bool>,
    ) -> (m: MountingPoint)
        ensures
            m@ == (MountingPointView {
                what: what.deep_view(),
                path: path@,
                fstype: fstype.deep_view(),
                options: options.deep_view(),
                flags,
                fatal,
                in_userns,
                use_netns,
            }),
    {
        MountingPoint {
            what,
            path: path.to_owned(),
            fstype,
            options,
            flags,
            fatal,
            in_userns,
            use_netns,
        }
    }

    /// Whether this mount and `other` are at the same place with the same
    /// filesystem type.
    pub fn same_place(&self, other: &MountingPoint) -> (r: bool)
        ensures
            r == same_place(self@, other@),
    {
        let same_type: bool = match (&self.fstype, &other.fstype) {
            (Some(a), Some(b)) => *a == *b,
            (None, None) => true,
            _ => false,
        };
        same_type && same_path(self.path.as_str(), other.path.as_str())
    }
}

/// Whether two mounts are at the same place with the same filesystem type.
/// Two paths name the same place when they have the same components; an
/// absent filesystem type equals only an absent one.
pub open spec fn same_place(a: MountingPointView, b: MountingPointView) -> bool {
    components(a.path) == components(b.path) && a.fstype == b.fstype
}

/// The mounts of the system, as the mount table listed them when it was read.
/// The order of the entries says nothing.
#[derive(Debug)]
pub struct MTab {
    mounting_points: Vec<MountingPoint>,
}

impl View for MTab {
    type V = Seq<MountingPointView>;

    closed spec fn view(&self) -> Seq<MountingPointView> {
        self.mounting_points.deep_view()
    }
}

/// Whether a registry lists a mount at the place of `query` with its
/// filesystem type.
pub open spec fn lists(table: Seq<MountingPointView>, query: MountingPointView) -> bool {
    exists|i: int| 0 <= i < table.len() && same_place(#[trigger] table[i], query)
}

/// The order of the entries of a registry says nothing: two registries with
/// the same entries, each as often in the one as in the other, list the same
/// mounts.
pub proof fn lemma_order_says_nothing(
    table: Seq<MountingPointView>,
    other: Seq<MountingPointView>,
    query: MountingPointView,
)
    requires
        table.to_multiset() == other.to_multiset(),
    ensures
        lists(table, query) == lists(other, query),
{
    if lists(table, query) {
        lemma_listed_in_both(table, other, query);
    }
    if lists(other, query) {
        lemma_listed_in_both(other, table, query);
    }
}

proof fn lemma_listed_in_both(
    table: Seq<MountingPointView>,
    other: Seq<MountingPointView>,
    query: MountingPointView,
)
    requires
        table.to_multiset() == other.to_multiset(),
        lists(table, query),
    ensures
        lists(other, query),
{
    let i = choose|i: int| 0 <= i < table.len() && same_place(#[trigger] table[i], query);
    let entry = table[i];
    assert(table.contains(entry));
    vstd::seq_lib::to_multiset_contains(table, entry);
    vstd::seq_lib::to_multiset_contains(other, entry);
    let j = choose|j: int| 0 <= j < other.len() && other[j] == entry;
    assert(same_place(other[j], query));
}

/// The entry that the fields of a line describe: the first four fields are
/// what is mounted, where, the filesystem type and the options.
pub open spec fn entry_of(fields: Seq<Seq<char>>) -> MountingPointView {
    MountingPointView {
        what: Some(fields[0]),
        path: fields[1],
        fstype: Some(fstype_of(fields[2])),
        options: Some(fields[3]),
        flags: None,
        fatal: None,
        in_userns: None,
        use_netns: None,
    }
}

/// The fields of a line of the mount table.
pub open spec fn fields_of(line: Seq<char>) -> Seq<Seq<char>> {
    tokens(line, Separator::Whitespace)
}

/// Whether a line of the mount table can be read: it is blank, or it has at
/// least four fields.
pub open spec fn line_is_readable(line: Seq<char>) -> bool {
    fields_of(line).len() == 0 || fields_of(line).len() >= 4
}

/// Whether every line of a mount table can be read.
pub open spec fn table_is_readable(text: Seq<char>) -> bool {
    let lines = tokens(text, Separator::Newline);
    forall|i: int| 0 <= i < lines.len() ==> line_is_readable(#[trigger] lines[i])
}

/// The entries of the lines of a mount table, in order: one for each line
/// that is not blank.
pub open spec fn entries_of(lines: Seq<Seq<char>>) -> Seq<MountingPointView>
    decreases lines.len(),
{
    if lines.len() == 0 {
        Seq::empty()
    } else if fields_of(lines.last()).len() == 0 {
        entries_of(lines.drop_last())
    } else {
        entries_of(lines.drop_last()).push(entry_of(fields_of(lines.last())))
    }
}

/// The entries of a mount table.
pub open spec fn table_entries(text: Seq<char>) -> Seq<MountingPointView> {
    entries_of(tokens(text, Separator::Newline))
}

/// The message of the error for a mount table with a line that cannot be read.
pub open spec fn unreadable_table_message() -> Seq<char> {
    "Could not read the mount table"@
}

impl MTab {
    /// The registry of the given mounts.
    pub fn new(mounting_points: Vec<MountingPoint>) -> (table: MTab)
        ensures
            table@ == mounting_points.deep_view(),
    {
        MTab { mounting_points }
    }

    /// Whether the registry lists a mount at the place of `mounting_point`
    /// with its filesystem type. The other fields of `mounting_point` do not
    /// count.
    pub fn contains(&self, mounting_point: MountingPoint) -> (r: bool)
        ensures
            r == lists(self@, mounting_point@),
    {
        let mut i: usize = 0;
        while i < self.mounting_points.len()
            invariant
                0 <= i <= self.mounting_points.len(),
                forall|k: int| 0 <= k < i ==> !same_place(#[trigger] self@[k], mounting_point@),
            decreases self.mounting_points.len() - i,
        {
            if self.mounting_points[i].same_place(&mounting_point) {
                assert(same_place(self@[i as int], mounting_point@));
                return true;
            }
            i = i + 1;
        }
        false
    }

    /// Reads the text of a mount table: one entry for each line that is not
    /// blank. A line with one to three fields cannot be read and fails the
    /// whole table.
    pub fn get_mounting_points(text: &str) -> (r: Result<Vec<MountingPoint>, Error>)
        ensures
            r is Ok <==> table_is_readable(text@),
            r is Ok ==> r->Ok_0.deep_view() == table_entries(text@),
            r is Err ==> r->Err_0@ == (ErrorView {
                kind: ErrorKindView::Custom,
                msg: unreadable_table_message(),
            }),
    {
        let lines: Vec<String> = split(text, Separator::Newline);
        let mut results: Vec<MountingPoint> = Vec::new();
        let mut i: usize = 0;
        assert(lines.deep_view().take(0) =~= Seq::empty());
        assert(results.deep_view() =~= Seq::empty());
        while i < lines.len()
            invariant
                0 <= i <= lines.len(),
                lines.deep_view() == tokens(text@, Separator::Newline),
                forall|k: int| 0 <= k < i ==> line_is_readable(#[trigger] lines.deep_view()[k]),
                results.deep_view() == entries_of(lines.deep_view().take(i as int)),
            decreases lines.len() - i,
        {
            let parts: Vec<String> = split(lines[i].as_str(), Separator::Whitespace);
            let ghost line = lines.deep_view()[i as int];
            let ghost before = results.deep_view();
            assert(parts.deep_view() == fields_of(line));
            assert(lines.deep_view().take(i + 1).drop_last() =~= lines.deep_view().take(i as int));
            assert(lines.deep_view().take(i + 1).last() == line);
            if parts.len() >= 4 {
                let fstype: FsType = match FsType::from_str(parts[2].as_str()) {
                    Ok(t) => t,
                    Err(e) => {
                        return Err(e);
                    },
                };
                let entry = MountingPoint {
                    what: Some(parts[0].clone()),
                    path: parts[1].clone(),
                    fstype: Some(fstype),
                    options: Some(parts[3].clone()),
                    flags: None,
                    fatal: None,
                    in_userns: None,
                    use_netns: None,
                };
                assert(entry@ == entry_of(fields_of(line)));
                results.push(entry);
                assert(results.deep_view() =~= before.push(entry_of(fields_of(line))));
            } else if parts.len() > 0 {
                assert(!line_is_readable(lines.deep_view()[i as int]));
                return Err(Error::new("Could not read the mount table"));
            }
            i = i + 1;
        }
        assert(lines.deep_view().take(i as int) =~= lines.deep_view());
        Ok(results)
    }
}

/// The arguments of one call of the mount system call.
#[derive(Debug, PartialEq)]
pub struct MountCall {
    pub source: Option<String>,
    pub target: String,
    pub fstype: Option<String>,
    pub flags: u64,
    pub data: Option<String>,
}

/// Mathematical model of a [`MountCall`].
pub struct MountCallView {
    pub source: Option<Seq<char>>,
    pub target: Seq<char>,
    pub fstype: Option<Seq<char>>,
    pub flags: u64,
    pub data: Option<Seq<char>>,
}

impl View for MountCall {
    type V = MountCallView;

    open spec fn view(&self) -> MountCallView {
        MountCallView {
            source: self.source.deep_view(),
            target: self.target@,
            fstype: self.fstype.deep_view(),
            flags: self.flags,
            data: self.data.deep_view(),
        }
    }
}

/// The call that establishes a mount: the filesystem type goes by its name,
/// and a mount without flags is mounted read-only.
pub open spec fn mount_call(m: MountingPointView) -> MountCallView {
    MountCallView {
        source: m.what,
        target: m.path,
        fstype: match m.fstype {
            Some(t) => Some(fstype_name(t)),
            None => None,
        },
        flags: match m.flags {
            Some(flags) => flags,
            None => MS_RDONLY,
        },
        data: m.options,
    }
}

/// The arguments of the mount system call that establishes `mounting_point`.
pub fn mount(mounting_point: &MountingPoint) -> (call: MountCall)
    ensures
        call@ == mount_call(mounting_point@),
{
    let fstype: Option<String> = match &mounting_point.fstype {
        Some(fs) => Some(fs.to_string()),
        None => None,
    };
    let flags: u64 = match mounting_point.flags {
        Some(flags) => flags,
        None => MS_RDONLY,
    };
    MountCall {
        source: clone_text(&mounting_point.what),
        target: mounting_point.path.clone(),
        fstype,
        flags,
        data: clone_text(&mounting_point.options),
    }
}

/// The error of a mount that the system refused with the error number
/// `code`: it names the place and wraps the text of the error number.
pub fn mount_error(mounting_point: &MountingPoint, code: i32) -> (e: Error)
    ensures
        e@ == (ErrorView {
            kind: ErrorKindView::Other(errno_display(code as int)),
            msg: "Could not mount "@ + mounting_point@.path,
        }),
{
    let msg: String = String::from_str("Could not mount ").concat(mounting_point.path.as_str());
    let cause: String = errno_text(code);
    Error::new_error(msg.as_str(), cause.as_str())
}

} // verus!
