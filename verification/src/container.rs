//! The container engine: the life of a container as a state machine, from
//! the overlay on the host to the task loop of the process with PID 1.
//!
//! The engine decides; it performs nothing. Whoever drives it performs the
//! action that the engine hands out and reports what came of it as the next
//! event.

use vstd::prelude::*;
use vstd::string::StrSliceExecFns;
use vstd::string::StringExecFns;
use crate::dependency::Dependency;
use crate::dependency::DependencyView;
use crate::error::Error;
use crate::error::ErrorView;
use crate::error::ErrorKindView;
use crate::error::custom;
use crate::error::errno_display;
use crate::filesystem::Filesystem;
use crate::filesystem::FilesystemView;
use crate::filesystem::FsAction;
use crate::filesystem::FsActionView;
use crate::filesystem::inner_plan;
use crate::mount::MTab;
use crate::mount::MountingPointView;
use crate::mount::lists;
use crate::path::join;
use crate::teardown::Teardown;
use crate::teardown::TeardownState;
use crate::teardown::TeardownView;
use crate::protocol::decoding;
use crate::protocol::encoding;
use crate::path::joined;

verus! {

/// A new mount namespace.
pub const CLONE_NEWNS: i32 = 0x0002_0000;

/// A new control-group namespace.
pub const CLONE_NEWCGROUP: i32 = 0x0200_0000;

/// A new host-name namespace.
pub const CLONE_NEWUTS: i32 = 0x0400_0000;

/// A new namespace for inter-process communication.
pub const CLONE_NEWIPC: i32 = 0x0800_0000;

/// A new user namespace. A container does not ask for one.
pub const CLONE_NEWUSER: i32 = 0x1000_0000;

/// A new process-id namespace.
pub const CLONE_NEWPID: i32 = 0x2000_0000;

/// A new network namespace.
pub const CLONE_NEWNET: i32 = 0x4000_0000;

/// The namespaces that a container leaves the host's for, in one call.
pub const NAMESPACES: i32 = 0x6e02_0000;

/// Where the running program is copied to, below the container's root.
pub const EXECUTABLE_PATH: &'static str = "usr/bin/devenv";

/// The working directory of a container whose user has no home directory.
pub const DEFAULT_CWD: &'static str = "/";

/// The process id that the container's first process must have.
pub const INIT_PID: i32 = 1;

/// A task for the process with PID 1 inside the container.
#[derive(Debug, PartialEq)]
pub enum ContainerTask {
    /// Run a command. With `reuse_pid` the command is found on the search
    /// path and takes the place of PID 1, as an init does.
    Command { name: String, params: Vec<String>, reuse_pid: bool },
    /// Install the dependencies, as far as that goes.
    ResolveDependencies(Vec<Dependency>),
    /// Leave the task loop.
    Exit,
}

/// Mathematical model of a [`ContainerTask`].
pub enum ContainerTaskView {
    Command { name: Seq<char>, params: Seq<Seq<char>>, reuse_pid: bool },
    ResolveDependencies(Seq<DependencyView>),
    Exit,
}

impl View for ContainerTask {
    type V = ContainerTaskView;

    open spec fn view(&self) -> ContainerTaskView {
        match self {
            ContainerTask::Command { name, params, reuse_pid } => ContainerTaskView::Command {
                name: name@,
                params: params.deep_view(),
                reuse_pid: *reuse_pid,
            },
            ContainerTask::ResolveDependencies(list) => ContainerTaskView::ResolveDependencies(
                list.deep_view(),
            ),
            ContainerTask::Exit => ContainerTaskView::Exit,
        }
    }
}

impl DeepView for ContainerTask {
    type V = ContainerTaskView;

    open spec fn deep_view(&self) -> ContainerTaskView {
        self@
    }
}

/// Where a container is in its life.
#[derive(Debug, Clone, Copy, PartialEq, Eq, Structural)]
pub enum ContainerState {
    /// Nothing has happened yet.
    Unborn,
    /// The overlay is being established.
    Composing,
    /// The overlay is mounted; the running program is being copied in.
    Mounted,
    /// The program is copied; the namespaces are being left.
    Copied,
    /// The process is in its new namespaces; it is forking.
    NamespaceEntered,
    /// In the parent: the child is recorded and can be waited for.
    Waiting,
    /// In the child: it asks for its process id.
    Forked,
    /// In the child: it has PID 1 and is changing its root.
    PidChecked,
    /// In the child: the root is changed; it asks for the home directory.
    Chrooted,
    /// In the child: it is changing its working directory.
    HomeFound,
    /// In the child: the mounts inside the container are being made.
    InnerMounting,
    /// In the child: the inner mounts are made; it takes tasks.
    Dispatching,
    /// In the child: the task loop is left.
    Exiting,
    /// A step failed; the container goes no further.
    Failed,
}

/// What came of the action that the engine handed out last.
#[derive(Debug)]
pub enum ContainerEvent {
    /// The container is to be created; this is the mount registry, read now.
    Create(MTab),
    /// The action was performed.
    Done,
    /// The action failed with this error.
    Failed(Error),
    /// The fork returned in the parent, with the child's process id.
    ForkedParent(i32),
    /// The fork returned in the child.
    ForkedChild,
    /// The process has this process id.
    Pid(i32),
    /// The user's home directory, if one was found.
    Home(Option<String>),
    /// A task arrived on the control channel.
    Task(ContainerTask),
}

/// Mathematical model of a [`ContainerEvent`].
pub enum ContainerEventView {
    Create(Seq<MountingPointView>),
    Done,
    Failed(ErrorView),
    ForkedParent(i32),
    ForkedChild,
    Pid(i32),
    Home(Option<Seq<char>>),
    Task(ContainerTaskView),
}

impl View for ContainerEvent {
    type V = ContainerEventView;

    open spec fn view(&self) -> ContainerEventView {
        match self {
            ContainerEvent::Create(table) => ContainerEventView::Create(table@),
            ContainerEvent::Done => ContainerEventView::Done,
            ContainerEvent::Failed(e) => ContainerEventView::Failed(e@),
            ContainerEvent::ForkedParent(pid) => ContainerEventView::ForkedParent(*pid),
            ContainerEvent::ForkedChild => ContainerEventView::ForkedChild,
            ContainerEvent::Pid(pid) => ContainerEventView::Pid(*pid),
            ContainerEvent::Home(home) => ContainerEventView::Home(home.deep_view()),
            ContainerEvent::Task(task) => ContainerEventView::Task(task@),
        }
    }
}

/// What the driver is to do next.
#[derive(Debug, PartialEq)]
pub enum ContainerAction {
    /// Perform these filesystem actions, in order, up to the first failure.
    Filesystem(Vec<FsAction>),
    /// Copy the running program to this path.
    CopyExecutable(String),
    /// Leave the host's namespaces of these kinds, in one call.
    Unshare(i32),
    /// Fork.
    Fork,
    /// Report the process id.
    QueryPid,
    /// Change the root directory to this path.
    Chroot(String),
    /// Report the user's home directory.
    FindHome,
    /// Change the working directory to this path.
    SetCwd(String),
    /// Wait for the next task on the control channel.
    Receive,
    /// Run this command in place of the process.
    Execute { name: String, params: Vec<String>, reuse_pid: bool },
    /// Install these dependencies; failures are logged and passed over.
    Resolve(Vec<Dependency>),
    /// End the process with this status.
    Exit(i32),
    /// The creation is complete: return to the caller.
    Return,
    /// Give up with this error.
    Fail(Error),
}

/// Mathematical model of a [`ContainerAction`].
pub enum ContainerActionView {
    Filesystem(Seq<FsActionView>),
    CopyExecutable(Seq<char>),
    Unshare(i32),
    Fork,
    QueryPid,
    Chroot(Seq<char>),
    FindHome,
    SetCwd(Seq<char>),
    Receive,
    Execute { name: Seq<char>, params: Seq<Seq<char>>, reuse_pid: bool },
    Resolve(Seq<DependencyView>),
    Exit(i32),
    Return,
    Fail(ErrorView),
}

impl View for ContainerAction {
    type V = ContainerActionView;

    open spec fn view(&self) -> ContainerActionView {
        match self {
            ContainerAction::Filesystem(plan) => ContainerActionView::Filesystem(plan.deep_view()),
            ContainerAction::CopyExecutable(to) => ContainerActionView::CopyExecutable(to@),
            ContainerAction::Unshare(flags) => ContainerActionView::Unshare(*flags),
            ContainerAction::Fork => ContainerActionView::Fork,
            ContainerAction::QueryPid => ContainerActionView::QueryPid,
            ContainerAction::Chroot(root) => ContainerActionView::Chroot(root@),
            ContainerAction::FindHome => ContainerActionView::FindHome,
            ContainerAction::SetCwd(dir) => ContainerActionView::SetCwd(dir@),
            ContainerAction::Receive => ContainerActionView::Receive,
            ContainerAction::Execute { name, params, reuse_pid } => ContainerActionView::Execute {
                name: name@,
                params: params.deep_view(),
                reuse_pid: *reuse_pid,
            },
            ContainerAction::Resolve(list) => ContainerActionView::Resolve(list.deep_view()),
            ContainerAction::Exit(status) => ContainerActionView::Exit(*status),
            ContainerAction::Return => ContainerActionView::Return,
            ContainerAction::Fail(e) => ContainerActionView::Fail(e@),
        }
    }
}

/// A container: its filesystem, where it is in its life and, in the parent,
/// the process id of its first process.
#[derive(Debug, PartialEq)]
pub struct Container {
    child_pid: Option<i32>,
    fs: Filesystem,
    state: ContainerState,
}

/// Mathematical model of a [`Container`].
pub struct ContainerView {
    pub child_pid: Option<i32>,
    pub fs: FilesystemView,
    pub state: ContainerState,
}

impl View for Container {
    type V = ContainerView;

    closed spec fn view(&self) -> ContainerView {
        ContainerView { child_pid: self.child_pid, fs: self.fs@, state: self.state }
    }
}

impl ContainerView {
    /// This container in another state.
    pub open spec fn at(self, state: ContainerState) -> ContainerView {
        ContainerView { state, ..self }
    }

    /// The container after an event, and the action that the event calls
    /// for.
    pub open spec fn next(self, event: ContainerEventView) -> (ContainerView, ContainerActionView) {
        match (self.state, event) {
            (ContainerState::Unborn, ContainerEventView::Create(table)) => (
                self.at(ContainerState::Composing),
                ContainerActionView::Filesystem(
                    self.fs.mount_plan(lists(table, self.fs.overlay_query())),
                ),
            ),
            (_, ContainerEventView::Create(_)) => (
                self,
                ContainerActionView::Fail(custom("The container was already created"@)),
            ),
            (ContainerState::Composing, ContainerEventView::Done) => (
                self.at(ContainerState::Mounted),
                ContainerActionView::CopyExecutable(joined(self.fs.merge(), EXECUTABLE_PATH@)),
            ),
            (ContainerState::Mounted, ContainerEventView::Done) => (
                self.at(ContainerState::Copied),
                ContainerActionView::Unshare(NAMESPACES),
            ),
            (ContainerState::Copied, ContainerEventView::Done) => (
                self.at(ContainerState::NamespaceEntered),
                ContainerActionView::Fork,
            ),
            (ContainerState::NamespaceEntered, ContainerEventView::ForkedParent(pid)) => (
                ContainerView { child_pid: Some(pid), state: ContainerState::Waiting, ..self },
                ContainerActionView::Return,
            ),
            (ContainerState::NamespaceEntered, ContainerEventView::ForkedChild) => (
                self.at(ContainerState::Forked),
                ContainerActionView::QueryPid,
            ),
            (state, ContainerEventView::Pid(pid)) => if pid != INIT_PID {
                (
                    if state == ContainerState::Forked {
                        self.at(ContainerState::Failed)
                    } else {
                        self
                    },
                    ContainerActionView::Fail(custom("Container is not running with PID 1"@)),
                )
            } else if state == ContainerState::Forked {
                (self.at(ContainerState::PidChecked), ContainerActionView::Chroot(self.fs.merge()))
            } else {
                (self, ContainerActionView::Fail(custom("Unexpected event"@)))
            },
            (ContainerState::PidChecked, ContainerEventView::Done) => (
                self.at(ContainerState::Chrooted),
                ContainerActionView::FindHome,
            ),
            (ContainerState::Chrooted, ContainerEventView::Home(home)) => (
                self.at(ContainerState::HomeFound),
                ContainerActionView::SetCwd(
                    match home {
                        Some(dir) => dir,
                        None => DEFAULT_CWD@,
                    },
                ),
            ),
            (ContainerState::HomeFound, ContainerEventView::Done) => (
                self.at(ContainerState::InnerMounting),
                ContainerActionView::Filesystem(inner_plan()),
            ),
            (ContainerState::HomeFound, ContainerEventView::Failed(_)) => (
                self.at(ContainerState::Failed),
                ContainerActionView::Fail(custom("Could not set working directory"@)),
            ),
            (ContainerState::InnerMounting, ContainerEventView::Done) => (
                self.at(ContainerState::Dispatching),
                ContainerActionView::Receive,
            ),
            (ContainerState::Dispatching, ContainerEventView::Task(task)) => match task {
                ContainerTaskView::Command { name, params, reuse_pid } => (
                    self,
                    ContainerActionView::Execute { name, params, reuse_pid },
                ),
                ContainerTaskView::ResolveDependencies(list) => (
                    self,
                    ContainerActionView::Resolve(list),
                ),
                ContainerTaskView::Exit => (
                    self.at(ContainerState::Exiting),
                    ContainerActionView::Exit(0),
                ),
            },
            (ContainerState::Dispatching, ContainerEventView::Done) => (
                self,
                ContainerActionView::Receive,
            ),
            (ContainerState::Dispatching, ContainerEventView::Failed(_)) => (
                self,
                ContainerActionView::Receive,
            ),
            (state, ContainerEventView::Failed(e)) => if in_setup(state) {
                (self.at(ContainerState::Failed), ContainerActionView::Fail(e))
            } else {
                (self, ContainerActionView::Fail(custom("Unexpected event"@)))
            },
            _ => (self, ContainerActionView::Fail(custom("Unexpected event"@))),
        }
    }
}

/// Whether a container in this state is waiting for a step of its setup to
/// be performed.
pub open spec fn in_setup(state: ContainerState) -> bool {
    ||| state == ContainerState::Composing
    ||| state == ContainerState::Mounted
    ||| state == ContainerState::Copied
    ||| state == ContainerState::NamespaceEntered
    ||| state == ContainerState::Forked
    ||| state == ContainerState::PidChecked
    ||| state == ContainerState::Chrooted
    ||| state == ContainerState::HomeFound
    ||| state == ContainerState::InnerMounting
}

/// The container that an event leaves.
#[verifier::opaque]
pub open spec fn moved(c: ContainerView, event: ContainerEventView) -> ContainerView {
    c.next(event).0
}

/// The container after a sequence of events, each taken in by the container
/// that the events before it left.
pub open spec fn after(c: ContainerView, events: Seq<ContainerEventView>) -> ContainerView
    decreases events.len(),
{
    if events.len() == 0 {
        c
    } else {
        moved(after(c, events.drop_last()), events.last())
    }
}

/// Whether a container in this state has found itself to be the process
/// with PID 1.
pub open spec fn pid_checked(state: ContainerState) -> bool {
    ||| state == ContainerState::PidChecked
    ||| state == ContainerState::Chrooted
    ||| state == ContainerState::HomeFound
    ||| state == ContainerState::InnerMounting
    ||| state == ContainerState::Dispatching
    ||| state == ContainerState::Exiting
}

/// One event takes a container past the check of its process id only from
/// the state after the fork, and only if it is the report of PID 1.
pub proof fn lemma_pid_check_is_one_step(c: ContainerView, event: ContainerEventView)
    requires
        !pid_checked(c.state),
        pid_checked(moved(c, event).state),
    ensures
        c.state == ContainerState::Forked,
        event == ContainerEventView::Pid(INIT_PID),
{
    reveal(moved);
    match event {
        ContainerEventView::Create(_) => {},
        ContainerEventView::Done => {},
        ContainerEventView::Failed(_) => {},
        ContainerEventView::ForkedParent(_) => {},
        ContainerEventView::ForkedChild => {},
        ContainerEventView::Pid(_) => {},
        ContainerEventView::Home(_) => {},
        ContainerEventView::Task(_) => {},
    }
}

/// A process id other than 1 fails the container in every state, with the
/// same error, and takes no container past the check of its process id.
pub proof fn lemma_other_pid_fails_everywhere(c: ContainerView, pid: i32)
    requires
        pid != INIT_PID,
    ensures
        c.next(ContainerEventView::Pid(pid)).1 == ContainerActionView::Fail(
            custom("Container is not running with PID 1"@),
        ),
        c.next(ContainerEventView::Pid(pid)).0.state == c.state || c.next(
            ContainerEventView::Pid(pid),
        ).0.state == ContainerState::Failed,
{
}

/// A container gets past the check of its process id only by the report
/// that the process id is 1, made to it after the fork.
pub proof fn lemma_pid_one_comes_first(c: ContainerView, events: Seq<ContainerEventView>)
    requires
        !pid_checked(c.state),
        pid_checked(after(c, events).state),
    ensures
        exists|i: int|
            0 <= i < events.len() && #[trigger] events[i] == ContainerEventView::Pid(INIT_PID)
                && after(c, events.take(i)).state == ContainerState::Forked,
    decreases events.len(),
{
    if events.len() > 0 {
        let front = events.drop_last();
        let before = after(c, front);
        if pid_checked(before.state) {
            lemma_pid_one_comes_first(c, front);
            let i = choose|i: int|
                0 <= i < front.len() && #[trigger] front[i] == ContainerEventView::Pid(INIT_PID)
                    && after(c, front.take(i)).state == ContainerState::Forked;
            assert(events.take(i) =~= front.take(i));
            assert(events[i] == front[i]);
        } else {
            lemma_pid_check_is_one_step(before, events.last());
            let i = events.len() - 1;
            assert(events.take(i) =~= front);
            assert(events[i] == events.last());
        }
    }
}

/// The task loop is entered only with PID 1: a container that takes tasks
/// was told, after the fork, that its process id is 1.
pub proof fn lemma_dispatch_only_as_pid_one(c: ContainerView, events: Seq<ContainerEventView>)
    requires
        c.state == ContainerState::Unborn,
        after(c, events).state == ContainerState::Dispatching,
    ensures
        exists|i: int|
            0 <= i < events.len() && #[trigger] events[i] == ContainerEventView::Pid(INIT_PID)
                && after(c, events.take(i)).state == ContainerState::Forked,
{
    lemma_pid_one_comes_first(c, events);
}

/// A container waits for a task only while it takes tasks: the action to
/// receive is handed out only to a container that is then dispatching.
pub proof fn lemma_receive_only_when_dispatching(c: ContainerView, event: ContainerEventView)
    requires
        c.next(event).1 is Receive,
    ensures
        c.next(event).0.state == ContainerState::Dispatching,
        c.state == ContainerState::Dispatching || c.state == ContainerState::InnerMounting,
{
}

/// A container leaves the host's mount, process-id, host-name, network,
/// control-group and communication namespaces, and keeps the host's user
/// namespace.
pub proof fn lemma_namespaces()
    ensures
        NAMESPACES == CLONE_NEWNS | CLONE_NEWPID | CLONE_NEWUTS | CLONE_NEWNET | CLONE_NEWCGROUP
            | CLONE_NEWIPC,
        NAMESPACES & CLONE_NEWUSER == 0,
{
    assert(0x6e02_0000i32 == 0x0002_0000i32 | 0x2000_0000i32 | 0x0400_0000i32 | 0x4000_0000i32
        | 0x0200_0000i32 | 0x0800_0000i32) by (bit_vector);
    assert(0x6e02_0000i32 & 0x1000_0000i32 == 0) by (bit_vector);
}

/// The programs that can take the place of PID 1 as the container's init,
/// in the order in which they are tried.
pub open spec fn init_targets() -> Seq<Seq<char>> {
    seq!["/usr/lib/systemd/systemd"@, "/lib/systemd/systemd"@, "/sbin/init"@]
}

/// The task that starts `target` as the container's init.
pub open spec fn init_task(target: Seq<char>) -> ContainerTaskView {
    ContainerTaskView::Command { name: target, params: seq![target], reuse_pid: true }
}

/// The tasks that boot a container: one for each init, in order.
pub open spec fn boot_tasks() -> Seq<ContainerTaskView> {
    init_targets().map_values(|target: Seq<char>| init_task(target))
}

/// The arguments of the call that runs a command in place of the process.
#[derive(Debug, PartialEq)]
pub struct ExecCall {
    /// Whether the program is looked for on the search path.
    pub search_path: bool,
    /// The program.
    pub filename: String,
    /// The arguments, the program's own name first.
    pub args: Vec<String>,
}

/// Mathematical model of an [`ExecCall`].
pub struct ExecCallView {
    pub search_path: bool,
    pub filename: Seq<char>,
    pub args: Seq<Seq<char>>,
}

impl View for ExecCall {
    type V = ExecCallView;

    open spec fn view(&self) -> ExecCallView {
        ExecCallView {
            search_path: self.search_path,
            filename: self.filename@,
            args: self.args.deep_view(),
        }
    }
}

/// The program that a command's name stands for: the value of the
/// environment variable of that name, where there is one, else the name.
pub open spec fn resolved_name(name: Seq<char>, value: Option<Seq<char>>) -> Seq<char> {
    match value {
        Some(v) => v,
        None => name,
    }
}

/// Whether a text can be handed to the system as one argument: it holds no
/// NUL character.
pub open spec fn is_argument(text: Seq<char>) -> bool {
    !text.contains('\0')
}

/// Whether a command can be handed to the system.
pub open spec fn is_runnable(filename: Seq<char>, args: Seq<Seq<char>>) -> bool {
    is_argument(filename) && forall|i: int| 0 <= i < args.len() ==> is_argument(#[trigger] args[i])
}

/// The model of the result of [`Container::execute_command`].
pub open spec fn exec_result(r: Result<ExecCall, Error>) -> Result<ExecCallView, ErrorView> {
    match r {
        Ok(call) => Ok(call@),
        Err(e) => Err(e@),
    }
}

/// The call for a command, or the error for one that cannot be handed to
/// the system.
pub open spec fn exec_call(
    filename: Seq<char>,
    args: Seq<Seq<char>>,
    same_pid: bool,
    value: Option<Seq<char>>,
) -> Result<ExecCallView, ErrorView> {
    let resolved = resolved_name(filename, value);
    if is_runnable(resolved, args) {
        Ok(ExecCallView { search_path: same_pid, filename: resolved, args })
    } else {
        Err(custom("Command holds a NUL character"@))
    }
}

/// How the container's first process ended.
#[derive(Debug, Clone, Copy, PartialEq, Eq, Structural)]
pub enum ChildStatus {
    /// It exited with this status.
    Exited(i32),
    /// It was killed by the signal with this number.
    Signaled(i32),
    /// It did not end.
    Other,
}

/// The model of the result of waiting.
pub open spec fn status_result(r: Result<ChildStatus, Error>) -> Result<ChildStatus, ErrorView> {
    match r {
        Ok(status) => Ok(status),
        Err(e) => Err(e@),
    }
}

/// What waiting for a process comes to, given how the wait went: the status
/// of the process, or the error of the system for a wait that failed with an
/// error number.
pub open spec fn wait_result(waited: Result<ChildStatus, i32>) -> Result<ChildStatus, ErrorView> {
    match waited {
        Ok(status) => Ok(status),
        Err(code) => Err(
            ErrorView {
                kind: ErrorKindView::UnixError(code as int),
                msg: errno_display(code as int),
            },
        ),
    }
}

fn has_nul(text: &str) -> (r: bool)
    ensures
        r == !is_argument(text@),
{
    let n: usize = text.unicode_len();
    let mut i: usize = 0;
    while i < n
        invariant
            n == text@.len(),
            0 <= i <= n,
            forall|k: int| 0 <= k < i ==> text@[k] != '\0',
        decreases n - i,
    {
        if text.get_char(i) == '\0' {
            assert(text@.contains('\0'));
            return true;
        }
        i = i + 1;
    }
    false
}

impl Container {
    /// A container on the given filesystem, with nothing done yet.
    pub fn new(fs: Filesystem) -> (c: Container)
        ensures
            c@ == (ContainerView { child_pid: None, fs: fs@, state: ContainerState::Unborn }),
    {
        Container { child_pid: None, fs, state: ContainerState::Unborn }
    }

    /// Where the container is in its life.
    pub fn state(&self) -> (s: ContainerState)
        ensures
            s == self@.state,
    {
        self.state
    }

    /// The filesystem of the container.
    pub fn filesystem(&self) -> (fs: &Filesystem)
        ensures
            fs@ == self@.fs,
    {
        &self.fs
    }

    /// Takes in what came of the last action and hands out the next one.
    pub fn step(&mut self, event: ContainerEvent) -> (action: ContainerAction)
        ensures
            (final(self)@, action@) == old(self)@.next(event@),
    {
        let state: ContainerState = self.state;
        match event {
            ContainerEvent::Create(table) => {
                if state == ContainerState::Unborn {
                    self.state = ContainerState::Composing;
                    ContainerAction::Filesystem(self.fs.mount(&table))
                } else {
                    ContainerAction::Fail(Error::new("The container was already created"))
                }
            },
            ContainerEvent::Done => {
                if state == ContainerState::Composing {
                    self.state = ContainerState::Mounted;
                    let root: String = self.fs.root_path();
                    ContainerAction::CopyExecutable(join(root.as_str(), EXECUTABLE_PATH))
                } else if state == ContainerState::Mounted {
                    self.state = ContainerState::Copied;
                    ContainerAction::Unshare(NAMESPACES)
                } else if state == ContainerState::Copied {
                    self.state = ContainerState::NamespaceEntered;
                    ContainerAction::Fork
                } else if state == ContainerState::PidChecked {
                    self.state = ContainerState::Chrooted;
                    ContainerAction::FindHome
                } else if state == ContainerState::HomeFound {
                    self.state = ContainerState::InnerMounting;
                    ContainerAction::Filesystem(self.fs.inner_mount())
                } else if state == ContainerState::InnerMounting {
                    self.state = ContainerState::Dispatching;
                    ContainerAction::Receive
                } else if state == ContainerState::Dispatching {
                    ContainerAction::Receive
                } else {
                    ContainerAction::Fail(Error::new("Unexpected event"))
                }
            },
            ContainerEvent::Failed(e) => {
                if state == ContainerState::HomeFound {
                    self.state = ContainerState::Failed;
                    ContainerAction::Fail(Error::new("Could not set working directory"))
                } else if state == ContainerState::Dispatching {
                    ContainerAction::Receive
                } else if state == ContainerState::Composing || state == ContainerState::Mounted
                    || state == ContainerState::Copied || state == ContainerState::NamespaceEntered
                    || state == ContainerState::Forked || state == ContainerState::PidChecked
                    || state == ContainerState::Chrooted || state == ContainerState::InnerMounting {
                    self.state = ContainerState::Failed;
                    ContainerAction::Fail(e)
                } else {
                    ContainerAction::Fail(Error::new("Unexpected event"))
                }
            },
            ContainerEvent::ForkedParent(pid) => {
                if state == ContainerState::NamespaceEntered {
                    self.child_pid = Some(pid);
                    self.state = ContainerState::Waiting;
                    ContainerAction::Return
                } else {
                    ContainerAction::Fail(Error::new("Unexpected event"))
                }
            },
            ContainerEvent::ForkedChild => {
                if state == ContainerState::NamespaceEntered {
                    self.state = ContainerState::Forked;
                    ContainerAction::QueryPid
                } else {
                    ContainerAction::Fail(Error::new("Unexpected event"))
                }
            },
            ContainerEvent::Pid(pid) => {
                if pid != INIT_PID {
                    if state == ContainerState::Forked {
                        self.state = ContainerState::Failed;
                    }
                    ContainerAction::Fail(Error::new("Container is not running with PID 1"))
                } else if state == ContainerState::Forked {
                    self.state = ContainerState::PidChecked;
                    ContainerAction::Chroot(self.fs.root_path())
                } else {
                    ContainerAction::Fail(Error::new("Unexpected event"))
                }
            },
            ContainerEvent::Home(home) => {
                if state == ContainerState::Chrooted {
                    self.state = ContainerState::HomeFound;
                    let dir: String = match home {
                        Some(dir) => dir,
                        None => String::from_str(DEFAULT_CWD),
                    };
                    ContainerAction::SetCwd(dir)
                } else {
                    ContainerAction::Fail(Error::new("Unexpected event"))
                }
            },
            ContainerEvent::Task(task) => {
                if state == ContainerState::Dispatching {
                    match task {
                        ContainerTask::Command { name, params, reuse_pid } => {
                            ContainerAction::Execute { name, params, reuse_pid }
                        },
                        ContainerTask::ResolveDependencies(list) => ContainerAction::Resolve(list),
                        ContainerTask::Exit => {
                            self.state = ContainerState::Exiting;
                            ContainerAction::Exit(0)
                        },
                    }
                } else {
                    ContainerAction::Fail(Error::new("Unexpected event"))
                }
            },
        }
    }

    /// Starts the creation of the container on the host: with the mount
    /// registry as it is now, the first action is to establish the overlay.
    /// A container that was created before refuses.
    pub fn create(&mut self, mtab: MTab) -> (action: ContainerAction)
        ensures
            (final(self)@, action@) == old(self)@.next(ContainerEventView::Create(mtab@)),
    {
        self.step(ContainerEvent::Create(mtab))
    }

    /// Starts the container's first process. The process id is looked at
    /// first: with any other than 1 the container fails, whatever state it
    /// is in, and nothing is to be done. With PID 1, in the child after the
    /// fork, it goes on to change its root.
    pub fn container_process(&mut self, pid: i32) -> (action: ContainerAction)
        ensures
            (final(self)@, action@) == old(self)@.next(ContainerEventView::Pid(pid)),
    {
        self.step(ContainerEvent::Pid(pid))
    }

    /// Takes a task from the control channel: what is to be done for it.
    pub fn run_task(&mut self, task: ContainerTask) -> (action: ContainerAction)
        ensures
            (final(self)@, action@) == old(self)@.next(ContainerEventView::Task(task@)),
    {
        self.step(ContainerEvent::Task(task))
    }

    /// The call that runs a command in place of the process. The program is
    /// the value of the environment variable named like the command, where
    /// `value` holds one, else the command's name; with `same_pid` it is
    /// looked for on the search path. A program or an argument with a NUL
    /// character is an error.
    pub fn execute_command(
        filename: String,
        args: Vec<String>,
        same_pid: bool,
        value: Option<String>,
    ) -> (r: Result<ExecCall, Error>)
        ensures
            exec_result(r) == exec_call(filename@, args.deep_view(), same_pid, value.deep_view()),
    {
        let resolved: String = match value {
            Some(v) => v,
            None => filename,
        };
        if has_nul(resolved.as_str()) {
            return Err(Error::new("Command holds a NUL character"));
        }
        let mut i: usize = 0;
        while i < args.len()
            invariant
                0 <= i <= args.len(),
                forall|k: int| 0 <= k < i ==> is_argument(#[trigger] args.deep_view()[k]),
            decreases args.len() - i,
        {
            if has_nul(args[i].as_str()) {
                assert(!is_argument(args.deep_view()[i as int]));
                return Err(Error::new("Command holds a NUL character"));
            }
            i = i + 1;
        }
        Ok(ExecCall { search_path: same_pid, filename: resolved, args })
    }

    /// The teardown of the container's filesystem, with nothing done yet:
    /// it unmounts the layout and removes its directories.
    pub fn destroy(&self) -> (teardown: Teardown)
        ensures
            teardown@ == (TeardownView {
                fs: self@.fs,
                state: TeardownState::Idle,
                failure: None,
            }),
    {
        Teardown::new(self.fs.clone())
    }

    /// The bytes that carry a task to the container's first process.
    /// Decoding them gives the task back.
    pub fn run_in_container(&self, task: ContainerTask) -> (frame: Vec<u8>)
        ensures
            frame@ == encoding(task@),
            decoding(frame@) == Some(task@),
    {
        task.encode()
    }

    /// The error of a task that could not be sent.
    pub fn send_failed() -> (e: Error)
        ensures
            e@ == (ErrorView { kind: ErrorKindView::IPCError, msg: "Error sending task"@ }),
    {
        Error::new_ipc("Error sending task")
    }

    /// The error of a task that could not be received.
    pub fn receive_failed() -> (e: Error)
        ensures
            e@ == (ErrorView { kind: ErrorKindView::IPCError, msg: "Error receiving task"@ }),
    {
        Error::new_ipc("Error receiving task")
    }

    /// The tasks that boot the container: each init in turn is to take the
    /// place of PID 1, found on the search path, under its own name.
    pub fn boot(&self) -> (tasks: Vec<ContainerTask>)
        ensures
            tasks.deep_view() == boot_tasks(),
    {
        let mut tasks: Vec<ContainerTask> = Vec::new();
        tasks.push(Self::init("/usr/lib/systemd/systemd"));
        tasks.push(Self::init("/lib/systemd/systemd"));
        tasks.push(Self::init("/sbin/init"));
        assert(tasks.deep_view() =~= boot_tasks());
        tasks
    }

    fn init(target: &str) -> (task: ContainerTask)
        ensures
            task@ == init_task(target@),
    {
        let mut params: Vec<String> = Vec::new();
        params.push(target.to_owned());
        assert(params.deep_view() =~= seq![target@]);
        ContainerTask::Command { name: target.to_owned(), params, reuse_pid: true }
    }

    /// The process to wait for: the container's first process, once the
    /// container is created.
    pub fn child_pid(&self) -> (pid: Option<i32>)
        ensures
            pid == self@.child_pid,
    {
        self.child_pid
    }

    /// What waiting for the container's first process comes to, given how
    /// the wait on [`Container::child_pid`] went: the status that the
    /// process ended with, or, for a wait that failed with an error number,
    /// an error of the system.
    pub fn wait_for_container(&self, waited: Result<ChildStatus, i32>) -> (r: Result<
        ChildStatus,
        Error,
    >)
        ensures
            status_result(r) == wait_result(waited),
    {
        match waited {
            Ok(status) => Ok(status),
            Err(code) => Err(Error::from_errno(code)),
        }
    }

    /// The container's root directory.
    pub fn root(&self) -> (p: String)
        ensures
            p@ == self@.fs.merge(),
    {
        self.fs.root_path()
    }

    /// The directory that holds the container's layout.
    pub fn location(&self) -> (p: Option<&str>)
        ensures
            p matches Some(dir) && dir@ == self@.fs.target,
    {
        Some(self.fs.target_path().as_str())
    }
}

} // verus!
