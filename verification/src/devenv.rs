//! The driver: a development environment as its configuration describes it,
//! and the verbs that the command line offers on it.

use vstd::prelude::*;
use vstd::string::StringExecFns;
use crate::configuration::Configuration;
use crate::configuration::ConfigurationView;
use crate::container::ChildStatus;
use crate::container::Container;
use crate::container::ContainerAction;
use crate::container::ContainerEvent;
use crate::container::ContainerEventView;
use crate::container::ContainerState;
use crate::container::ContainerTask;
use crate::container::ContainerTaskView;
use crate::container::ContainerView;
use crate::container::resolved_name;
use crate::container::status_result;
use crate::container::wait_result;
use crate::error::Error;
use crate::dependency::Dependency;
use crate::filesystem::Filesystem;
use crate::filesystem::FilesystemView;
use crate::mount::MTab;
use crate::path::join;
use crate::path::joined;
use crate::protocol::decoding;
use crate::protocol::encoding;
use crate::teardown::Teardown;
use crate::teardown::TeardownState;
use crate::teardown::TeardownView;

verus! {

/// The image of an environment whose configuration names none.
pub const DEFAULT_IMAGE: &'static str = "/";

/// The directory, inside the current one, of an environment whose
/// configuration names none.
pub const DEFAULT_TARGET: &'static str = ".devenv";

/// The environment variable that holds the shell of an environment whose
/// configuration names none.
pub const DEFAULT_SHELL: &'static str = "SHELL";

/// A development environment: its container and, where it was made from
/// one, its configuration.
#[derive(Debug, PartialEq)]
pub struct DevEnv {
    container: Container,
    config: Option<Configuration>,
}

/// Mathematical model of a [`DevEnv`].
pub struct DevEnvView {
    pub container: ContainerView,
    pub config: Option<ConfigurationView>,
}

impl View for DevEnv {
    type V = DevEnvView;

    closed spec fn view(&self) -> DevEnvView {
        DevEnvView {
            container: self.container@,
            config: match self.config {
                Some(config) => Some(config@),
                None => None,
            },
        }
    }
}

/// The filesystem of the environment that a configuration describes, for a
/// driver in the directory `current_dir`: the image is the configured one,
/// else the root directory; the layout is at the configured place, else in
/// the current directory.
pub open spec fn configured_filesystem(
    config: ConfigurationView,
    current_dir: Seq<char>,
) -> FilesystemView {
    FilesystemView {
        image: match config.image {
            Some(path) => path,
            None => DEFAULT_IMAGE@,
        },
        target: match config.dest {
            Some(dest) => dest,
            None => joined(current_dir, DEFAULT_TARGET@),
        },
    }
}

/// A container on the given filesystem, with nothing done yet.
pub open spec fn unborn(fs: FilesystemView) -> ContainerView {
    ContainerView { child_pid: None, fs, state: ContainerState::Unborn }
}

impl DevEnvView {
    /// The name of the environment variable that holds the shell.
    pub open spec fn shell_variable(self) -> Seq<char> {
        match self.config {
            Some(config) => match config.shell {
                Some(name) => name,
                None => DEFAULT_SHELL@,
            },
            None => DEFAULT_SHELL@,
        }
    }
}

/// The task that runs a command for the user.
pub open spec fn run_task(command: Seq<char>, args: Seq<Seq<char>>) -> ContainerTaskView {
    ContainerTaskView::Command { name: command, params: args, reuse_pid: false }
}

/// The task that opens the shell held by the variable `variable`, whose
/// value in the driver's environment is `value`.
pub open spec fn shell_task(variable: Seq<char>, value: Option<Seq<char>>) -> ContainerTaskView {
    ContainerTaskView::Command {
        name: resolved_name(variable, value),
        params: Seq::empty(),
        reuse_pid: true,
    }
}

impl DevEnv {
    /// The environment without a configuration, for a driver in the
    /// directory `current_dir`: the root directory is the image, and the
    /// layout is in the current directory.
    pub fn new(current_dir: &str) -> (env: DevEnv)
        ensures
            env@ == (DevEnvView {
                container: unborn(
                    FilesystemView {
                        image: DEFAULT_IMAGE@,
                        target: joined(current_dir@, DEFAULT_TARGET@),
                    },
                ),
                config: None,
            }),
    {
        let target: String = join(current_dir, DEFAULT_TARGET);
        let fs: Filesystem = Filesystem::new(DEFAULT_IMAGE, target.as_str());
        DevEnv { container: Container::new(fs), config: None }
    }

    /// The environment that a configuration describes, for a driver in the
    /// directory `current_dir`.
    pub fn from(config: Configuration, current_dir: &str) -> (env: DevEnv)
        ensures
            env@ == (DevEnvView {
                container: unborn(configured_filesystem(config@, current_dir@)),
                config: Some(config@),
            }),
    {
        let fs: Filesystem = {
            let image: &str = match &config.image {
                Some(i) => i.path.as_str(),
                None => DEFAULT_IMAGE,
            };
            match &config.dest {
                Some(dest) => Filesystem::new(image, dest.as_str()),
                None => {
                    let target: String = join(current_dir, DEFAULT_TARGET);
                    Filesystem::new(image, target.as_str())
                },
            }
        };
        DevEnv { container: Container::new(fs), config: Some(config) }
    }

    /// The container of the environment.
    pub fn container(&self) -> (c: &Container)
        ensures
            c@ == self@.container,
    {
        &self.container
    }

    /// Takes in what came of the container's last action and hands out the
    /// next one.
    pub fn step(&mut self, event: ContainerEvent) -> (action: ContainerAction)
        ensures
            (final(self)@.container, action@) == old(self)@.container.next(event@),
            final(self)@.config == old(self)@.config,
    {
        self.container.step(event)
    }

    /// Starts the creation of the environment's container, with the mount
    /// registry as it is now.
    pub fn create(&mut self, mtab: MTab) -> (action: ContainerAction)
        ensures
            (final(self)@.container, action@) == old(self)@.container.next(
                ContainerEventView::Create(mtab@),
            ),
            final(self)@.config == old(self)@.config,
    {
        self.container.create(mtab)
    }

    /// The teardown of the environment's filesystem, with nothing done yet.
    pub fn destroy(&self) -> (teardown: Teardown)
        ensures
            teardown@ == (TeardownView {
                fs: self@.container.fs,
                state: TeardownState::Idle,
                failure: None,
            }),
    {
        self.container.destroy()
    }

    /// The directory that holds the environment's layout.
    pub fn location(&self) -> (p: Option<&str>)
        ensures
            p matches Some(dir) && dir@ == self@.container.fs.target,
    {
        self.container.location()
    }

    /// The bytes that ask the container to run a command for the user: the
    /// command does not take the place of an init.
    pub fn run(&self, command: String, args: Vec<String>) -> (frame: Vec<u8>)
        ensures
            frame@ == encoding(run_task(command@, args.deep_view())),
            decoding(frame@) == Some(run_task(command@, args.deep_view())),
    {
        self.container.run_in_container(
            ContainerTask::Command { name: command, params: args, reuse_pid: false },
        )
    }

    /// The name of the environment variable that holds the shell: the
    /// configured one, else `SHELL`.
    pub fn shell_variable(&self) -> (name: String)
        ensures
            name@ == self@.shell_variable(),
    {
        match &self.config {
            Some(config) => match &config.shell {
                Some(name) => name.clone(),
                None => String::from_str(DEFAULT_SHELL),
            },
            None => String::from_str(DEFAULT_SHELL),
        }
    }

    /// The bytes that ask the container to open a shell. The shell is the
    /// value of the shell variable in the driver's environment, given as
    /// `value`; where the variable is not set, its name stands for the
    /// shell. The shell has no arguments and takes the place of PID 1.
    pub fn open_shell(&self, value: Option<String>) -> (frame: Vec<u8>)
        ensures
            frame@ == encoding(shell_task(self@.shell_variable(), value.deep_view())),
            decoding(frame@) == Some(shell_task(self@.shell_variable(), value.deep_view())),
    {
        let shell: String = match value {
            Some(v) => v,
            None => self.shell_variable(),
        };
        let args: Vec<String> = Vec::new();
        assert(args.deep_view() =~= Seq::empty());
        self.container.run_in_container(
            ContainerTask::Command { name: shell, params: args, reuse_pid: true },
        )
    }

    /// The bytes that ask the container to resolve the configured
    /// dependencies, all in one task; nothing for an environment without a
    /// configuration.
    pub fn resolve_dependencies(&self) -> (frame: Option<Vec<u8>>)
        ensures
            match self@.config {
                Some(config) => frame is Some && frame->Some_0@ == encoding(
                    ContainerTaskView::ResolveDependencies(config.dependencies),
                ) && decoding(frame->Some_0@) == Some(
                    ContainerTaskView::ResolveDependencies(config.dependencies),
                ),
                None => frame is None,
            },
    {
        match &self.config {
            None => None,
            Some(config) => {
                let mut deps: Vec<Dependency> = Vec::new();
                let mut i: usize = 0;
                assert(deps.deep_view() =~= config.dependencies.deep_view().take(0));
                while i < config.dependencies.len()
                    invariant
                        0 <= i <= config.dependencies.len(),
                        deps.deep_view() == config.dependencies.deep_view().take(i as int),
                    decreases config.dependencies.len() - i,
                {
                    let ghost before = deps.deep_view();
                    deps.push(config.dependencies[i].clone());
                    assert(deps.deep_view() =~= before.push(
                        config.dependencies.deep_view()[i as int],
                    ));
                    i = i + 1;
                    assert(deps.deep_view() =~= config.dependencies.deep_view().take(i as int));
                }
                assert(config.dependencies.deep_view().take(i as int)
                    =~= config.dependencies.deep_view());
                Some(self.container.run_in_container(ContainerTask::ResolveDependencies(deps)))
            },
        }
    }

    /// The process to wait for: the container's first process, once the
    /// container is created.
    pub fn child_pid(&self) -> (pid: Option<i32>)
        ensures
            pid == self@.container.child_pid,
    {
        self.container.child_pid()
    }

    /// What waiting for the container's first process comes to, given how
    /// the wait on [`DevEnv::child_pid`] went: the status that the process
    /// ended with, or, for a wait that failed with an error number, an error
    /// of the system.
    pub fn wait_for_container(&self, waited: Result<ChildStatus, i32>) -> (r: Result<
        ChildStatus,
        Error,
    >)
        ensures
            status_result(r) == wait_result(waited),
    {
        self.container.wait_for_container(waited)
    }
}

} // verus!
