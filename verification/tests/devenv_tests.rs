use devenv::configuration::Configuration;
use devenv::configuration::Image;
use devenv::container::ChildStatus;
use devenv::container::ContainerAction;
use devenv::container::ContainerEvent;
use devenv::container::ContainerState;
use devenv::container::ContainerTask;
use devenv::dependency::Dependency;
use devenv::devenv::DevEnv;
use devenv::devenv::DEFAULT_IMAGE;
use devenv::devenv::DEFAULT_SHELL;
use devenv::devenv::DEFAULT_TARGET;
use devenv::filesystem::DeleteStep;
use devenv::filesystem::Filesystem;
use devenv::filesystem::FsAction;
use devenv::mount::MTab;
use devenv::options::Options;
use devenv::teardown::Teardown;
use devenv::teardown::TeardownAction;
use devenv::teardown::TeardownEvent;
use devenv::options::Run;
use devenv::options::SubCommand;

fn s(text: &str) -> String {
    text.to_string()
}

fn config(image: Option<&str>, dest: Option<&str>, shell: Option<&str>, deps: Vec<Dependency>) -> Configuration {
    Configuration {
        dest: dest.map(s),
        image: image.map(|p| Image { path: s(p) }),
        shell: shell.map(s),
        dependencies: deps,
    }
}

fn registry() -> MTab {
    MTab::new(Vec::new())
}

#[test]
fn defaults() {
    assert_eq!(DEFAULT_IMAGE, "/");
    assert_eq!(DEFAULT_TARGET, ".devenv");
    assert_eq!(DEFAULT_SHELL, "SHELL");
}

#[test]
fn environment_without_configuration_lies_in_the_current_directory() {
    let env = DevEnv::new("/home/user/project");
    assert_eq!(env.location(), Some("/home/user/project/.devenv"));
    assert_eq!(env.container().filesystem().image_path(), "/");
    assert_eq!(env.container().state(), ContainerState::Unborn);
    assert_eq!(env.shell_variable(), "SHELL");
    assert_eq!(env.resolve_dependencies(), None);
    assert_eq!(env.child_pid(), None);
}

#[test]
fn configured_environment_takes_image_and_destination() {
    let env = DevEnv::from(config(Some("/tmp/alpine"), Some("./env"), None, Vec::new()), "/home/user");
    assert_eq!(env.location(), Some("./env"));
    assert_eq!(env.container().filesystem().image_path(), "/tmp/alpine");
    assert_eq!(env.container().root(), "./env/merge");
}

#[test]
fn configured_environment_falls_back_to_the_defaults() {
    let env = DevEnv::from(config(None, None, None, Vec::new()), "/home/user/");
    assert_eq!(env.location(), Some("/home/user/.devenv"));
    assert_eq!(env.container().filesystem().image_path(), "/");
    assert_eq!(env.shell_variable(), "SHELL");
}

#[test]
fn root_image_is_backed_by_memory() {
    let mut env = DevEnv::from(config(Some("/"), Some("./env"), None, Vec::new()), "/home/user");
    let expected = Filesystem::new("/", "./env").mount(&registry());
    match env.create(registry()) {
        ContainerAction::Filesystem(plan) => {
            assert_eq!(plan, expected);
            assert!(plan.contains(&FsAction::MountTmpfs(s("./env"))));
            assert!(plan.iter().any(|a| matches!(a, FsAction::Warn(_))));
            assert!(plan.iter().any(|a| matches!(a, FsAction::MountOverlay { target, .. } if target == "./env/merge")));
        }
        other => panic!("no plan: {:?}", other),
    }
    env.step(ContainerEvent::Done);
    env.step(ContainerEvent::Done);
    env.step(ContainerEvent::Done);
    assert_eq!(env.step(ContainerEvent::ForkedChild), ContainerAction::QueryPid);
    env.step(ContainerEvent::Pid(1));
    env.step(ContainerEvent::Done);
    env.step(ContainerEvent::Home(None));
    env.step(ContainerEvent::Done);
    assert_eq!(env.step(ContainerEvent::Done), ContainerAction::Receive);
    assert_eq!(env.container().state(), ContainerState::Dispatching);
}

#[test]
fn image_elsewhere_is_not_backed_by_memory() {
    let mut env = DevEnv::from(config(Some("/tmp/alpine"), Some("./env"), None, Vec::new()), "/home/user");
    match env.create(registry()) {
        ContainerAction::Filesystem(plan) => {
            assert!(!plan.iter().any(|a| matches!(a, FsAction::MountTmpfs(_))));
            assert!(!plan.iter().any(|a| matches!(a, FsAction::Warn(_))));
            assert_eq!(
                plan.last(),
                Some(&FsAction::MountOverlay {
                    lower: s("/tmp/alpine"),
                    upper: s("./env/upper"),
                    work: s("./env/workdir"),
                    target: s("./env/merge"),
                })
            );
        }
        other => panic!("no plan: {:?}", other),
    }
}

#[test]
fn run_asks_for_a_command_that_keeps_pid_one() {
    let env = DevEnv::new("/home/user");
    let frame = env.run(s("echo"), vec![s("echo"), s("hi")]);
    assert_eq!(
        ContainerTask::decode(&frame).unwrap(),
        ContainerTask::Command { name: s("echo"), params: vec![s("echo"), s("hi")], reuse_pid: false }
    );
}

#[test]
fn shell_is_the_value_of_the_shell_variable() {
    let env = DevEnv::new("/home/user");
    let frame = env.open_shell(Some(s("/bin/bash")));
    assert_eq!(
        ContainerTask::decode(&frame).unwrap(),
        ContainerTask::Command { name: s("/bin/bash"), params: Vec::new(), reuse_pid: true }
    );
}

#[test]
fn shell_variable_stands_for_itself_when_it_is_not_set() {
    let env = DevEnv::from(config(None, None, Some("MYSHELL"), Vec::new()), "/");
    assert_eq!(env.shell_variable(), "MYSHELL");
    assert_eq!(
        ContainerTask::decode(&env.open_shell(None)).unwrap(),
        ContainerTask::Command { name: s("MYSHELL"), params: Vec::new(), reuse_pid: true }
    );
    assert_eq!(
        ContainerTask::decode(&DevEnv::new("/").open_shell(None)).unwrap(),
        ContainerTask::Command { name: s("SHELL"), params: Vec::new(), reuse_pid: true }
    );
}

#[test]
fn dependencies_travel_as_one_task() {
    let deps = vec![
        Dependency::new("apt", "curl", "7.68"),
        Dependency { purl: Some(s("pkg:apt/git@2.25")), provider: None, package: None, version: None },
    ];
    let env = DevEnv::from(config(None, None, None, deps.clone()), "/");
    let frame = env.resolve_dependencies().unwrap();
    assert_eq!(ContainerTask::decode(&frame).unwrap(), ContainerTask::ResolveDependencies(deps));
    let none = DevEnv::from(config(None, None, None, Vec::new()), "/");
    assert_eq!(
        ContainerTask::decode(&none.resolve_dependencies().unwrap()).unwrap(),
        ContainerTask::ResolveDependencies(Vec::new())
    );
}

#[test]
fn destroy_is_the_teardown_of_the_filesystem() {
    let env = DevEnv::from(config(Some("/"), Some("/env"), None, Vec::new()), "/");
    let fs = Filesystem::new("/", "/env");
    let mut teardown = env.destroy();
    assert_eq!(teardown, Teardown::new(Filesystem::new("/", "/env")));
    assert_eq!(teardown.step(TeardownEvent::Begin), TeardownAction::Filesystem(fs.umount()));
    assert_eq!(teardown.step(TeardownEvent::Done), TeardownAction::ReadRegistry);
    match (teardown.step(TeardownEvent::Registry(registry())), fs.delete(&registry())) {
        (TeardownAction::Filesystem(plan), DeleteStep::Remove(expected)) => assert_eq!(plan, expected),
        other => panic!("no removal: {:?}", other),
    }
    assert_eq!(teardown.step(TeardownEvent::Done), TeardownAction::Return);
}

#[test]
fn created_environment_waits_for_its_child() {
    let mut env = DevEnv::new("/home/user");
    env.create(registry());
    env.step(ContainerEvent::Done);
    env.step(ContainerEvent::Done);
    env.step(ContainerEvent::Done);
    assert_eq!(env.step(ContainerEvent::ForkedParent(77)), ContainerAction::Return);
    assert_eq!(env.child_pid(), Some(77));
    assert_eq!(env.wait_for_container(Ok(ChildStatus::Exited(0))).unwrap(), ChildStatus::Exited(0));
    assert_eq!(env.wait_for_container(Ok(ChildStatus::Exited(1))).unwrap(), ChildStatus::Exited(1));
    assert_eq!(env.wait_for_container(Err(4)).unwrap_err().message(), "EINTR: Interrupted system call");
}

#[test]
fn options_hold_what_the_command_line_asks() {
    let options = Options {
        subcmd: SubCommand::Run(Run { command: vec![s("echo"), s("hi")] }),
        file: s("./devenv.toml"),
        verbose: false,
        boot: true,
    };
    assert_eq!(options.subcmd, SubCommand::Run(Run { command: vec![s("echo"), s("hi")] }));
    assert_ne!(SubCommand::Delete, SubCommand::Shell);
    assert_eq!(options.file, "./devenv.toml");
    assert!(options.boot && !options.verbose);
}
