use devenv::container::ContainerTask;
use devenv::dependency::Dependency;
use devenv::error::ErrorKind;

fn s(text: &str) -> String {
    text.to_string()
}

fn round_trip(task: ContainerTask) {
    let bytes = task.encode();
    assert_eq!(ContainerTask::decode(&bytes).unwrap(), task);
}

fn malformed(bytes: &[u8]) {
    let e = ContainerTask::decode(bytes).unwrap_err();
    assert_eq!(e.kind(), &ErrorKind::IPCError);
    assert_eq!(e.message(), "Error receiving task");
}

#[test]
fn exit_is_one_byte() {
    assert_eq!(ContainerTask::Exit.encode(), vec![2u8]);
    assert_eq!(ContainerTask::decode(&[2u8]).unwrap(), ContainerTask::Exit);
}

#[test]
fn command_bytes() {
    let task = ContainerTask::Command { name: s("ls"), params: vec![s("-l")], reuse_pid: true };
    let expected: Vec<u8> = vec![
        0, // a command
        2, 0, 0, 0, 0, 0, 0, 0, b'l', b's', // the name
        1, 0, 0, 0, 0, 0, 0, 0, // one parameter
        2, 0, 0, 0, 0, 0, 0, 0, b'-', b'l', // the parameter
        1, // in place of PID 1
    ];
    assert_eq!(task.encode(), expected);
    assert_eq!(ContainerTask::decode(&expected).unwrap(), task);
}

#[test]
fn dependencies_bytes() {
    let task = ContainerTask::ResolveDependencies(vec![Dependency {
        purl: None,
        provider: Some(s("a")),
        package: None,
        version: Some(String::new()),
    }]);
    let expected: Vec<u8> = vec![
        1, // dependencies
        1, 0, 0, 0, 0, 0, 0, 0, // one of them
        0, // no url
        1, 1, 0, 0, 0, 0, 0, 0, 0, b'a', // the provider
        0, // no package
        1, 0, 0, 0, 0, 0, 0, 0, 0, // an empty version
    ];
    assert_eq!(task.encode(), expected);
    assert_eq!(ContainerTask::decode(&expected).unwrap(), task);
}

#[test]
fn every_kind_of_task_comes_back() {
    round_trip(ContainerTask::Exit);
    round_trip(ContainerTask::Command { name: s("echo"), params: vec![s("echo"), s("hi")], reuse_pid: false });
    round_trip(ContainerTask::Command { name: String::new(), params: Vec::new(), reuse_pid: true });
    round_trip(ContainerTask::ResolveDependencies(Vec::new()));
    round_trip(ContainerTask::ResolveDependencies(vec![
        Dependency::new("apt", "curl", "7.68"),
        Dependency { purl: Some(s("pkg:apt/curl@7.68")), provider: None, package: None, version: None },
        Dependency { purl: None, provider: None, package: None, version: None },
    ]));
}

#[test]
fn text_beyond_ascii_comes_back() {
    let name = s("/bin/\u{e9}cho \u{4e16}\u{754c} \u{1f600}");
    let task = ContainerTask::Command { name: name.clone(), params: vec![s("\u{0}"), s("\u{7ff}\u{800}")], reuse_pid: false };
    let bytes = task.encode();
    assert_eq!(bytes[1] as usize, name.len());
    assert_eq!(&bytes[9..9 + name.len()], name.as_bytes());
    assert_eq!(ContainerTask::decode(&bytes).unwrap(), task);
}

#[test]
fn long_text_comes_back() {
    let long: String = std::iter::repeat("abc").take(1000).collect();
    let task = ContainerTask::Command { name: long.clone(), params: vec![long; 20], reuse_pid: true };
    let bytes = task.encode();
    assert_eq!(&bytes[1..9], &[0xb8, 0x0b, 0, 0, 0, 0, 0, 0]);
    assert_eq!(ContainerTask::decode(&bytes).unwrap(), task);
}

#[test]
fn different_tasks_have_different_bytes() {
    let a = ContainerTask::Command { name: s("a"), params: vec![s("b")], reuse_pid: false }.encode();
    let b = ContainerTask::Command { name: s("a"), params: vec![s("b")], reuse_pid: true }.encode();
    let c = ContainerTask::Command { name: s("ab"), params: Vec::new(), reuse_pid: false }.encode();
    assert_ne!(a, b);
    assert_ne!(a, c);
}

#[test]
fn no_bytes_are_no_task() {
    malformed(&[]);
}

#[test]
fn unknown_kind_is_no_task() {
    malformed(&[3]);
    malformed(&[255]);
}

#[test]
fn bytes_after_the_task_are_no_task() {
    malformed(&[2, 0]);
    let mut bytes = ContainerTask::Command { name: s("ls"), params: Vec::new(), reuse_pid: false }.encode();
    bytes.push(0);
    malformed(&bytes);
}

#[test]
fn cut_off_task_is_no_task() {
    let bytes = ContainerTask::Command { name: s("echo"), params: vec![s("hi")], reuse_pid: true }.encode();
    for end in 0..bytes.len() {
        malformed(&bytes[..end]);
    }
    let bytes = ContainerTask::ResolveDependencies(vec![Dependency::new("apt", "curl", "7.68")]).encode();
    for end in 0..bytes.len() {
        malformed(&bytes[..end]);
    }
}

#[test]
fn text_that_is_not_utf8_is_no_task() {
    malformed(&[0, 1, 0, 0, 0, 0, 0, 0, 0, 0xff, 0, 0, 0, 0, 0, 0, 0, 0, 0]);
    malformed(&[0, 2, 0, 0, 0, 0, 0, 0, 0, 0xc3, 0x28, 0, 0, 0, 0, 0, 0, 0, 0, 0]);
}

#[test]
fn length_beyond_the_bytes_is_no_task() {
    malformed(&[0, 255, 255, 255, 255, 255, 255, 255, 255, b'a']);
    malformed(&[1, 255, 255, 255, 255, 255, 255, 255, 255]);
    malformed(&[0, 0, 0, 0, 0, 0, 0, 0, 0, 9, 0, 0, 0, 0, 0, 0, 0, 0]);
}

#[test]
fn truth_value_other_than_zero_or_one_is_no_task() {
    malformed(&[0, 0, 0, 0, 0, 0, 0, 0, 0, 0, 0, 0, 0, 0, 0, 0, 0, 2]);
    assert!(ContainerTask::decode(&[0, 0, 0, 0, 0, 0, 0, 0, 0, 0, 0, 0, 0, 0, 0, 0, 0, 1]).is_ok());
}

#[test]
fn presence_byte_other_than_zero_or_one_is_no_task() {
    malformed(&[1, 1, 0, 0, 0, 0, 0, 0, 0, 2, 0, 0, 0]);
    assert!(ContainerTask::decode(&[1, 1, 0, 0, 0, 0, 0, 0, 0, 0, 0, 0, 0]).is_ok());
}
