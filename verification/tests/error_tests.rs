use devenv::error::Error;
use devenv::error::ErrorKind;

#[test]
fn custom_error_has_custom_kind_and_message() {
    let e = Error::new("Could not mount tmpfs");
    assert_eq!(e.kind(), &ErrorKind::Custom);
    assert_eq!(e.message(), "Could not mount tmpfs");
}

#[test]
fn custom_error_shows_colon_and_message() {
    assert_eq!(Error::new("no match").to_string(), ": no match");
}

#[test]
fn wrapped_error_keeps_cause_and_message() {
    let e = Error::new_error("Could not mount /proc", "EPERM: Operation not permitted");
    assert_eq!(e.kind(), &ErrorKind::Other("EPERM: Operation not permitted".to_string()));
    assert_eq!(e.message(), "Could not mount /proc");
    assert_eq!(e.to_string(), "EPERM: Operation not permitted: Could not mount /proc");
}

#[test]
fn channel_error_shows_its_kind() {
    let e = Error::new_ipc("Error sending task");
    assert_eq!(e.kind(), &ErrorKind::IPCError);
    assert_eq!(e.to_string(), "IPCError: Error sending task");
}

#[test]
fn errno_error_is_described_by_its_number() {
    let e = Error::from_errno(1);
    assert_eq!(e.kind(), &ErrorKind::UnixError(1));
    assert_eq!(e.message(), "EPERM: Operation not permitted");
    assert_eq!(
        e.to_string(),
        "UnixError(EPERM: Operation not permitted): EPERM: Operation not permitted"
    );
}

#[test]
fn errno_text_depends_on_the_number() {
    assert_eq!(Error::from_errno(2).message(), "ENOENT: No such file or directory");
    assert_eq!(Error::from_errno(22).message(), "EINVAL: Invalid argument");
    assert_ne!(Error::from_errno(2).message(), Error::from_errno(22).message());
}

#[test]
fn io_error_carries_its_text_twice() {
    let e = Error::from_io("file not found");
    assert_eq!(e.kind(), &ErrorKind::IOError("file not found".to_string()));
    assert_eq!(e.message(), "file not found");
    assert_eq!(e.to_string(), "IOError(file not found): file not found");
}

#[test]
fn foreign_cause_is_kind_and_message() {
    let e = Error::from_cause("boom");
    assert_eq!(e.kind(), &ErrorKind::Other("boom".to_string()));
    assert_eq!(e.message(), "boom");
    assert_eq!(e.to_string(), "boom: boom");
}

#[test]
fn error_from_kind_has_empty_message() {
    let e = Error::from_kind(ErrorKind::UnixError(13));
    assert_eq!(e.kind(), &ErrorKind::UnixError(13));
    assert_eq!(e.message(), "");
    assert_eq!(e.to_string(), "UnixError(EACCES: Permission denied): ");
}

#[test]
fn kind_text_of_each_kind() {
    assert_eq!(ErrorKind::Custom.to_string(), "");
    assert_eq!(ErrorKind::IPCError.to_string(), "IPCError");
    assert_eq!(ErrorKind::IOError("x".to_string()).to_string(), "IOError(x)");
    assert_eq!(ErrorKind::Other("y".to_string()).to_string(), "y");
    assert_eq!(ErrorKind::UnixError(2).to_string(), "UnixError(ENOENT: No such file or directory)");
}
