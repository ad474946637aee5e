use camino_tempfile::error::{with_err_path, Error, ErrorKind};
use camino_tempfile::util::utf8_dir;

#[test]
fn new_error_has_kind_and_message_and_no_path() {
    let e = Error::new(ErrorKind::PermissionDenied, "no entry");
    assert_eq!(e.kind(), ErrorKind::PermissionDenied);
    assert_eq!(e.message(), "no entry");
    assert_eq!(e.path(), None);
    assert_eq!(e.paths().len(), 0);
}

#[test]
fn with_path_adds_the_path_and_keeps_the_rest() {
    let e = Error::new(ErrorKind::StorageFull, "disk full").with_path("/tmp/a");
    assert_eq!(e.kind(), ErrorKind::StorageFull);
    assert_eq!(e.message(), "disk full");
    assert_eq!(e.path(), Some("/tmp/a"));
    assert_eq!(e.paths().len(), 1);
}

#[test]
fn latest_decoration_is_the_path_of_the_error() {
    let e = Error::new(ErrorKind::NotFound, "gone").with_path("/inner").with_path("/outer");
    assert_eq!(e.path(), Some("/outer"));
    assert_eq!(*e.paths(), vec!["/inner".to_string(), "/outer".to_string()]);
    assert_eq!(e.kind(), ErrorKind::NotFound);
    assert_eq!(e.message(), "gone");
}

#[test]
fn with_err_path_leaves_success_alone() {
    let r: Result<u32, Error> = with_err_path(Ok(7), "/tmp/a");
    assert_eq!(r.unwrap(), 7);
}

#[test]
fn with_err_path_decorates_failure() {
    let r: Result<u32, Error> =
        with_err_path(Err(Error::new(ErrorKind::CrossesDevices, "other volume")), "/tmp/a");
    let e = r.unwrap_err();
    assert_eq!(e.kind(), ErrorKind::CrossesDevices);
    assert_eq!(e.message(), "other volume");
    assert_eq!(e.path(), Some("/tmp/a"));
}

#[test]
fn only_taken_names_count_as_collisions() {
    assert!(ErrorKind::AlreadyExists.collides());
    assert!(ErrorKind::AddrInUse.collides());
    let others = [
        ErrorKind::NotFound,
        ErrorKind::PermissionDenied,
        ErrorKind::ConnectionRefused,
        ErrorKind::ConnectionReset,
        ErrorKind::HostUnreachable,
        ErrorKind::NetworkUnreachable,
        ErrorKind::ConnectionAborted,
        ErrorKind::NotConnected,
        ErrorKind::AddrNotAvailable,
        ErrorKind::NetworkDown,
        ErrorKind::BrokenPipe,
        ErrorKind::WouldBlock,
        ErrorKind::NotADirectory,
        ErrorKind::IsADirectory,
        ErrorKind::DirectoryNotEmpty,
        ErrorKind::ReadOnlyFilesystem,
        ErrorKind::StaleNetworkFileHandle,
        ErrorKind::InvalidInput,
        ErrorKind::InvalidData,
        ErrorKind::TimedOut,
        ErrorKind::WriteZero,
        ErrorKind::StorageFull,
        ErrorKind::NotSeekable,
        ErrorKind::QuotaExceeded,
        ErrorKind::FileTooLarge,
        ErrorKind::ResourceBusy,
        ErrorKind::ExecutableFileBusy,
        ErrorKind::Deadlock,
        ErrorKind::CrossesDevices,
        ErrorKind::TooManyLinks,
        ErrorKind::InvalidFilename,
        ErrorKind::ArgumentListTooLong,
        ErrorKind::Interrupted,
        ErrorKind::Unsupported,
        ErrorKind::UnexpectedEof,
        ErrorKind::OutOfMemory,
        ErrorKind::Other,
    ];
    assert_eq!(others.len(), 37);
    for kind in others {
        assert!(!kind.collides(), "{:?}", kind);
    }
}

#[test]
fn utf8_dir_passes_a_name_on() {
    let r = utf8_dir(Some("/var/tmp".to_string()), "OS temp_dir() is not UTF8");
    assert_eq!(r.unwrap(), "/var/tmp");
}

#[test]
fn utf8_dir_reports_a_name_that_is_not_utf8() {
    let e = utf8_dir(None, "OS temp_dir() is not UTF8").unwrap_err();
    assert_eq!(e.kind(), ErrorKind::Other);
    assert_eq!(e.message(), "OS temp_dir() is not UTF8");
    assert_eq!(e.path(), None);
}
