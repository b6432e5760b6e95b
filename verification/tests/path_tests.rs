use hwcaps_loader::driver::ExitCode;
use hwcaps_loader::logging::ErrorCode;
use hwcaps_loader::path::{get_kind, is_loader_binary, itoa, make_fd_path, split_target_path,
    validate_command_path, validate_loader_path, MAX_PATH_LEN};

#[test]
fn kind_of_invocation_names() {
    assert_eq!(get_kind(b"foo\0"), -1);
    assert_eq!(get_kind(b"/usr/bin/foo\0"), 0);
    assert_eq!(get_kind(b"./foo\0"), 1);
    assert_eq!(get_kind(b"../foo\0"), 2);
    assert_eq!(get_kind(b"..foo\0"), -1);
    assert_eq!(get_kind(b".\0"), -1);
    assert_eq!(get_kind(b"\0"), -1);
}

fn itoa_string(n: u32) -> Vec<u8> {
    let mut buf = vec![0xAAu8; 16];
    let count = itoa(n, &mut buf);
    assert_eq!(buf[count..].to_vec(), vec![0xAAu8; 16 - count]);
    buf[..count].to_vec()
}

#[test]
fn itoa_formats_decimals() {
    assert_eq!(itoa_string(0), b"0".to_vec());
    assert_eq!(itoa_string(7), b"7".to_vec());
    assert_eq!(itoa_string(10), b"10".to_vec());
    assert_eq!(itoa_string(243), b"243".to_vec());
    assert_eq!(itoa_string(4096), b"4096".to_vec());
    assert_eq!(itoa_string(u32::MAX), b"4294967295".to_vec());
}

#[test]
fn fd_paths_are_null_terminated() {
    assert_eq!(make_fd_path(0), b"/dev/fd/0\0".to_vec());
    assert_eq!(make_fd_path(9), b"/dev/fd/9\0".to_vec());
    assert_eq!(make_fd_path(1234), b"/dev/fd/1234\0".to_vec());
}

#[test]
fn self_execution_guard_matches_trailing_component() {
    let loader = b"/usr/bin/hwcaps-loader";
    assert!(is_loader_binary(loader, b"hwcaps-loader\0"));
    assert!(is_loader_binary(loader, b"/usr/bin/hwcaps-loader\0"));
    assert!(is_loader_binary(loader, b"./hwcaps-loader\0"));
    assert!(!is_loader_binary(loader, b"foo\0"));
    assert!(!is_loader_binary(loader, b"xhwcaps-loader\0"));
    assert!(!is_loader_binary(loader, b"hwcaps-loade\0"));
    assert!(!is_loader_binary(loader, b"/usr/bin/foo\0"));
    // A loader path not reaching past /usr/bin/ never matches.
    assert!(!is_loader_binary(b"/usr/bin/", b"hwcaps-loader\0"));
}

#[test]
fn command_path_bounds() {
    assert_eq!(validate_command_path(b""), Err(ExitCode::CommandPathInvalid));
    assert_eq!(validate_command_path(b"foo\0"), Ok(()));
    let at_limit = vec![b'a'; MAX_PATH_LEN];
    assert_eq!(validate_command_path(&at_limit), Ok(()));
    let over_limit = vec![b'a'; MAX_PATH_LEN + 1];
    assert_eq!(validate_command_path(&over_limit), Err(ExitCode::CommandPathInvalid));
}

#[test]
fn loader_path_must_sit_under_usr_bin() {
    assert_eq!(validate_loader_path(b"/usr/bin/hwcaps-loader"), Ok(()));
    assert_eq!(validate_loader_path(b"/opt/bin/hwcaps-loader"), Err(ExitCode::ProcPathInvalid));
    assert_eq!(validate_loader_path(b"/usr/lib/hwcaps-loader"), Err(ExitCode::ProcPathInvalid));
    assert_eq!(validate_loader_path(b"/usr/bi"), Err(ExitCode::ProcPathInvalid));
}

#[test]
fn target_path_splits_at_the_install_root() {
    assert_eq!(split_target_path(b"/usr/bin/foo\0"), Ok(b"/bin/foo\0".to_vec()));
    assert_eq!(split_target_path(b"/usr/sbin/x\0"), Ok(b"/sbin/x\0".to_vec()));
}

#[test]
fn target_path_outside_usr_is_invalid() {
    assert_eq!(split_target_path(b"/opt/bin/foo\0"), Err(ExitCode::TargetPathInvalid));
    assert_eq!(split_target_path(b"/u\0"), Err(ExitCode::TargetPathInvalid));
}

#[test]
fn target_path_at_the_bound_passes_and_one_byte_more_fails() {
    let mut path = b"/usr/bin/".to_vec();
    path.resize(MAX_PATH_LEN - 2, b'a');
    path.push(0);
    assert_eq!(path.len(), MAX_PATH_LEN - 1);
    let suffix = split_target_path(&path).unwrap();
    assert_eq!(suffix.len(), path.len() - 4);
    path.insert(9, b'a');
    assert_eq!(path.len(), MAX_PATH_LEN);
    assert_eq!(split_target_path(&path), Err(ExitCode::TargetPathTooLarge));
}

#[test]
fn exit_codes_are_stable_and_distinct() {
    let all = [
        (ExitCode::RustPanic, 100),
        (ExitCode::SelfExecution, 200),
        (ExitCode::CommandPathInvalid, 210),
        (ExitCode::ProcPathIOError, 220),
        (ExitCode::ProcPathInvalid, 221),
        (ExitCode::PathResolutionIOError, 230),
        (ExitCode::TargetPathInvalid, 240),
        (ExitCode::TargetPathTooLarge, 241),
        (ExitCode::TargetExecutionError, 242),
        (ExitCode::TargetNoViableBinaries, 243),
    ];
    for (code, n) in all {
        assert_eq!(code.code(), n);
    }
}

#[test]
fn error_codes_are_stable_and_distinct() {
    let all = [
        (ErrorCode::Success, 0),
        (ErrorCode::RustPanic, 100),
        (ErrorCode::SelfExecution, 200),
        (ErrorCode::CommandPathInvalid, 210),
        (ErrorCode::ProcPathIOError, 220),
        (ErrorCode::ProcPathInvalid, 221),
        (ErrorCode::PathResolutionIOError, 230),
        (ErrorCode::TargetPathInvalid, 240),
        (ErrorCode::TargetPathTooLarge, 241),
        (ErrorCode::TargetExecutionError, 242),
        (ErrorCode::TargetNoViableBinaries, 243),
    ];
    for (code, n) in all {
        assert_eq!(code.code(), n);
    }
}
