use hwcaps_loader::driver::{ExitCode, FallbackDriver, ENOENT};
use hwcaps_loader::capabilities::format_arch_name;
use hwcaps_loader::output::{format_diagnostic, PrintBuff};
use hwcaps_loader::path::MAX_PATH_LEN;

/// Scenario: bare alias `foo`, real command at `/usr/bin/foo`, maximum tier
/// x86-64-v3; the v3 and v2 binaries are missing and v1 is present. The
/// candidates must be tried in descending tier order and stop at v1.
#[test]
fn descending_attempts_until_a_tier_exists() {
    let mut d = FallbackDriver::new(b"/bin/foo\0".to_vec(), 6);
    assert_eq!(d.build_candidate(), Ok(()));
    assert_eq!(d.buffer, b"/usr/hwcaps/x86-64-v3/bin/foo\0".to_vec());
    assert_eq!(d.on_exec_failure(ENOENT), None);
    assert_eq!(d.build_candidate(), Ok(()));
    assert_eq!(d.buffer, b"/usr/hwcaps/x86-64-v2/bin/foo\0".to_vec());
    assert_eq!(d.on_exec_failure(ENOENT), None);
    assert_eq!(d.build_candidate(), Ok(()));
    assert_eq!(d.buffer, b"/usr/hwcaps/x86-64-v1/bin/foo\0".to_vec());
    // The v1 binary exists: the process image is replaced and the driver is
    // never consulted again.
}

/// Scenario: as above, but no tier's binary exists at all; every attempt
/// fails with no-such-file and the pass ends with the no-viable-binaries
/// status after walking both families down to the lowest tier.
#[test]
fn exhausting_all_tiers_reports_no_viable_binaries() {
    let mut d = FallbackDriver::new(b"/bin/foo\0".to_vec(), 6);
    let expected: [&[u8]; 7] = [
        b"/usr/hwcaps/x86-64-v3/bin/foo\0",
        b"/usr/hwcaps/x86-64-v2/bin/foo\0",
        b"/usr/hwcaps/x86-64-v1/bin/foo\0",
        b"/usr/hwcaps/i686/bin/foo\0",
        b"/usr/hwcaps/i586/bin/foo\0",
        b"/usr/hwcaps/i486/bin/foo\0",
        b"/usr/hwcaps/i386/bin/foo\0",
    ];
    for (i, want) in expected.iter().enumerate() {
        assert_eq!(d.build_candidate(), Ok(()));
        assert_eq!(d.buffer, want.to_vec(), "candidate {}", i);
        let step = d.on_exec_failure(ENOENT);
        if i + 1 < expected.len() {
            assert_eq!(step, None);
        } else {
            assert_eq!(step, Some(ExitCode::TargetNoViableBinaries));
        }
    }
}

#[test]
fn non_enoent_failure_is_fatal() {
    let mut d = FallbackDriver::new(b"/bin/foo\0".to_vec(), 6);
    assert_eq!(d.build_candidate(), Ok(()));
    // Permission denied: the binary exists but is broken; trying a lower
    // tier would not help.
    assert_eq!(d.on_exec_failure(13), Some(ExitCode::TargetExecutionError));
}

#[test]
fn lowest_tier_alone_still_works() {
    let mut d = FallbackDriver::new(b"/bin/x\0".to_vec(), 0);
    assert_eq!(d.build_candidate(), Ok(()));
    assert_eq!(d.buffer, b"/usr/hwcaps/i386/bin/x\0".to_vec());
    assert_eq!(d.on_exec_failure(ENOENT), Some(ExitCode::TargetNoViableBinaries));
}

/// Candidate paths exactly at the length bound succeed; one byte longer
/// fails with the too-long-path status before any attempt.
#[test]
fn candidate_length_boundary() {
    // /usr/hwcaps/ (12) + x86-64-v4 (9) + suffix
    let mut suffix = vec![b'/'];
    suffix.resize(MAX_PATH_LEN - 12 - 9 - 1, b'a');
    suffix.push(0);
    let mut d = FallbackDriver::new(suffix.clone(), 7);
    assert_eq!(d.build_candidate(), Ok(()));
    assert_eq!(d.buffer.len(), MAX_PATH_LEN);

    let mut longer = suffix.clone();
    longer.insert(1, b'a');
    let mut d2 = FallbackDriver::new(longer, 7);
    assert_eq!(d2.build_candidate(), Err(ExitCode::TargetPathTooLarge));
}

/// Scenario: a command name long enough that the candidate for the lowest
/// 64-bit tier no longer fits is rejected with the too-long-path status.
#[test]
fn overlong_command_name_is_rejected_before_any_attempt() {
    let mut suffix = b"/bin/".to_vec();
    suffix.resize(MAX_PATH_LEN - 1, b'n');
    suffix.push(0);
    let mut d = FallbackDriver::new(suffix, 4);
    assert_eq!(d.build_candidate(), Err(ExitCode::TargetPathTooLarge));
}

/// Round trip: the architecture-name segment parsed back out of a built
/// candidate path is exactly the formatted template of the tier it was
/// built for.
#[test]
fn candidate_paths_parse_back_to_their_tier() {
    for tier in 0..8u32 {
        let mut d = FallbackDriver::new(b"/bin/foo\0".to_vec(), tier);
        assert_eq!(d.build_candidate(), Ok(()));
        let path = d.buffer.clone();
        assert_eq!(&path[..12], b"/usr/hwcaps/");
        let end = 12 + path[12..].iter().position(|&b| b == b'/').unwrap();
        let segment = path[12..end].to_vec();
        let mut template = vec![0u8; 16];
        let (_, len) = format_arch_name(&mut template, tier).unwrap();
        assert_eq!(segment, template[..len].to_vec());
    }
}

#[test]
fn diagnostic_line_message_only() {
    let line = format_diagnostic(b"Failed to execute target binary!", 0, None);
    assert_eq!(line, b"hwcaps-loader: Failed to execute target binary!\n".to_vec());
}

#[test]
fn diagnostic_line_with_errno_and_path() {
    let line = format_diagnostic(b"Failed to resolve path!", 13, Some(b"/usr/bin/foo"));
    assert_eq!(
        line,
        b"hwcaps-loader: Failed to resolve path! | Errno: 13 | Path: /usr/bin/foo\n".to_vec()
    );
}

#[test]
fn print_buff_writes_and_refuses_overflow() {
    let mut w = PrintBuff::new(vec![0u8; 8]);
    assert_eq!(w.write_bytes(b"abc"), Ok(()));
    assert_eq!(w.offset, 3);
    assert_eq!(w.write_bytes(b"defgh"), Ok(()));
    assert_eq!(w.offset, 8);
    assert_eq!(w.buf, b"abcdefgh".to_vec());
    assert_eq!(w.write_bytes(b"i"), Err(()));
    assert_eq!(w.buf, b"abcdefgh".to_vec());
    assert_eq!(w.offset, 8);
}

#[test]
fn logging_print_buff_behaves_alike() {
    let mut w = hwcaps_loader::logging::PrintBuff::new(vec![0u8; 4]);
    assert_eq!(w.write_bytes(b"abcde"), Err(()));
    assert_eq!(w.offset, 0);
    assert_eq!(w.write_bytes(b"abcd"), Ok(()));
    assert_eq!(w.buf, b"abcd".to_vec());
    let mut digits = vec![0u8; 10];
    let count = hwcaps_loader::logging::itoa(242, &mut digits);
    assert_eq!(digits[..count].to_vec(), b"242".to_vec());
}
