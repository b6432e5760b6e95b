//! Path classification, construction helpers, and installation-layout
//! validation.
//!
//! Paths are handled as byte strings, null terminator included where one is
//! needed for the OS interface. All paths are bounded by [`MAX_PATH_LEN`];
//! exceeding the bound is a hard error, never a silent truncation.

use vstd::prelude::*;

use crate::ascii::{DIGIT_0, DOT, LOWER_B, LOWER_D, LOWER_E, LOWER_F, LOWER_I, LOWER_N, LOWER_R,
    LOWER_S, LOWER_U, LOWER_V, SLASH};
use crate::driver::ExitCode;

verus! {

/// Upper bound on every path handled by the redirector, terminator included.
pub const MAX_PATH_LEN: usize = 4096;

/// Length of the `/usr` installation root prefix.
pub const USR_PATH_LEN: usize = 4;

/// Length of the `/usr/bin/` prefix under which the redirector must live.
pub const BIN_PATH_LEN: usize = 9;

/// The installation root `/usr`.
pub open spec fn usr_path_seq() -> Seq<u8> {
    seq![SLASH, LOWER_U, LOWER_S, LOWER_R]
}

/// The directory `/usr/bin/` holding the redirector binary.
pub open spec fn bin_path_seq() -> Seq<u8> {
    seq![SLASH, LOWER_U, LOWER_S, LOWER_R, SLASH, LOWER_B, LOWER_I, LOWER_N, SLASH]
}

/// The `/dev/fd/` prefix of a file descriptor's canonical-path pseudo-entry.
pub open spec fn dev_fd_seq() -> Seq<u8> {
    seq![SLASH, LOWER_D, LOWER_E, LOWER_V, SLASH, LOWER_F, LOWER_D, SLASH]
}

/// Classification of an invocation name: `0` for an absolute path, `1` for a
/// `./`-relative one, `2` for a `../`-relative one, `-1` for a bare alias.
pub open spec fn spec_path_kind(p: Seq<u8>) -> int {
    if p.len() > 0 && p[0] == SLASH {
        0
    } else if p.len() > 1 && p[0] == DOT && p[1] == SLASH {
        1
    } else if p.len() > 2 && p[0] == DOT && p[1] == DOT && p[2] == SLASH {
        2
    } else {
        -1
    }
}

/// Classifies an invocation name into one of four kinds: absolute (`0`),
/// dot-relative (`1`), dot-dot-relative (`2`), or bare alias (`-1`).
pub fn get_kind(path: &[u8]) -> (k: i32)
    ensures
        k as int == spec_path_kind(path@),
{
    if path.len() > 0 && path[0] == SLASH {
        0
    } else if path.len() > 1 && path[0] == DOT && path[1] == SLASH {
        1
    } else if path.len() > 2 && path[0] == DOT && path[1] == DOT && path[2] == SLASH {
        2
    } else {
        -1
    }
}

/// The decimal digit characters of `n`, most significant first.
pub open spec fn decimal_digits(n: nat) -> Seq<u8>
    decreases n,
{
    if n < 10 {
        seq![(DIGIT_0 + n) as u8]
    } else {
        decimal_digits(n / 10).push((DIGIT_0 + n % 10) as u8)
    }
}

spec fn pow10(k: nat) -> nat
    decreases k,
{
    if k == 0 {
        1
    } else {
        10 * pow10((k - 1) as nat)
    }
}

proof fn lemma_decimal_digits_len_bound(n: nat, k: nat)
    requires
        k >= 1,
        n < pow10(k),
    ensures
        decimal_digits(n).len() <= k,
    decreases k,
{
    if n >= 10 {
        assert(pow10(1) == 10 * pow10(0));
        if k == 1 {
            assert(false);
        }
        assert(pow10(k) == 10 * pow10((k - 1) as nat));
        assert(n / 10 < pow10((k - 1) as nat)) by (nonlinear_arith)
            requires
                n < 10 * pow10((k - 1) as nat),
        ;
        lemma_decimal_digits_len_bound(n / 10, (k - 1) as nat);
    }
}

/// A 32-bit value never takes more than ten decimal digits.
pub proof fn lemma_decimal_digits_len_u32(n: nat)
    requires
        n < 0x1_0000_0000,
    ensures
        decimal_digits(n).len() <= 10,
{
    assert(pow10(0) == 1);
    assert(pow10(1) == 10);
    assert(pow10(2) == 100);
    assert(pow10(3) == 1000);
    assert(pow10(4) == 10000);
    assert(pow10(5) == 100000);
    assert(pow10(6) == 1000000);
    assert(pow10(7) == 10000000);
    assert(pow10(8) == 100000000);
    assert(pow10(9) == 1000000000);
    assert(pow10(10) == 10000000000);
    lemma_decimal_digits_len_bound(n, 10);
}

/// Writes the decimal digit characters of `n` over the start of `arr`,
/// leaving the rest of the buffer unchanged, and returns how many digits were
/// written.
pub fn itoa(n: u32, arr: &mut Vec<u8>) -> (count: usize)
    requires
        decimal_digits(n as nat).len() <= old(arr)@.len(),
    ensures
        count == decimal_digits(n as nat).len(),
        final(arr)@.len() == old(arr)@.len(),
        final(arr)@ =~= decimal_digits(n as nat) + old(arr)@.skip(count as int),
{
    let mut tmp: Vec<u8> = Vec::new();
    let mut m: u32 = n;
    loop
        invariant_except_break
            decimal_digits(n as nat) =~= decimal_digits(m as nat) + tmp@.reverse(),
        ensures
            decimal_digits(n as nat) =~= tmp@.reverse(),
        decreases m,
    {
        let ghost tmp0 = tmp@;
        let d: u8 = (m % 10) as u8 + DIGIT_0;
        tmp.push(d);
        proof {
            assert(tmp@.reverse() =~= seq![d] + tmp0.reverse());
            assert(d == (DIGIT_0 + (m as nat) % 10) as u8);
        }
        if m < 10 {
            proof {
                assert(decimal_digits(m as nat) =~= seq![d]);
                assert(decimal_digits(n as nat) =~= tmp@.reverse());
            }
            break;
        }
        proof {
            assert(decimal_digits(m as nat) =~= decimal_digits(m as nat / 10) + seq![d]);
            assert(decimal_digits(n as nat) =~= decimal_digits((m / 10) as nat) + tmp@.reverse());
        }
        m = m / 10;
    }
    let count = tmp.len();
    let ghost arr0 = arr@;
    let mut j: usize = 0;
    while j < count
        invariant
            j <= count,
            count == tmp@.len(),
            count == decimal_digits(n as nat).len(),
            decimal_digits(n as nat) =~= tmp@.reverse(),
            arr@.len() == arr0.len(),
            count <= arr0.len(),
            forall|k: int| 0 <= k < j ==> arr@[k] == decimal_digits(n as nat)[k],
            forall|k: int| j <= k < arr0.len() ==> arr@[k] == arr0[k],
        decreases count - j,
    {
        arr[j] = tmp[count - 1 - j];
        proof {
            assert(decimal_digits(n as nat)[j as int] == tmp@[count - 1 - j]);
        }
        j += 1;
    }
    proof {
        assert(arr@ =~= decimal_digits(n as nat) + arr0.skip(count as int));
    }
    count
}

/// Builds the null-terminated `/dev/fd/<fd>` pseudo-path through which an
/// open descriptor's canonical path is read back.
pub fn make_fd_path(fd: u32) -> (p: Vec<u8>)
    ensures
        p@ =~= dev_fd_seq() + decimal_digits(fd as nat) + seq![0u8],
{
    proof {
        lemma_decimal_digits_len_u32(fd as nat);
    }
    let mut digits: Vec<u8> = Vec::new();
    let mut i: usize = 0;
    while i < 10
        invariant
            digits@.len() == i,
            i <= 10,
        decreases 10 - i,
    {
        digits.push(0u8);
        i = i + 1;
    }
    let count = itoa(fd, &mut digits);
    let mut p: Vec<u8> = Vec::new();
    p.push(SLASH);
    p.push(LOWER_D);
    p.push(LOWER_E);
    p.push(LOWER_V);
    p.push(SLASH);
    p.push(LOWER_F);
    p.push(LOWER_D);
    p.push(SLASH);
    let mut j: usize = 0;
    while j < count
        invariant
            j <= count,
            count <= digits@.len(),
            digits@.take(count as int) =~= decimal_digits(fd as nat),
            p@ =~= dev_fd_seq() + digits@.take(j as int),
        decreases count - j,
    {
        let b = digits[j];
        p.push(b);
        j = j + 1;
    }
    p.push(0u8);
    proof {
        assert(p@ =~= dev_fd_seq() + decimal_digits(fd as nat) + seq![0u8]);
    }
    p
}

/// Index at which the trailing path component of `p` starts: just past the
/// last `/`, or `0` when `p` holds no `/` at all.
pub open spec fn start_of_trailing(p: Seq<u8>) -> int
    decreases p.len(),
{
    if p.len() == 0 {
        0
    } else if p.last() == SLASH {
        p.len() as int
    } else {
        start_of_trailing(p.drop_last())
    }
}

/// The trailing path component of `p`: everything after the last `/`.
pub open spec fn trailing_component(p: Seq<u8>) -> Seq<u8> {
    p.skip(start_of_trailing(p))
}

/// Self-execution guard: true when the trailing component of the raw
/// invocation name (terminator excluded) equals the redirector's own binary
/// name, the part of its resolved path after `/usr/bin/`.
pub fn is_loader_binary(loader_path: &[u8], argv0_path: &[u8]) -> (r: bool)
    requires
        argv0_path@.len() >= 1,
    ensures
        r == (loader_path@.len() > BIN_PATH_LEN && trailing_component(
            argv0_path@.take(argv0_path@.len() - 1),
        ) == loader_path@.skip(BIN_PATH_LEN as int)),
{
    let ghost p = argv0_path@.take(argv0_path@.len() - 1);
    if loader_path.len() <= BIN_PATH_LEN {
        return false;
    }
    let name_len = loader_path.len() - BIN_PATH_LEN;
    let n = argv0_path.len() - 1;
    let mut s: usize = n;
    while s > 0 && argv0_path[s - 1] != SLASH
        invariant
            s <= n,
            n == argv0_path@.len() - 1,
            p == argv0_path@.take(n as int),
            start_of_trailing(p) == start_of_trailing(argv0_path@.take(s as int)),
        decreases s,
    {
        proof {
            assert(argv0_path@.take(s as int).drop_last() =~= argv0_path@.take(s as int - 1));
        }
        s = s - 1;
    }
    proof {
        if s == 0 {
            assert(argv0_path@.take(0).len() == 0);
            assert(start_of_trailing(p) == 0);
        } else {
            assert(argv0_path@.take(s as int).last() == SLASH);
            assert(start_of_trailing(p) == s as int);
        }
        assert(trailing_component(p) =~= p.skip(s as int));
    }
    if n - s != name_len {
        proof {
            assert(trailing_component(p).len() == n - s);
            assert(loader_path@.skip(BIN_PATH_LEN as int).len() == name_len);
        }
        return false;
    }
    let mut i: usize = 0;
    while i < name_len
        invariant
            i <= name_len,
            s <= n,
            n == argv0_path@.len() - 1,
            name_len == n - s,
            name_len == loader_path@.len() - BIN_PATH_LEN,
            name_len <= usize::MAX - BIN_PATH_LEN,
            loader_path@.len() > BIN_PATH_LEN,
            p == argv0_path@.take(n as int),
            trailing_component(p) =~= p.skip(s as int),
            forall|k: int|
                s <= k < s + i ==> #[trigger] argv0_path@[k] == loader_path@[
                    k - s + BIN_PATH_LEN
                ],
        decreases name_len - i,
    {
        if argv0_path[s + i] != loader_path[BIN_PATH_LEN + i] {
            proof {
                assert(trailing_component(p)[i as int] == argv0_path@[s + i]);
                assert(loader_path@.skip(BIN_PATH_LEN as int)[i as int] == loader_path@[
                    BIN_PATH_LEN + i
                ]);
            }
            return false;
        }
        i = i + 1;
    }
    proof {
        assert(trailing_component(p) =~= loader_path@.skip(BIN_PATH_LEN as int));
    }
    true
}

/// Checks the raw invocation name, terminator included, against the path
/// bounds: it must be non-empty and no longer than [`MAX_PATH_LEN`].
pub fn validate_command_path(argv0: &[u8]) -> (r: Result<(), ExitCode>)
    ensures
        r is Ok <==> 1 <= argv0@.len() <= MAX_PATH_LEN,
        r is Err ==> r == Err::<(), ExitCode>(ExitCode::CommandPathInvalid),
{
    if argv0.len() > MAX_PATH_LEN || argv0.len() < 1 {
        Err(ExitCode::CommandPathInvalid)
    } else {
        Ok(())
    }
}

/// Checks that the redirector's own resolved path lies under `/usr/bin/`,
/// the expected installation layout.
pub fn validate_loader_path(path: &[u8]) -> (r: Result<(), ExitCode>)
    ensures
        r is Ok <==> path@.len() >= BIN_PATH_LEN && path@.take(BIN_PATH_LEN as int)
            == bin_path_seq(),
        r is Err ==> r == Err::<(), ExitCode>(ExitCode::ProcPathInvalid),
{
    if path.len() < BIN_PATH_LEN {
        return Err(ExitCode::ProcPathInvalid);
    }
    if path[0] == SLASH && path[1] == LOWER_U && path[2] == LOWER_S && path[3] == LOWER_R && path[4] == SLASH
        && path[5] == LOWER_B && path[6] == LOWER_I && path[7] == LOWER_N && path[8] == SLASH {
        proof {
            assert(path@.take(BIN_PATH_LEN as int) =~= bin_path_seq());
        }
        Ok(())
    } else {
        proof {
            assert(path@.take(BIN_PATH_LEN as int) != bin_path_seq()) by {
                if path@.take(BIN_PATH_LEN as int) == bin_path_seq() {
                    assert(path@.take(BIN_PATH_LEN as int)[0] == SLASH);
                    assert(path@.take(BIN_PATH_LEN as int)[1] == LOWER_U);
                    assert(path@.take(BIN_PATH_LEN as int)[2] == LOWER_S);
                    assert(path@.take(BIN_PATH_LEN as int)[3] == LOWER_R);
                    assert(path@.take(BIN_PATH_LEN as int)[4] == SLASH);
                    assert(path@.take(BIN_PATH_LEN as int)[5] == LOWER_B);
                    assert(path@.take(BIN_PATH_LEN as int)[6] == LOWER_I);
                    assert(path@.take(BIN_PATH_LEN as int)[7] == LOWER_N);
                    assert(path@.take(BIN_PATH_LEN as int)[8] == SLASH);
                }
            }
        }
        Err(ExitCode::ProcPathInvalid)
    }
}

/// Splits the resolved command path, terminator included, at the `/usr`
/// installation-root boundary. Returns the suffix after the root (for
/// `/usr/bin/foo` plus terminator, the bytes `/bin/foo` plus terminator), a
/// too-long-path error when the path does not fit the bounds, or an
/// invalid-target error when it does not lie under the root.
pub fn split_target_path(cmd_path: &[u8]) -> (r: Result<Vec<u8>, ExitCode>)
    ensures
        match r {
            Ok(s) => {
                &&& cmd_path@.len() < MAX_PATH_LEN
                &&& cmd_path@.len() >= USR_PATH_LEN
                &&& cmd_path@.take(USR_PATH_LEN as int) == usr_path_seq()
                &&& s@ == cmd_path@.skip(USR_PATH_LEN as int)
            },
            Err(c) => {
                if cmd_path@.len() >= MAX_PATH_LEN {
                    c == ExitCode::TargetPathTooLarge
                } else {
                    &&& c == ExitCode::TargetPathInvalid
                    &&& (cmd_path@.len() < USR_PATH_LEN || cmd_path@.take(USR_PATH_LEN as int)
                        != usr_path_seq())
                }
            },
        },
{
    if cmd_path.len() >= MAX_PATH_LEN {
        return Err(ExitCode::TargetPathTooLarge);
    }
    if cmd_path.len() < USR_PATH_LEN {
        return Err(ExitCode::TargetPathInvalid);
    }
    if cmd_path[0] == SLASH && cmd_path[1] == LOWER_U && cmd_path[2] == LOWER_S && cmd_path[3] == LOWER_R {
        proof {
            assert(cmd_path@.take(USR_PATH_LEN as int) =~= usr_path_seq());
        }
        let mut s: Vec<u8> = Vec::new();
        let mut i: usize = USR_PATH_LEN;
        while i < cmd_path.len()
            invariant
                USR_PATH_LEN <= i <= cmd_path@.len(),
                s@ =~= cmd_path@.subrange(USR_PATH_LEN as int, i as int),
            decreases cmd_path@.len() - i,
        {
            let b = cmd_path[i];
            s.push(b);
            i = i + 1;
        }
        proof {
            assert(s@ =~= cmd_path@.skip(USR_PATH_LEN as int));
        }
        Ok(s)
    } else {
        proof {
            assert(cmd_path@.take(USR_PATH_LEN as int) != usr_path_seq()) by {
                if cmd_path@.take(USR_PATH_LEN as int) == usr_path_seq() {
                    assert(cmd_path@.take(USR_PATH_LEN as int)[0] == SLASH);
                    assert(cmd_path@.take(USR_PATH_LEN as int)[1] == LOWER_U);
                    assert(cmd_path@.take(USR_PATH_LEN as int)[2] == LOWER_S);
                    assert(cmd_path@.take(USR_PATH_LEN as int)[3] == LOWER_R);
                }
            }
        }
        Err(ExitCode::TargetPathInvalid)
    }
}

} // verus!
