//! Target path building and the fallback execution state machine.
//!
//! Given the validated command path split at the installation root and the
//! machine's maximum capability tier, the driver constructs a candidate
//! target path for each tier from the highest downwards. The caller attempts
//! to replace the process image with each candidate in turn and reports every
//! failure back; a no-such-file failure moves to the next lower tier, any
//! other failure is fatal, and running out of tiers means the target has no
//! viable binaries at all.
//!
//! Within one family only the version digit distinguishes adjacent tiers'
//! names, so stepping down a tier usually rewrites a single byte of the
//! candidate path; only the first tier and the family boundary need a full
//! reformat.

use vstd::prelude::*;

use crate::ascii::{LOWER_A, LOWER_C, LOWER_H, LOWER_P, LOWER_R, LOWER_S, LOWER_U, LOWER_W, SLASH};
use crate::capabilities::{arch_name_changed, arch_name_len, arch_name_seq, format_arch_name,
    lemma_adjacent_names_differ_one_byte, spec_arch_name_changed, spec_version_char, version_char,
    version_index, TIER_COUNT};
use crate::path::MAX_PATH_LEN;

verus! {

/// OS error number for a path with no entry behind it; the one recoverable
/// outcome of an execution attempt.
pub const ENOENT: u32 = 2;

/// Length of the `/usr/hwcaps/` prefix shared by all candidate paths.
pub const HWCAPS_PATH_LEN: usize = 12;

/// Terminal process statuses, one per failure condition, stable and distinct
/// so that scripts can tell the conditions apart.
#[derive(Clone, Copy, Debug, PartialEq, Eq, Structural)]
pub enum ExitCode {
    RustPanic,
    SelfExecution,
    CommandPathInvalid,
    ProcPathIOError,
    ProcPathInvalid,
    PathResolutionIOError,
    TargetPathInvalid,
    TargetPathTooLarge,
    TargetExecutionError,
    TargetNoViableBinaries,
}

/// The numeric process status of each terminal condition.
pub open spec fn spec_exit_code(c: ExitCode) -> u8 {
    match c {
        ExitCode::RustPanic => 100,
        ExitCode::SelfExecution => 200,
        ExitCode::CommandPathInvalid => 210,
        ExitCode::ProcPathIOError => 220,
        ExitCode::ProcPathInvalid => 221,
        ExitCode::PathResolutionIOError => 230,
        ExitCode::TargetPathInvalid => 240,
        ExitCode::TargetPathTooLarge => 241,
        ExitCode::TargetExecutionError => 242,
        ExitCode::TargetNoViableBinaries => 243,
    }
}

impl ExitCode {
    /// The process status to exit with for this terminal condition.
    pub fn code(&self) -> (n: u8)
        ensures
            n == spec_exit_code(*self),
    {
        match self {
            ExitCode::RustPanic => 100,
            ExitCode::SelfExecution => 200,
            ExitCode::CommandPathInvalid => 210,
            ExitCode::ProcPathIOError => 220,
            ExitCode::ProcPathInvalid => 221,
            ExitCode::PathResolutionIOError => 230,
            ExitCode::TargetPathInvalid => 240,
            ExitCode::TargetPathTooLarge => 241,
            ExitCode::TargetExecutionError => 242,
            ExitCode::TargetNoViableBinaries => 243,
        }
    }
}

/// The `/usr/hwcaps/` directory holding the per-tier variants.
pub open spec fn hwcaps_path_seq() -> Seq<u8> {
    seq![
        SLASH,
        LOWER_U,
        LOWER_S,
        LOWER_R,
        SLASH,
        LOWER_H,
        LOWER_W,
        LOWER_C,
        LOWER_A,
        LOWER_P,
        LOWER_S,
        SLASH,
    ]
}

/// The candidate target path of tier `t` for a command whose path after the
/// installation root is `suffix`: `/usr/hwcaps/<arch-name><suffix>`.
pub open spec fn candidate_path_seq(suffix: Seq<u8>, t: int) -> Seq<u8> {
    hwcaps_path_seq() + arch_name_seq(t) + suffix
}

/// Length of the candidate target path of tier `t`.
pub open spec fn candidate_len(suffix: Seq<u8>, t: int) -> int {
    HWCAPS_PATH_LEN + arch_name_len(t) + suffix.len()
}

/// Drives one fallback pass: candidate paths are built for `tier` counting
/// down from `max_tier`, sharing one buffer across tiers.
pub struct FallbackDriver {
    /// Buffer holding the candidate path once built for the current tier.
    pub buffer: Vec<u8>,
    /// The command path after the installation root, terminator included.
    pub suffix: Vec<u8>,
    /// The tier whose candidate is built or tried next.
    pub tier: u32,
    /// The machine's maximum supported tier, where the pass started.
    pub max_tier: u32,
    /// Whether the whole architecture-name segment must be (re)written, as
    /// opposed to only the version-digit byte.
    pub must_format: bool,
    /// Offset of the version-digit byte inside `buffer`, once formatted.
    pub version_index: usize,
}

impl FallbackDriver {
    /// Internal consistency: when only the version digit is pending, the
    /// buffer already holds the current tier's candidate up to that digit.
    pub open spec fn well_formed(self) -> bool {
        &&& self.max_tier < TIER_COUNT
        &&& self.tier <= self.max_tier
        &&& self.suffix@.len() <= MAX_PATH_LEN
        &&& (!self.must_format ==> {
            &&& self.version_index == HWCAPS_PATH_LEN + version_index(self.tier as int)
            &&& self.buffer@.len() == candidate_len(self.suffix@, self.tier as int)
            &&& candidate_len(self.suffix@, self.tier as int) <= MAX_PATH_LEN
            &&& self.buffer@.update(
                self.version_index as int,
                spec_version_char(self.tier as int),
            ) == candidate_path_seq(self.suffix@, self.tier as int)
        })
    }

    /// Starts a fallback pass at the machine's maximum tier, for the command
    /// path suffix after the installation root.
    pub fn new(suffix: Vec<u8>, max_tier: u32) -> (d: FallbackDriver)
        requires
            max_tier < TIER_COUNT,
            suffix@.len() <= MAX_PATH_LEN,
        ensures
            d.well_formed(),
            d.suffix@ == suffix@,
            d.tier == max_tier,
            d.max_tier == max_tier,
            d.must_format,
    {
        FallbackDriver {
            buffer: Vec::new(),
            suffix,
            tier: max_tier,
            max_tier,
            must_format: true,
            version_index: 0,
        }
    }

    /// Builds the current tier's candidate path into the buffer: a full
    /// write of prefix, architecture name and suffix when the name's family
    /// changed, otherwise an overwrite of the single version-digit byte.
    /// Fails with the too-long-path status exactly when the candidate would
    /// exceed [`MAX_PATH_LEN`].
    pub fn build_candidate(&mut self) -> (r: Result<(), ExitCode>)
        requires
            old(self).well_formed(),
        ensures
            final(self).well_formed(),
            final(self).suffix == old(self).suffix,
            final(self).tier == old(self).tier,
            final(self).max_tier == old(self).max_tier,
            match r {
                Ok(()) => {
                    &&& candidate_len(old(self).suffix@, old(self).tier as int) <= MAX_PATH_LEN
                    &&& final(self).buffer@ == candidate_path_seq(
                        old(self).suffix@,
                        old(self).tier as int,
                    )
                    &&& !final(self).must_format
                },
                Err(c) => {
                    &&& c == ExitCode::TargetPathTooLarge
                    &&& candidate_len(old(self).suffix@, old(self).tier as int) > MAX_PATH_LEN
                    &&& *final(self) == *old(self)
                },
            },
    {
        let tier = self.tier;
        let ghost suf = self.suffix@;
        if self.must_format {
            let mut arch: Vec<u8> = Vec::new();
            let mut z: usize = 0;
            while z < 9
                invariant
                    arch@.len() == z,
                    z <= 9,
                decreases 9 - z,
            {
                arch.push(0u8);
                z = z + 1;
            }
            // A nine-byte buffer fits either family's name, so formatting
            // cannot run out of space here.
            let (vi, alen) = match format_arch_name(&mut arch, tier) {
                Ok(pair) => pair,
                Err(()) => {
                    proof {
                        assert(false);
                    }
                    (0, 0)
                },
            };
            proof {
                assert(arch@.take(alen as int) =~= arch_name_seq(tier as int));
            }
            let total = HWCAPS_PATH_LEN + alen + self.suffix.len();
            if total > MAX_PATH_LEN {
                return Err(ExitCode::TargetPathTooLarge);
            }
            let mut buf: Vec<u8> = Vec::new();
            buf.push(SLASH);
            buf.push(LOWER_U);
            buf.push(LOWER_S);
            buf.push(LOWER_R);
            buf.push(SLASH);
            buf.push(LOWER_H);
            buf.push(LOWER_W);
            buf.push(LOWER_C);
            buf.push(LOWER_A);
            buf.push(LOWER_P);
            buf.push(LOWER_S);
            buf.push(SLASH);
            proof {
                assert(buf@ =~= hwcaps_path_seq());
            }
            let mut i: usize = 0;
            while i < alen
                invariant
                    i <= alen,
                    alen == arch_name_len(tier as int),
                    alen <= arch@.len(),
                    arch@.take(alen as int) =~= arch_name_seq(tier as int),
                    buf@ =~= hwcaps_path_seq() + arch@.take(i as int),
                decreases alen - i,
            {
                let b = arch[i];
                buf.push(b);
                i = i + 1;
            }
            proof {
                assert(buf@ =~= hwcaps_path_seq() + arch_name_seq(tier as int));
            }
            let suffix_len = self.suffix.len();
            let mut j: usize = 0;
            while j < suffix_len
                invariant
                    j <= suffix_len,
                    suffix_len == self.suffix@.len(),
                    self.suffix@ == suf,
                    buf@ =~= hwcaps_path_seq() + arch_name_seq(tier as int) + suf.take(j as int),
                decreases suffix_len - j,
            {
                let b = self.suffix[j];
                buf.push(b);
                j = j + 1;
            }
            self.buffer = buf;
            self.version_index = HWCAPS_PATH_LEN + vi;
            self.must_format = false;
            proof {
                assert(self.buffer@ =~= candidate_path_seq(suf, tier as int));
                assert(self.buffer@[self.version_index as int] == spec_version_char(tier as int));
                assert(self.buffer@.update(
                    self.version_index as int,
                    spec_version_char(tier as int),
                ) =~= candidate_path_seq(suf, tier as int));
            }
            Ok(())
        } else {
            let c = version_char(tier);
            let vi = self.version_index;
            proof {
                assert(self.buffer@.len() == candidate_len(suf, tier as int));
                assert(vi < self.buffer@.len());
            }
            self.buffer[vi] = c;
            proof {
                assert(self.buffer@ =~= candidate_path_seq(suf, tier as int));
                assert(self.buffer@.update(vi as int, spec_version_char(tier as int))
                    =~= candidate_path_seq(suf, tier as int));
            }
            Ok(())
        }
    }

    /// Records one failed execution attempt, identified by the OS error
    /// number of the process-replacement call. A no-such-file error moves on
    /// to the next lower tier, or reports exhaustion when none is left; any
    /// other error is fatal for the attempted target.
    pub fn on_exec_failure(&mut self, errno: u32) -> (r: Option<ExitCode>)
        requires
            old(self).well_formed(),
        ensures
            final(self).well_formed(),
            final(self).suffix == old(self).suffix,
            final(self).max_tier == old(self).max_tier,
            errno != ENOENT ==> r == Some(ExitCode::TargetExecutionError) && *final(self) == *old(
                self,
            ),
            errno == ENOENT && old(self).tier == 0 ==> r == Some(
                ExitCode::TargetNoViableBinaries,
            ) && *final(self) == *old(self),
            errno == ENOENT && old(self).tier > 0 ==> {
                &&& r is None
                &&& final(self).tier == old(self).tier - 1
                &&& final(self).buffer == old(self).buffer
                &&& final(self).must_format == (old(self).must_format || spec_arch_name_changed(
                    (old(self).tier - 1) as u32,
                ))
            },
    {
        if errno != ENOENT {
            return Some(ExitCode::TargetExecutionError);
        }
        if self.tier == 0 {
            return Some(ExitCode::TargetNoViableBinaries);
        }
        let ghost suf = self.suffix@;
        let ghost t0 = self.tier as int;
        let next = self.tier - 1;
        if arch_name_changed(next) {
            self.must_format = true;
        }
        self.tier = next;
        proof {
            if !self.must_format {
                lemma_adjacent_names_differ_one_byte(t0);
                let vi = self.version_index as int;
                assert(self.buffer@.update(vi, spec_version_char(t0)) == candidate_path_seq(
                    suf,
                    t0,
                ));
                assert(arch_name_len(t0) == arch_name_len(next as int));
                assert(version_index(t0) == version_index(next as int));
                assert(arch_name_seq(t0) == arch_name_seq(next as int).update(
                    version_index(t0),
                    spec_version_char(t0),
                ));
                assert(arch_name_seq(next as int)[version_index(next as int)]
                    == spec_version_char(next as int));
                assert forall|k: int|
                    0 <= k < candidate_len(suf, next as int) && k != vi implies candidate_path_seq(
                    suf,
                    t0,
                )[k] == candidate_path_seq(suf, next as int)[k] by {
                    if HWCAPS_PATH_LEN <= k < HWCAPS_PATH_LEN + arch_name_len(t0) {
                        assert(arch_name_seq(t0)[k - HWCAPS_PATH_LEN] == arch_name_seq(
                            next as int,
                        )[k - HWCAPS_PATH_LEN]);
                    }
                }
                assert(self.buffer@.update(vi, spec_version_char(next as int))
                    =~= candidate_path_seq(suf, next as int));
            }
        }
        None
    }
}

/// Law: a candidate path parses back to the tier it was built for. The
/// architecture-name segment sits directly after the `/usr/hwcaps/` prefix,
/// contains no `/`, and, when the suffix opens with `/` as a split command
/// path does, is delimited by the next `/`; the segment recovered that way is
/// exactly the tier's name.
pub proof fn lemma_candidate_path_roundtrip(suffix: Seq<u8>, t: int)
    requires
        0 <= t < TIER_COUNT,
    ensures
        candidate_path_seq(suffix, t).subrange(
            HWCAPS_PATH_LEN as int,
            HWCAPS_PATH_LEN + arch_name_len(t),
        ) == arch_name_seq(t),
        forall|i: int|
            0 <= i < arch_name_len(t) ==> #[trigger] arch_name_seq(t)[i] != SLASH,
        suffix.len() > 0 && suffix[0] == SLASH ==> candidate_path_seq(suffix, t)[
            HWCAPS_PATH_LEN + arch_name_len(t)
        ] == SLASH,
{
    assert(candidate_path_seq(suffix, t).subrange(
        HWCAPS_PATH_LEN as int,
        HWCAPS_PATH_LEN + arch_name_len(t),
    ) =~= arch_name_seq(t));
    assert forall|i: int| 0 <= i < arch_name_len(t) implies #[trigger] arch_name_seq(t)[i]
        != SLASH by {
        assert(spec_version_char(t) != SLASH);
    }
}

} // verus!
