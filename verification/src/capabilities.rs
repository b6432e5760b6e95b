//! CPU feature detection: mapping raw CPU identification registers to an
//! ordered capability tier, and naming each tier's architecture.
//!
//! Tiers form two families. Tiers below [`X86_64_HWCAPS_INDEX`] belong to the
//! 32-bit family and are named `i<digit>86`; tiers at or above it belong to
//! the 64-bit family and are named `x86-64-v<digit>`. Within a family a
//! tier's required feature set strictly contains the previous tier's, and
//! adjacent names differ in the single version digit only.

use vstd::prelude::*;

use crate::ascii::{DIGIT_1, DIGIT_2, DIGIT_3, DIGIT_4, DIGIT_5, DIGIT_6, DIGIT_8, HYPHEN, LOWER_I,
    LOWER_V, LOWER_X};

verus! {

/// Number of capability tiers over both families.
pub const TIER_COUNT: u32 = 8;

/// First tier of the 64-bit family; tiers below it form the 32-bit family.
pub const X86_64_HWCAPS_INDEX: u32 = 4;

// CPUID leaf 1 EDX flags (32-bit family requirements).
pub const EDX_FPU: u32 = 1u32 << 0;
pub const EDX_CX8: u32 = 1u32 << 8;
pub const EDX_SEP: u32 = 1u32 << 11;
pub const EDX_CMOV: u32 = 1u32 << 15;
pub const EDX_MMX: u32 = 1u32 << 23;
pub const EDX_FXSR: u32 = 1u32 << 24;
pub const EDX_SSE: u32 = 1u32 << 25;
pub const EDX_SSE2: u32 = 1u32 << 26;

// CPUID leaf 1 ECX flags (64-bit family requirements).
pub const ECX_SSE3: u32 = 1u32 << 0;
pub const ECX_SSSE3: u32 = 1u32 << 9;
pub const ECX_FMA: u32 = 1u32 << 12;
pub const ECX_CMPXCHG16B: u32 = 1u32 << 13;
pub const ECX_SSE4_1: u32 = 1u32 << 19;
pub const ECX_SSE4_2: u32 = 1u32 << 20;
pub const ECX_MOVBE: u32 = 1u32 << 22;
pub const ECX_OSXSAVE: u32 = 1u32 << 27;
pub const ECX_AVX: u32 = 1u32 << 28;
pub const ECX_F16C: u32 = 1u32 << 29;

// CPUID leaf 0x80000001 ECX flags.
pub const EXT_ECX_LAHF_SAHF: u32 = 1u32 << 0;
pub const EXT_ECX_LZCNT: u32 = 1u32 << 5;

// CPUID leaf 7 sub-leaf 0 EBX flags.
pub const EBX_BMI1: u32 = 1u32 << 3;
pub const EBX_AVX2: u32 = 1u32 << 5;
pub const EBX_BMI2: u32 = 1u32 << 8;
pub const EBX_AVX512F: u32 = 1u32 << 16;
pub const EBX_AVX512DQ: u32 = 1u32 << 17;
pub const EBX_AVX512CD: u32 = 1u32 << 28;
pub const EBX_AVX512BW: u32 = 1u32 << 30;
pub const EBX_AVX512VL: u32 = 1u32 << 31;

// Cumulative requirement masks of the 32-bit family, leaf 1 EDX.
pub const I486_HWCAPS: u32 = EDX_FPU;
pub const I586_HWCAPS: u32 = I486_HWCAPS | EDX_CX8 | EDX_MMX;
pub const I686_HWCAPS: u32 = I586_HWCAPS | EDX_SEP | EDX_CMOV | EDX_FXSR;

// Requirement masks of the 64-bit family, by queried register.
pub const X86_64_V2_HWCAPS_01H_ECX: u32 = ECX_SSE3 | ECX_SSSE3 | ECX_CMPXCHG16B | ECX_SSE4_1
    | ECX_SSE4_2;
pub const X86_64_V2_HWCAPS_80000001H_ECX: u32 = EXT_ECX_LAHF_SAHF;
pub const X86_64_V3_HWCAPS_01H_ECX: u32 = X86_64_V2_HWCAPS_01H_ECX | ECX_FMA | ECX_MOVBE
    | ECX_OSXSAVE | ECX_AVX | ECX_F16C;
pub const X86_64_V3_HWCAPS_80000001H_ECX: u32 = X86_64_V2_HWCAPS_80000001H_ECX | EXT_ECX_LZCNT;
pub const X86_64_V3_HWCAPS_07H_EBX: u32 = EBX_BMI1 | EBX_AVX2 | EBX_BMI2;
pub const X86_64_V4_HWCAPS_07H_EBX: u32 = X86_64_V3_HWCAPS_07H_EBX | EBX_AVX512F | EBX_AVX512DQ
    | EBX_AVX512CD | EBX_AVX512BW | EBX_AVX512VL;

/// Version digit of a tier's architecture name.
pub open spec fn spec_version_char(fl: int) -> u8 {
    if fl == 0 {
        DIGIT_3
    } else if fl == 1 {
        DIGIT_4
    } else if fl == 2 {
        DIGIT_5
    } else if fl == 3 {
        DIGIT_6
    } else if fl == 4 {
        DIGIT_1
    } else if fl == 5 {
        DIGIT_2
    } else if fl == 6 {
        DIGIT_3
    } else {
        DIGIT_4
    }
}

/// Length in bytes of a tier's architecture name.
pub open spec fn arch_name_len(fl: int) -> int {
    if fl < X86_64_HWCAPS_INDEX as int {
        4
    } else {
        9
    }
}

/// Offset of the version digit inside a tier's architecture name.
pub open spec fn version_index(fl: int) -> int {
    if fl < X86_64_HWCAPS_INDEX as int {
        1
    } else {
        8
    }
}

/// The full architecture name of a tier: `i<digit>86` in the 32-bit family,
/// `x86-64-v<digit>` in the 64-bit family.
pub open spec fn arch_name_seq(fl: int) -> Seq<u8> {
    if fl < X86_64_HWCAPS_INDEX as int {
        seq![LOWER_I, spec_version_char(fl), DIGIT_8, DIGIT_6]
    } else {
        seq![LOWER_X, DIGIT_8, DIGIT_6, HYPHEN, DIGIT_6, DIGIT_4, HYPHEN, LOWER_V, spec_version_char(fl)]
    }
}

/// True exactly when stepping down to `fl` crosses the family boundary, so
/// the whole architecture name must be reformatted rather than only its
/// version digit.
pub open spec fn spec_arch_name_changed(fl: u32) -> bool {
    fl + 1 == X86_64_HWCAPS_INDEX
}

/// During a descending iteration over tiers, reports whether the architecture
/// name's family changes when moving to tier `fl`.
pub fn arch_name_changed(fl: u32) -> (r: bool)
    ensures
        r == spec_arch_name_changed(fl),
{
    fl == X86_64_HWCAPS_INDEX - 1
}

/// The version digit of tier `feature_level`.
pub fn version_char(feature_level: u32) -> (c: u8)
    requires
        feature_level < TIER_COUNT,
    ensures
        c == spec_version_char(feature_level as int),
{
    match feature_level {
        0 => DIGIT_3,
        1 => DIGIT_4,
        2 => DIGIT_5,
        3 => DIGIT_6,
        4 => DIGIT_1,
        5 => DIGIT_2,
        6 => DIGIT_3,
        _ => DIGIT_4,
    }
}

/// Writes the architecture name of tier `feature_level` over the start of
/// `buffer`, leaving the rest of the buffer unchanged. Returns the offset of
/// the version digit and the name's total length, or an out-of-space error if
/// the buffer is shorter than the name.
pub fn format_arch_name(buffer: &mut Vec<u8>, feature_level: u32) -> (r: Result<
    (usize, usize),
    (),
>)
    requires
        feature_level < TIER_COUNT,
    ensures
        final(buffer)@.len() == old(buffer)@.len(),
        match r {
            Ok(pair) => {
                &&& old(buffer)@.len() >= arch_name_len(feature_level as int)
                &&& pair.0 == version_index(feature_level as int)
                &&& pair.1 == arch_name_len(feature_level as int)
                &&& final(buffer)@ =~= arch_name_seq(feature_level as int) + old(buffer)@.skip(
                    arch_name_len(feature_level as int),
                )
            },
            Err(()) => {
                &&& old(buffer)@.len() < arch_name_len(feature_level as int)
                &&& final(buffer)@ == old(buffer)@
            },
        },
{
    if feature_level < X86_64_HWCAPS_INDEX {
        if buffer.len() < 4 {
            return Err(());
        }
        buffer[0] = LOWER_I;
        buffer[1] = version_char(feature_level);
        buffer[2] = DIGIT_8;
        buffer[3] = DIGIT_6;
        Ok((1, 4))
    } else {
        if buffer.len() < 9 {
            return Err(());
        }
        buffer[0] = LOWER_X;
        buffer[1] = DIGIT_8;
        buffer[2] = DIGIT_6;
        buffer[3] = HYPHEN;
        buffer[4] = DIGIT_6;
        buffer[5] = DIGIT_4;
        buffer[6] = HYPHEN;
        buffer[7] = LOWER_V;
        buffer[8] = version_char(feature_level);
        Ok((8, 9))
    }
}

/// Required leaf 1 EDX mask of a 32-bit-family tier; tier 0 requires nothing.
pub open spec fn tier_mask_32(t: int) -> u32 {
    if t == 1 {
        I486_HWCAPS
    } else if t == 2 {
        I586_HWCAPS
    } else if t == 3 {
        I686_HWCAPS
    } else {
        0
    }
}

/// Whether a machine whose CPUID probe came out `cpuid_supported` and whose
/// leaf 1 EDX register reads `leaf1_edx` satisfies the full requirement of
/// 32-bit-family tier `t`.
pub open spec fn meets_tier_32(t: int, cpuid_supported: bool, leaf1_edx: u32) -> bool {
    if t <= 0 {
        true
    } else if t <= 3 {
        cpuid_supported && leaf1_edx & tier_mask_32(t) == tier_mask_32(t)
    } else {
        false
    }
}

/// Whether a machine whose CPUID registers read as given satisfies the full
/// requirement of 64-bit-family tier `t`. `max_extended` is the highest
/// supported extended query leaf, `max_basic` the highest basic one.
pub open spec fn meets_tier_64(
    t: int,
    max_extended: u32,
    leaf1_ecx: u32,
    ext_ecx: u32,
    max_basic: u32,
    leaf7_ebx: u32,
) -> bool {
    if t <= X86_64_HWCAPS_INDEX as int {
        true
    } else if t == 5 {
        &&& max_extended >= 0x80000001u32
        &&& leaf1_ecx & X86_64_V2_HWCAPS_01H_ECX == X86_64_V2_HWCAPS_01H_ECX
        &&& ext_ecx & X86_64_V2_HWCAPS_80000001H_ECX == X86_64_V2_HWCAPS_80000001H_ECX
    } else if t == 6 {
        &&& max_extended >= 0x80000001u32
        &&& max_basic >= 7
        &&& leaf1_ecx & X86_64_V3_HWCAPS_01H_ECX == X86_64_V3_HWCAPS_01H_ECX
        &&& ext_ecx & X86_64_V3_HWCAPS_80000001H_ECX == X86_64_V3_HWCAPS_80000001H_ECX
        &&& leaf7_ebx & X86_64_V3_HWCAPS_07H_EBX == X86_64_V3_HWCAPS_07H_EBX
    } else if t == 7 {
        &&& max_extended >= 0x80000001u32
        &&& max_basic >= 7
        &&& leaf1_ecx & X86_64_V3_HWCAPS_01H_ECX == X86_64_V3_HWCAPS_01H_ECX
        &&& ext_ecx & X86_64_V3_HWCAPS_80000001H_ECX == X86_64_V3_HWCAPS_80000001H_ECX
        &&& leaf7_ebx & X86_64_V4_HWCAPS_07H_EBX == X86_64_V4_HWCAPS_07H_EBX
    } else {
        false
    }
}

/// Reduces the 32-bit family's CPUID readings to the highest tier whose full
/// requirement is met; the first unmet tier stops the climb even if some
/// higher tier's bits happen to be present.
pub fn max_feature_level_32(cpuid_supported: bool, leaf1_edx: u32) -> (fl: u32)
    ensures
        fl < X86_64_HWCAPS_INDEX,
        forall|t: int| 0 <= t <= fl ==> meets_tier_32(t, cpuid_supported, leaf1_edx),
        fl < X86_64_HWCAPS_INDEX - 1 ==> !meets_tier_32(
            fl as int + 1,
            cpuid_supported,
            leaf1_edx,
        ),
{
    if !cpuid_supported {
        return 0;
    }
    if leaf1_edx & I486_HWCAPS != I486_HWCAPS {
        return 0;
    }
    if leaf1_edx & I586_HWCAPS != I586_HWCAPS {
        return 1;
    }
    if leaf1_edx & I686_HWCAPS != I686_HWCAPS {
        return 2;
    }
    3
}

/// Reduces the 64-bit family's CPUID readings to the highest tier whose full
/// requirement is met; the first unmet tier stops the climb even if some
/// higher tier's bits happen to be present.
pub fn max_feature_level_64(
    max_extended: u32,
    leaf1_ecx: u32,
    ext_ecx: u32,
    max_basic: u32,
    leaf7_ebx: u32,
) -> (fl: u32)
    ensures
        X86_64_HWCAPS_INDEX <= fl < TIER_COUNT,
        forall|t: int|
            X86_64_HWCAPS_INDEX <= t <= fl ==> meets_tier_64(
                t,
                max_extended,
                leaf1_ecx,
                ext_ecx,
                max_basic,
                leaf7_ebx,
            ),
        fl < TIER_COUNT - 1 ==> !meets_tier_64(
            fl as int + 1,
            max_extended,
            leaf1_ecx,
            ext_ecx,
            max_basic,
            leaf7_ebx,
        ),
{
    if max_extended < 0x80000001 {
        return X86_64_HWCAPS_INDEX;
    }
    if leaf1_ecx & X86_64_V2_HWCAPS_01H_ECX != X86_64_V2_HWCAPS_01H_ECX || ext_ecx
        & X86_64_V2_HWCAPS_80000001H_ECX != X86_64_V2_HWCAPS_80000001H_ECX {
        return X86_64_HWCAPS_INDEX;
    }
    if max_basic < 7 {
        return X86_64_HWCAPS_INDEX + 1;
    }
    if leaf1_ecx & X86_64_V3_HWCAPS_01H_ECX != X86_64_V3_HWCAPS_01H_ECX || leaf7_ebx
        & X86_64_V3_HWCAPS_07H_EBX != X86_64_V3_HWCAPS_07H_EBX || ext_ecx
        & X86_64_V3_HWCAPS_80000001H_ECX != X86_64_V3_HWCAPS_80000001H_ECX {
        return X86_64_HWCAPS_INDEX + 1;
    }
    if leaf7_ebx & X86_64_V4_HWCAPS_07H_EBX != X86_64_V4_HWCAPS_07H_EBX {
        return X86_64_HWCAPS_INDEX + 2;
    }
    X86_64_HWCAPS_INDEX + 3
}

/// Law: within the 32-bit family, each tier's required feature mask strictly
/// contains the previous tier's, so a machine that meets a tier also meets
/// every tier below it.
pub proof fn lemma_tier_requirements_monotonic_32()
    ensures
        forall|t: int|
            1 <= t <= 3 ==> (#[trigger] tier_mask_32(t - 1) & tier_mask_32(t)) == tier_mask_32(
                t - 1,
            ),
        forall|t: int| 1 <= t <= 3 ==> #[trigger] tier_mask_32(t - 1) != tier_mask_32(t),
        forall|t: int, c: bool, edx: u32|
            1 <= t <= 3 && #[trigger] meets_tier_32(t, c, edx) ==> meets_tier_32(t - 1, c, edx),
{
    assert((0u32 & I486_HWCAPS) == 0u32 && 0u32 != I486_HWCAPS) by (bit_vector);
    assert((I486_HWCAPS & I586_HWCAPS) == I486_HWCAPS && I486_HWCAPS != I586_HWCAPS)
        by (bit_vector);
    assert((I586_HWCAPS & I686_HWCAPS) == I586_HWCAPS && I586_HWCAPS != I686_HWCAPS)
        by (bit_vector);
    assert(forall|edx: u32|
        #[trigger] (edx & I586_HWCAPS) == I586_HWCAPS ==> edx & I486_HWCAPS == I486_HWCAPS)
        by (bit_vector);
    assert(forall|edx: u32|
        #[trigger] (edx & I686_HWCAPS) == I686_HWCAPS ==> edx & I586_HWCAPS == I586_HWCAPS)
        by (bit_vector);
}

/// Law: within the 64-bit family, each tier's required feature set, taken
/// across all queried registers, strictly contains the previous tier's, so a
/// machine that meets a tier also meets every tier below it.
pub proof fn lemma_tier_requirements_monotonic_64()
    ensures
        (X86_64_V2_HWCAPS_01H_ECX & X86_64_V3_HWCAPS_01H_ECX) == X86_64_V2_HWCAPS_01H_ECX,
        (X86_64_V2_HWCAPS_80000001H_ECX & X86_64_V3_HWCAPS_80000001H_ECX)
            == X86_64_V2_HWCAPS_80000001H_ECX,
        (X86_64_V3_HWCAPS_07H_EBX & X86_64_V4_HWCAPS_07H_EBX) == X86_64_V3_HWCAPS_07H_EBX,
        X86_64_V2_HWCAPS_01H_ECX != 0,
        X86_64_V2_HWCAPS_01H_ECX != X86_64_V3_HWCAPS_01H_ECX,
        X86_64_V2_HWCAPS_80000001H_ECX != X86_64_V3_HWCAPS_80000001H_ECX,
        X86_64_V3_HWCAPS_07H_EBX != X86_64_V4_HWCAPS_07H_EBX,
        forall|t: int, mx: u32, ecx: u32, ext: u32, mb: u32, ebx: u32|
            5 <= t <= 7 && #[trigger] meets_tier_64(t, mx, ecx, ext, mb, ebx) ==> meets_tier_64(
                t - 1,
                mx,
                ecx,
                ext,
                mb,
                ebx,
            ),
{
    assert((X86_64_V2_HWCAPS_01H_ECX & X86_64_V3_HWCAPS_01H_ECX) == X86_64_V2_HWCAPS_01H_ECX
        && X86_64_V2_HWCAPS_01H_ECX != X86_64_V3_HWCAPS_01H_ECX && X86_64_V2_HWCAPS_01H_ECX
        != 0u32) by (bit_vector);
    assert((X86_64_V2_HWCAPS_80000001H_ECX & X86_64_V3_HWCAPS_80000001H_ECX)
        == X86_64_V2_HWCAPS_80000001H_ECX && X86_64_V2_HWCAPS_80000001H_ECX
        != X86_64_V3_HWCAPS_80000001H_ECX) by (bit_vector);
    assert((X86_64_V3_HWCAPS_07H_EBX & X86_64_V4_HWCAPS_07H_EBX) == X86_64_V3_HWCAPS_07H_EBX
        && X86_64_V3_HWCAPS_07H_EBX != X86_64_V4_HWCAPS_07H_EBX) by (bit_vector);
    assert(forall|ecx: u32|
        #[trigger] (ecx & X86_64_V3_HWCAPS_01H_ECX) == X86_64_V3_HWCAPS_01H_ECX ==> ecx
            & X86_64_V2_HWCAPS_01H_ECX == X86_64_V2_HWCAPS_01H_ECX) by (bit_vector);
    assert(forall|ext: u32|
        #[trigger] (ext & X86_64_V3_HWCAPS_80000001H_ECX) == X86_64_V3_HWCAPS_80000001H_ECX
            ==> ext & X86_64_V2_HWCAPS_80000001H_ECX == X86_64_V2_HWCAPS_80000001H_ECX)
        by (bit_vector);
    assert(forall|ebx: u32|
        #[trigger] (ebx & X86_64_V4_HWCAPS_07H_EBX) == X86_64_V4_HWCAPS_07H_EBX ==> ebx
            & X86_64_V3_HWCAPS_07H_EBX == X86_64_V3_HWCAPS_07H_EBX) by (bit_vector);
}

/// Law: the architecture names of two adjacent tiers of the same family have
/// equal length and differ in exactly one byte, the version digit, which sits
/// at the same offset in both names.
pub proof fn lemma_adjacent_names_differ_one_byte(t: int)
    requires
        1 <= t < TIER_COUNT,
        t != X86_64_HWCAPS_INDEX as int,
    ensures
        arch_name_seq(t).len() == arch_name_seq(t - 1).len(),
        version_index(t) == version_index(t - 1),
        arch_name_seq(t) =~= arch_name_seq(t - 1).update(version_index(t), spec_version_char(t)),
        arch_name_seq(t)[version_index(t)] != arch_name_seq(t - 1)[version_index(t)],
{
    assert(arch_name_seq(t) =~= arch_name_seq(t - 1).update(
        version_index(t),
        spec_version_char(t),
    ));
}

/// Law: across a full descending pass over the tiers, the architecture
/// name's family changes exactly once, when stepping down to the highest
/// 32-bit tier from the lowest 64-bit one.
pub proof fn lemma_arch_name_changes_once()
    ensures
        forall|t: u32| spec_arch_name_changed(t) <==> t == X86_64_HWCAPS_INDEX - 1,
{
}

} // verus!
