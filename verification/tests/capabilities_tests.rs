use hwcaps_loader::capabilities::{arch_name_changed, format_arch_name, max_feature_level_32,
    max_feature_level_64, version_char, I486_HWCAPS, I586_HWCAPS, I686_HWCAPS,
    X86_64_V2_HWCAPS_01H_ECX, X86_64_V2_HWCAPS_80000001H_ECX, X86_64_V3_HWCAPS_01H_ECX,
    X86_64_V3_HWCAPS_07H_EBX, X86_64_V3_HWCAPS_80000001H_ECX, X86_64_V4_HWCAPS_07H_EBX};

fn name_of(tier: u32) -> (Vec<u8>, usize, usize) {
    let mut buf = vec![0u8; 16];
    let (vi, len) = format_arch_name(&mut buf, tier).unwrap();
    (buf[..len].to_vec(), vi, len)
}

#[test]
fn arch_names_by_tier() {
    assert_eq!(name_of(0), (b"i386".to_vec(), 1, 4));
    assert_eq!(name_of(1), (b"i486".to_vec(), 1, 4));
    assert_eq!(name_of(2), (b"i586".to_vec(), 1, 4));
    assert_eq!(name_of(3), (b"i686".to_vec(), 1, 4));
    assert_eq!(name_of(4), (b"x86-64-v1".to_vec(), 8, 9));
    assert_eq!(name_of(5), (b"x86-64-v2".to_vec(), 8, 9));
    assert_eq!(name_of(6), (b"x86-64-v3".to_vec(), 8, 9));
    assert_eq!(name_of(7), (b"x86-64-v4".to_vec(), 8, 9));
}

#[test]
fn format_arch_name_is_idempotent() {
    for tier in 0..8u32 {
        let first = name_of(tier);
        let second = name_of(tier);
        assert_eq!(first, second);
    }
}

#[test]
fn adjacent_names_differ_in_one_byte() {
    for tier in [1u32, 2, 3, 5, 6, 7] {
        let (hi, hi_vi, hi_len) = name_of(tier);
        let (lo, lo_vi, lo_len) = name_of(tier - 1);
        assert_eq!(hi_len, lo_len);
        assert_eq!(hi_vi, lo_vi);
        let differing: Vec<usize> = (0..hi_len).filter(|&i| hi[i] != lo[i]).collect();
        assert_eq!(differing, vec![hi_vi]);
    }
}

#[test]
fn format_arch_name_rejects_short_buffer() {
    let mut short = vec![7u8; 3];
    assert_eq!(format_arch_name(&mut short, 0), Err(()));
    assert_eq!(short, vec![7u8; 3]);
    let mut eight = vec![7u8; 8];
    assert_eq!(format_arch_name(&mut eight, 4), Err(()));
    assert_eq!(eight, vec![7u8; 8]);
    let mut four = vec![7u8; 4];
    assert_eq!(format_arch_name(&mut four, 3), Ok((1, 4)));
    assert_eq!(four, b"i686".to_vec());
}

#[test]
fn arch_name_changes_once_per_descent() {
    let mut changes: u32 = 0;
    for tier in (0..=7u32).rev() {
        if arch_name_changed(tier) {
            changes += 1;
            assert_eq!(tier, 3);
        }
    }
    assert_eq!(changes, 1);
    assert!(!arch_name_changed(0));
    assert!(!arch_name_changed(4));
    assert!(!arch_name_changed(7));
}

#[test]
fn version_chars_by_tier() {
    let expected = [b'3', b'4', b'5', b'6', b'1', b'2', b'3', b'4'];
    for tier in 0..8u32 {
        assert_eq!(version_char(tier), expected[tier as usize]);
    }
}

#[test]
fn feature_level_32_without_cpuid_is_baseline() {
    assert_eq!(max_feature_level_32(false, 0xFFFF_FFFF), 0);
    assert_eq!(max_feature_level_32(true, 0), 0);
}

#[test]
fn feature_level_32_climbs_tier_by_tier() {
    assert_eq!(max_feature_level_32(true, I486_HWCAPS), 1);
    assert_eq!(max_feature_level_32(true, I586_HWCAPS), 2);
    assert_eq!(max_feature_level_32(true, I686_HWCAPS), 3);
    assert_eq!(max_feature_level_32(true, 0xFFFF_FFFF), 3);
}

#[test]
fn feature_level_32_needs_the_full_tier_mask() {
    // CX8 without MMX is not enough for the i586 tier.
    let partial = I486_HWCAPS | (1u32 << 8);
    assert_eq!(max_feature_level_32(true, partial), 1);
}

#[test]
fn feature_level_64_without_extended_leaf_is_v1() {
    assert_eq!(max_feature_level_64(0x8000_0000, 0xFFFF_FFFF, 0xFFFF_FFFF, 7, 0xFFFF_FFFF), 4);
}

#[test]
fn feature_level_64_v2_when_leaf7_is_unreachable() {
    assert_eq!(
        max_feature_level_64(
            0x8000_0001,
            X86_64_V2_HWCAPS_01H_ECX,
            X86_64_V2_HWCAPS_80000001H_ECX,
            6,
            0
        ),
        5
    );
}

#[test]
fn feature_level_64_incomplete_v3_bits_stay_at_v2() {
    // AVX2 present but BMI2 absent: the v3 requirement is not met.
    let partial_ebx = X86_64_V3_HWCAPS_07H_EBX & !(1u32 << 8);
    assert_eq!(
        max_feature_level_64(
            0x8000_0001,
            X86_64_V3_HWCAPS_01H_ECX,
            X86_64_V3_HWCAPS_80000001H_ECX,
            7,
            partial_ebx
        ),
        5
    );
}

#[test]
fn feature_level_64_v3_and_v4() {
    assert_eq!(
        max_feature_level_64(
            0x8000_0001,
            X86_64_V3_HWCAPS_01H_ECX,
            X86_64_V3_HWCAPS_80000001H_ECX,
            7,
            X86_64_V3_HWCAPS_07H_EBX
        ),
        6
    );
    assert_eq!(
        max_feature_level_64(
            0x8000_0001,
            X86_64_V3_HWCAPS_01H_ECX,
            X86_64_V3_HWCAPS_80000001H_ECX,
            7,
            X86_64_V4_HWCAPS_07H_EBX
        ),
        7
    );
    assert_eq!(max_feature_level_64(0xFFFF_FFFF, 0xFFFF_FFFF, 0xFFFF_FFFF, 0xFFFF_FFFF, 0xFFFF_FFFF), 7);
}
