//! The query to the processor that runs the tests.

use avx_probe::{has_avx_support, supports_avx_and_avx2, FeatureReport};
use raw_cpuid::CpuId;

#[test]
fn probe_agrees_with_the_leaves_of_this_processor() {
    let cpuid = CpuId::new();
    let has_avx = cpuid.get_feature_info().map_or(false, |info| info.has_avx());
    let has_avx2 = cpuid.get_extended_feature_info().map_or(false, |info| info.has_avx2());
    assert_eq!(has_avx_support(), has_avx && has_avx2);
}

#[test]
fn probe_agrees_with_the_rule_on_this_processor() {
    let cpuid = CpuId::new();
    let basic = cpuid
        .get_feature_info()
        .map(|info| FeatureReport { has_avx: info.has_avx(), has_avx2: false });
    let extended = cpuid
        .get_extended_feature_info()
        .map(|info| FeatureReport { has_avx: false, has_avx2: info.has_avx2() });
    assert_eq!(has_avx_support(), supports_avx_and_avx2(basic, extended));
}

#[test]
fn probe_gives_the_same_answer_each_time() {
    let first = has_avx_support();
    for _ in 0..100 {
        assert_eq!(has_avx_support(), first);
    }
}

#[test]
fn supported_processor_shows_both_flags() {
    let cpuid = CpuId::new();
    let has_avx = cpuid.get_feature_info().map_or(false, |info| info.has_avx());
    let has_avx2 = cpuid.get_extended_feature_info().map_or(false, |info| info.has_avx2());
    if has_avx_support() {
        assert!(has_avx);
        assert!(has_avx2);
    } else {
        assert!(!has_avx || !has_avx2);
    }
}
