//! The query to the executing processor.

use crate::report::{reports_avx, reports_avx2, supports_avx_and_avx2, FeatureReport};
use raw_cpuid::{CpuId, ExtendedFeatures, FeatureInfo};
use vstd::prelude::*;

verus! {

/// `raw_cpuid::CpuId`, the handle through which identification leaves are
/// read. Nothing is known of its contents.
#[verifier::external_type_specification]
#[verifier::external_body]
pub struct ExCpuId(CpuId);

/// `raw_cpuid::FeatureInfo`, the basic feature leaf as the processor answered
/// it. Nothing is known of its contents.
#[verifier::external_type_specification]
#[verifier::external_body]
pub struct ExFeatureInfo(FeatureInfo);

/// `raw_cpuid::ExtendedFeatures`, the extended feature leaf as the processor
/// answered it. Nothing is known of its contents.
#[verifier::external_type_specification]
#[verifier::external_body]
pub struct ExExtendedFeatures(ExtendedFeatures);

/// `CpuId::new` returns a handle on the executing processor. It is assumed
/// to return; nothing is claimed of the handle.
pub assume_specification[ CpuId::new ]() -> (cpuid: CpuId);

/// `CpuId::get_feature_info` reads the basic feature leaf, or gives `None`
/// where the processor does not offer it. Which of the two happens, and what
/// the leaf holds, depends on the processor: nothing is claimed of either.
pub assume_specification[ CpuId::get_feature_info ](cpuid: &CpuId) -> (info: Option<FeatureInfo>);

/// `CpuId::get_extended_feature_info` reads the extended feature leaf, or
/// gives `None` where the processor does not offer it. Nothing is claimed of
/// which happens nor of what the leaf holds.
pub assume_specification[ CpuId::get_extended_feature_info ](cpuid: &CpuId) -> (info: Option<
    ExtendedFeatures,
>);

/// The AVX bit of a basic feature leaf, as `FeatureInfo::has_avx` reads it.
pub uninterp spec fn leaf_avx(info: FeatureInfo) -> bool;

/// The AVX2 bit of an extended feature leaf, as `ExtendedFeatures::has_avx2`
/// reads it.
pub uninterp spec fn leaf_avx2(info: ExtendedFeatures) -> bool;

/// `FeatureInfo::has_avx` tells whether the leaf has the AVX bit set. It
/// looks at the bits that the leaf holds and at nothing else, so its answer
/// is a function of the leaf: that function is `leaf_avx`. Which leaves have
/// the bit is not claimed.
pub assume_specification[ FeatureInfo::has_avx ](info: &FeatureInfo) -> (flag: bool)
    ensures
        flag == leaf_avx(*info),
;

/// `ExtendedFeatures::has_avx2` tells whether the leaf has the AVX2 bit set.
/// It looks at the bits that the leaf holds and at nothing else, so its
/// answer is a function of the leaf: that function is `leaf_avx2`. Which
/// leaves have the bit is not claimed.
pub assume_specification[ ExtendedFeatures::has_avx2 ](info: &ExtendedFeatures) -> (flag: bool)
    ensures
        flag == leaf_avx2(*info),
;

/// Whether the processor's answer to the basic leaf query shows AVX. A query
/// that was not answered shows nothing.
pub open spec fn answers_avx(info: Option<FeatureInfo>) -> bool {
    match info {
        Some(leaf) => leaf_avx(leaf),
        None => false,
    }
}

/// Whether the processor's answer to the extended leaf query shows AVX2. A
/// query that was not answered shows nothing.
pub open spec fn answers_avx2(info: Option<ExtendedFeatures>) -> bool {
    match info {
        Some(leaf) => leaf_avx2(leaf),
        None => false,
    }
}

/// The verdict on the processor's two answers: AVX in the basic leaf and
/// AVX2 in the extended leaf, both of them.
pub open spec fn verdict_of_answers(
    basic: Option<FeatureInfo>,
    extended: Option<ExtendedFeatures>,
) -> bool {
    answers_avx(basic) && answers_avx2(extended)
}

/// Decodes the basic feature leaf as the processor answered it.
///
/// A leaf that was not answered stays missing. An answered leaf gives a
/// report with its AVX bit; that leaf carries no AVX2 bit, so none is claimed.
fn basic_leaf(info: Option<FeatureInfo>) -> (leaf: Option<FeatureReport>)
    ensures
        leaf is Some <==> info is Some,
        reports_avx(leaf) == answers_avx(info),
        !reports_avx2(leaf),
{
    match info {
        Some(info) => Some(FeatureReport { has_avx: info.has_avx(), has_avx2: false }),
        None => None,
    }
}

/// Decodes the extended feature leaf as the processor answered it.
///
/// A leaf that was not answered stays missing. An answered leaf gives a
/// report with its AVX2 bit; that leaf carries no AVX bit, so none is claimed.
fn extended_leaf(info: Option<ExtendedFeatures>) -> (leaf: Option<FeatureReport>)
    ensures
        leaf is Some <==> info is Some,
        reports_avx2(leaf) == answers_avx2(info),
        !reports_avx(leaf),
{
    match info {
        Some(info) => Some(FeatureReport { has_avx: false, has_avx2: info.has_avx2() }),
        None => None,
    }
}

/// Decodes the processor's two answers and combines them into the verdict.
fn verdict_of_leaves(
    basic: Option<FeatureInfo>,
    extended: Option<ExtendedFeatures>,
) -> (supported: bool)
    ensures
        supported == verdict_of_answers(basic, extended),
{
    let basic = basic_leaf(basic);
    let extended = extended_leaf(extended);
    supports_avx_and_avx2(basic, extended)
}

/// Tells whether the executing processor offers both AVX and AVX2.
///
/// The two leaves are read from the processor at the moment of the call, and
/// the answer is the verdict on them: `true` only where the basic leaf was
/// answered with AVX and the extended leaf with AVX2. A leaf that was not
/// answered counts against the feature, so the call always returns. What the
/// processor answers is not known here, so the contract says that the result
/// is the verdict on some pair of answers: the pair is the one just read.
pub fn has_avx_support() -> (supported: bool)
    ensures
        exists|basic: Option<FeatureInfo>, extended: Option<ExtendedFeatures>|
            supported == #[trigger] verdict_of_answers(basic, extended),
{
    let cpuid = CpuId::new();
    let basic = cpuid.get_feature_info();
    let extended = cpuid.get_extended_feature_info();
    verdict_of_leaves(basic, extended)
}

} // verus!
