//! Decoded identification leaves and the rule that combines them.

use vstd::prelude::*;

verus! {

/// The vector-extension flags decoded from one identification leaf.
///
/// A flag that the leaf does not carry is reported clear.
#[derive(Clone, Copy, Debug, PartialEq, Eq, Structural)]
pub struct FeatureReport {
    /// The leaf says that the AVX instructions are available.
    pub has_avx: bool,
    /// The leaf says that the AVX2 instructions are available.
    pub has_avx2: bool,
}

/// Whether a leaf reports AVX. A leaf that could not be read reports nothing.
pub open spec fn reports_avx(leaf: Option<FeatureReport>) -> bool {
    match leaf {
        Some(report) => report.has_avx,
        None => false,
    }
}

/// Whether a leaf reports AVX2. A leaf that could not be read reports nothing.
pub open spec fn reports_avx2(leaf: Option<FeatureReport>) -> bool {
    match leaf {
        Some(report) => report.has_avx2,
        None => false,
    }
}

/// A leaf that reports no feature at all: one that could not be read, or one
/// that was answered with every flag clear.
pub open spec fn reports_nothing(leaf: Option<FeatureReport>) -> bool {
    !reports_avx(leaf) && !reports_avx2(leaf)
}

/// The verdict on a pair of leaves: AVX from the basic feature leaf and AVX2
/// from the extended feature leaf, both of them.
pub open spec fn avx_and_avx2(
    basic: Option<FeatureReport>,
    extended: Option<FeatureReport>,
) -> bool {
    reports_avx(basic) && reports_avx2(extended)
}

/// Combines the basic and the extended feature leaf into the verdict.
///
/// `None` stands for a leaf that the processor did not answer; it counts as
/// a leaf with every flag clear. AVX is read from the basic leaf alone and
/// AVX2 from the extended leaf alone.
///
/// Besides the verdict itself, the contract spells out its consequences:
/// without AVX in the basic leaf the answer is `false` whatever the extended
/// leaf holds; with AVX but without AVX2 in the extended leaf it is `false`;
/// with both it is `true`; and a leaf that is missing or blank makes it
/// `false`.
pub fn supports_avx_and_avx2(
    basic: Option<FeatureReport>,
    extended: Option<FeatureReport>,
) -> (supported: bool)
    ensures
        supported == avx_and_avx2(basic, extended),
        !reports_avx(basic) ==> !supported,
        reports_avx(basic) && !reports_avx2(extended) ==> !supported,
        reports_avx(basic) && reports_avx2(extended) ==> supported,
        reports_nothing(basic) || reports_nothing(extended) ==> !supported,
{
    let has_avx = match basic {
        Some(report) => report.has_avx,
        None => false,
    };
    let has_avx2 = match extended {
        Some(report) => report.has_avx2,
        None => false,
    };
    has_avx && has_avx2
}

/// The verdict depends on nothing but the AVX flag of the basic leaf and the
/// AVX2 flag of the extended leaf: two pairs of leaves that agree on these
/// get the same verdict, whatever else differs between them.
pub proof fn lemma_verdict_follows_flags(
    basic: Option<FeatureReport>,
    extended: Option<FeatureReport>,
    other_basic: Option<FeatureReport>,
    other_extended: Option<FeatureReport>,
)
    requires
        reports_avx(basic) == reports_avx(other_basic),
        reports_avx2(extended) == reports_avx2(other_extended),
    ensures
        avx_and_avx2(basic, extended) == avx_and_avx2(other_basic, other_extended),
{
}

} // verus!
