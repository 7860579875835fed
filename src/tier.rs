use vstd::prelude::*;

verus! {

/// Raw architecture identifier of AVX2 machines.
pub const ARCH_AVX2: i32 = 1006;

/// Raw architecture identifier of AVX-512 Skylake-X machines.
pub const ARCH_AVX512_SKX: i32 = 1101;

/// Raw architecture identifier of AVX-512 Cascade Lake machines (VNNI).
pub const ARCH_AVX512_CLX: i32 = 1102;

/// Raw architecture identifier of AVX-512 Cooper Lake machines (bf16).
pub const ARCH_AVX512_CPX: i32 = 1103;

/// Raw architecture identifier of Sapphire Rapids machines (AMX).
pub const ARCH_AVX512_SPR: i32 = 1104;

/// Successive CPU instruction-set generations relevant to matrix kernels,
/// from the oldest to the newest.
#[derive(Clone, Copy, Debug, PartialEq, Eq, Structural, Hash)]
pub enum CapabilityTier {
    /// Baseline vector extensions.
    Baseline,
    /// Vector extensions with integer dot-product (VNNI) support.
    Mid,
    /// Native low-precision floating-point (bf16) support.
    High,
    /// Matrix-extension (AMX) support.
    Top,
}

/// Position of a tier in the total order of tiers.
pub open spec fn rank(t: CapabilityTier) -> nat {
    match t {
        CapabilityTier::Baseline => 0,
        CapabilityTier::Mid => 1,
        CapabilityTier::High => 2,
        CapabilityTier::Top => 3,
    }
}

/// The tier of a given rank; ranks past the newest tier give the newest.
pub open spec fn tier_of_rank(r: nat) -> CapabilityTier {
    if r == 0 {
        CapabilityTier::Baseline
    } else if r == 1 {
        CapabilityTier::Mid
    } else if r == 2 {
        CapabilityTier::High
    } else {
        CapabilityTier::Top
    }
}

/// The tier that a raw architecture identifier stands for; identifiers that
/// are not recognized stand for the baseline tier.
pub open spec fn spec_tier_from_arch_id(raw: i32) -> CapabilityTier {
    if raw == ARCH_AVX512_CLX {
        CapabilityTier::Mid
    } else if raw == ARCH_AVX512_CPX {
        CapabilityTier::High
    } else if raw == ARCH_AVX512_SPR {
        CapabilityTier::Top
    } else {
        CapabilityTier::Baseline
    }
}

/// The raw architecture identifier used to request code for a tier.
pub open spec fn spec_arch_id_of(t: CapabilityTier) -> i32 {
    match t {
        CapabilityTier::Baseline => ARCH_AVX2,
        CapabilityTier::Mid => ARCH_AVX512_CLX,
        CapabilityTier::High => ARCH_AVX512_CPX,
        CapabilityTier::Top => ARCH_AVX512_SPR,
    }
}

impl CapabilityTier {
    /// The tier's position in the order of generations.
    pub fn rank(&self) -> (r: u8)
        ensures
            r as nat == rank(*self),
    {
        match self {
            CapabilityTier::Baseline => 0,
            CapabilityTier::Mid => 1,
            CapabilityTier::High => 2,
            CapabilityTier::Top => 3,
        }
    }

    /// Whether this tier is the same generation as `other` or a newer one.
    pub fn at_least(&self, other: &CapabilityTier) -> (r: bool)
        ensures
            r == (rank(*self) >= rank(*other)),
    {
        self.rank() >= other.rank()
    }

    /// The tier one generation older, if there is one.
    pub fn older(&self) -> (r: Option<CapabilityTier>)
        ensures
            rank(*self) == 0 ==> r.is_none(),
            rank(*self) > 0 ==> r == Some(tier_of_rank((rank(*self) - 1) as nat)),
    {
        match self {
            CapabilityTier::Baseline => None,
            CapabilityTier::Mid => Some(CapabilityTier::Baseline),
            CapabilityTier::High => Some(CapabilityTier::Mid),
            CapabilityTier::Top => Some(CapabilityTier::High),
        }
    }

    /// The raw architecture identifier used to request code for this tier.
    pub fn arch_id(&self) -> (r: i32)
        ensures
            r == spec_arch_id_of(*self),
    {
        match self {
            CapabilityTier::Baseline => ARCH_AVX2,
            CapabilityTier::Mid => ARCH_AVX512_CLX,
            CapabilityTier::High => ARCH_AVX512_CPX,
            CapabilityTier::Top => ARCH_AVX512_SPR,
        }
    }
}

/// Maps the identifier reported by the capability probe to a tier.
/// Unrecognized identifiers, including those a failed probe reports, give
/// the baseline tier.
pub fn tier_from_arch_id(raw: i32) -> (r: CapabilityTier)
    ensures
        r == spec_tier_from_arch_id(raw),
{
    if raw == ARCH_AVX512_CLX {
        CapabilityTier::Mid
    } else if raw == ARCH_AVX512_CPX {
        CapabilityTier::High
    } else if raw == ARCH_AVX512_SPR {
        CapabilityTier::Top
    } else {
        CapabilityTier::Baseline
    }
}

/// Ranks identify tiers: each tier is the tier of its own rank.
pub proof fn lemma_rank_identifies(t: CapabilityTier)
    ensures
        tier_of_rank(rank(t)) == t,
        rank(t) <= 3,
{
}

/// The identifier used to request code for a tier is read back as that tier.
pub proof fn lemma_arch_id_round_trip(t: CapabilityTier)
    ensures
        spec_tier_from_arch_id(spec_arch_id_of(t)) == t,
{
}

} // verus!
