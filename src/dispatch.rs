use vstd::prelude::*;

use crate::descriptor::{Combination, ShapeTypeDescriptor};
use crate::flags::DispatchFlags;
use crate::tier::{rank, tier_of_rank, CapabilityTier};

verus! {

/// What a resolution is memoized under: descriptor, flags and the tier of the
/// machine.
#[derive(Clone, Copy, Debug, PartialEq, Eq, Structural, Hash)]
pub struct CacheKey {
    pub descriptor: ShapeTypeDescriptor,
    pub flags: DispatchFlags,
    pub tier: CapabilityTier,
}

/// The routine behind a kernel handle.
#[derive(Clone, Copy, Debug, PartialEq, Eq, Structural, Hash)]
pub enum Routine {
    /// Code the generator produced for `variant`; `slot` identifies the
    /// callable that the generator handed back.
    Generated { variant: CapabilityTier, slot: u64 },
    /// The portable reference routine.
    PortableFallback,
}

/// An immutable reference to an acquired routine, with what it was resolved for.
#[derive(Clone, Copy, Debug, PartialEq, Eq, Structural, Hash)]
pub struct KernelHandle {
    pub descriptor: ShapeTypeDescriptor,
    pub flags: DispatchFlags,
    pub tier: CapabilityTier,
    pub routine: Routine,
}

/// Why a key has no kernel.
#[derive(Clone, Copy, Debug, PartialEq, Eq, Structural, Hash)]
pub enum UnsupportedReason {
    /// The machine's tier is below the minimum the combination needs, and the
    /// combination has no portable fallback.
    BelowMinimumTier,
    /// The generator accepted no candidate variant, and the combination has no
    /// portable fallback. A declined request is taken as permanent: it is not
    /// told apart from a passing failure of the generator, and is not retried.
    NoVariantAccepted,
}

/// The final outcome of resolving a key.
#[derive(Clone, Copy, Debug, PartialEq, Eq, Structural, Hash)]
pub enum CacheEntry {
    Resolved(KernelHandle),
    PermanentlyUnsupported(UnsupportedReason),
}

/// An error of dispatch.
#[derive(Clone, Copy, Debug, PartialEq, Eq, Structural, Hash)]
pub enum DispatchError {
    /// No candidate variant and no fallback exists for this key.
    Unsupported { descriptor: ShapeTypeDescriptor, flags: DispatchFlags, tier: CapabilityTier },
}

/// One step of a resolution.
#[derive(Clone, Copy, Debug, PartialEq, Eq, Structural, Hash)]
pub enum Action {
    /// Ask the generator for the variant of this tier.
    TryGenerate(CapabilityTier),
    /// The resolution is over with this entry.
    Finish(CacheEntry),
}

/// The oldest tier on which a combination is attempted.
pub open spec fn spec_min_tier(c: Combination) -> CapabilityTier {
    match c {
        Combination::F32 => CapabilityTier::Baseline,
        Combination::F64 => CapabilityTier::Baseline,
        Combination::Int8 => CapabilityTier::Mid,
        Combination::Uint8Int8 => CapabilityTier::Mid,
        Combination::Bf16 => CapabilityTier::High,
    }
}

/// Whether a combination has a portable fallback routine.
pub open spec fn spec_has_fallback(c: Combination) -> bool {
    c == Combination::F32
}

/// The oldest tier on which a combination is attempted.
pub fn min_tier(c: Combination) -> (r: CapabilityTier)
    ensures
        r == spec_min_tier(c),
{
    match c {
        Combination::F32 => CapabilityTier::Baseline,
        Combination::F64 => CapabilityTier::Baseline,
        Combination::Int8 => CapabilityTier::Mid,
        Combination::Uint8Int8 => CapabilityTier::Mid,
        Combination::Bf16 => CapabilityTier::High,
    }
}

/// Whether a combination has a portable fallback routine.
pub fn has_fallback(c: Combination) -> (r: bool)
    ensures
        r == spec_has_fallback(c),
{
    match c {
        Combination::F32 => true,
        _ => false,
    }
}

/// The variants offered to the generator, newest first: every tier from the
/// machine's tier down to the minimum; none when the machine is below it.
pub open spec fn spec_candidates(tier: CapabilityTier, min: CapabilityTier) -> Seq<CapabilityTier> {
    if rank(tier) < rank(min) {
        Seq::empty()
    } else {
        Seq::new(
            (rank(tier) - rank(min) + 1) as nat,
            |i: int| tier_of_rank((rank(tier) - i) as nat),
        )
    }
}

/// The variants offered to the generator for a key.
pub open spec fn candidates_for(key: CacheKey) -> Seq<CapabilityTier> {
    spec_candidates(key.tier, spec_min_tier(key.descriptor.spec_combination()))
}

/// The variants offered to the generator, newest first.
pub fn candidate_tiers(tier: CapabilityTier, min: CapabilityTier) -> (r: Vec<CapabilityTier>)
    ensures
        r@ == spec_candidates(tier, min),
{
    let mut v: Vec<CapabilityTier> = Vec::new();
    if !tier.at_least(&min) {
        assert(v@ =~= spec_candidates(tier, min));
        return v;
    }
    let ghost want = spec_candidates(tier, min);
    let top = tier.rank();
    let low = min.rank();
    let mut t = tier;
    proof {
        crate::tier::lemma_rank_identifies(tier);
        crate::tier::lemma_rank_identifies(min);
    }
    while t.rank() > low
        invariant
            rank(tier) >= rank(min),
            top as nat == rank(tier),
            low as nat == rank(min),
            rank(min) <= rank(t) <= rank(tier),
            rank(tier) <= 3,
            t == tier_of_rank(rank(t)),
            v@.len() == rank(tier) - rank(t),
            want == spec_candidates(tier, min),
            v@ == want.take(v@.len() as int),
        decreases rank(t),
    {
        proof {
            assert(want[v@.len() as int] == t);
        }
        v.push(t);
        proof {
            assert(v@ =~= want.take(v@.len() as int));
        }
        let older = t.older();
        match older {
            Some(o) => {
                t = o;
            },
            None => {
                assert(false);
            },
        }
    }
    proof {
        assert(want[v@.len() as int] == t);
    }
    v.push(t);
    assert(v@ =~= want);
    v
}

/// The handle a key gets for a routine.
pub open spec fn handle_for(key: CacheKey, routine: Routine) -> KernelHandle {
    KernelHandle {
        descriptor: key.descriptor,
        flags: key.flags,
        tier: key.tier,
        routine,
    }
}

/// The entry of a key once no candidate variant is left to try.
pub open spec fn fallback_entry(key: CacheKey) -> CacheEntry {
    if spec_has_fallback(key.descriptor.spec_combination()) {
        CacheEntry::Resolved(handle_for(key, Routine::PortableFallback))
    } else if candidates_for(key).len() == 0 {
        CacheEntry::PermanentlyUnsupported(UnsupportedReason::BelowMinimumTier)
    } else {
        CacheEntry::PermanentlyUnsupported(UnsupportedReason::NoVariantAccepted)
    }
}

/// The outcome decided by the generator's answers from candidate `i` on:
/// the first accepted candidate wins; when every candidate is declined the
/// fallback entry stands; while candidates remain unanswered, nothing is
/// decided yet.
pub open spec fn decided_from(key: CacheKey, answers: Seq<Option<u64>>, i: nat) -> Option<
    CacheEntry,
>
    decreases answers.len() - i,
{
    let cands = candidates_for(key);
    if i >= cands.len() {
        Some(fallback_entry(key))
    } else if i >= answers.len() {
        None
    } else {
        match answers[i as int] {
            Some(slot) => Some(
                CacheEntry::Resolved(
                    handle_for(key, Routine::Generated { variant: cands[i as int], slot }),
                ),
            ),
            None => decided_from(key, answers, i + 1),
        }
    }
}

/// The outcome decided by the generator's answers to the candidates, in order.
pub open spec fn decided(key: CacheKey, answers: Seq<Option<u64>>) -> Option<CacheEntry> {
    decided_from(key, answers, 0)
}

/// What a resolution does next, given the answers so far.
pub open spec fn spec_next_action(key: CacheKey, answers: Seq<Option<u64>>) -> Action {
    match decided(key, answers) {
        Some(e) => Action::Finish(e),
        None => Action::TryGenerate(candidates_for(key)[answers.len() as int]),
    }
}

proof fn lemma_decided_skip(key: CacheKey, a: Seq<Option<u64>>, i: nat, j: nat)
    requires
        i <= j <= a.len(),
        j <= candidates_for(key).len(),
        forall|x: int| i <= x < j ==> a[x].is_none(),
    ensures
        decided_from(key, a, i) == decided_from(key, a, j),
    decreases j - i,
{
    if i < j {
        lemma_decided_skip(key, a, i + 1, j);
    }
}

proof fn lemma_generated_from(
    key: CacheKey,
    a: Seq<Option<u64>>,
    i: nat,
    variant: CapabilityTier,
    slot: u64,
)
    requires
        decided_from(key, a, i) == Some(
            CacheEntry::Resolved(handle_for(key, Routine::Generated { variant, slot })),
        ),
    ensures
        exists|x: int|
            i <= x < a.len() && x < candidates_for(key).len() && a[x] == Some(slot)
                && candidates_for(key)[x] == variant && forall|y: int|
                i <= y < x ==> #[trigger] a[y].is_none(),
    decreases a.len() - i,
{
    if i < candidates_for(key).len() && i < a.len() {
        if a[i as int].is_none() {
            lemma_generated_from(key, a, i + 1, variant, slot);
            let x = choose|x: int|
                i + 1 <= x < a.len() && x < candidates_for(key).len() && a[x] == Some(slot)
                    && candidates_for(key)[x] == variant && forall|y: int|
                    i + 1 <= y < x ==> #[trigger] a[y].is_none();
            assert forall|y: int| i <= y < x implies #[trigger] a[y].is_none() by {
                if y > i {
                    assert(i + 1 <= y < x);
                }
            }
        } else {
            assert(forall|y: int| i <= y < i ==> #[trigger] a[y].is_none());
        }
    }
}

/// The newest accepted variant wins: when a resolution ends with generated
/// code, the generator accepted that variant and declined every newer
/// candidate asked before it.
pub proof fn lemma_newest_accepted_wins(
    key: CacheKey,
    answers: Seq<Option<u64>>,
    variant: CapabilityTier,
    slot: u64,
)
    requires
        decided(key, answers) == Some(
            CacheEntry::Resolved(handle_for(key, Routine::Generated { variant, slot })),
        ),
    ensures
        exists|x: int|
            0 <= x < answers.len() && x < candidates_for(key).len() && answers[x] == Some(slot)
                && candidates_for(key)[x] == variant && forall|y: int|
                0 <= y < x ==> #[trigger] answers[y].is_none(),
{
    lemma_generated_from(key, answers, 0, variant, slot);
}

/// The result a caller gets for an entry of a key.
pub open spec fn spec_entry_result(key: CacheKey, e: CacheEntry) -> Result<
    KernelHandle,
    DispatchError,
> {
    match e {
        CacheEntry::Resolved(h) => Ok(h),
        CacheEntry::PermanentlyUnsupported(_) => Err(
            DispatchError::Unsupported {
                descriptor: key.descriptor,
                flags: key.flags,
                tier: key.tier,
            },
        ),
    }
}

/// The result a caller gets for the entry of a key.
pub fn entry_result(key: &CacheKey, e: &CacheEntry) -> (r: Result<KernelHandle, DispatchError>)
    ensures
        r == spec_entry_result(*key, *e),
{
    match e {
        CacheEntry::Resolved(h) => Ok(*h),
        CacheEntry::PermanentlyUnsupported(_) => Err(
            DispatchError::Unsupported {
                descriptor: key.descriptor,
                flags: key.flags,
                tier: key.tier,
            },
        ),
    }
}

/// The decisions of one resolution of a key: which variants to ask the
/// generator for, in which order, and what entry results.
pub struct Resolver {
    key: CacheKey,
    candidates: Vec<CapabilityTier>,
    answers: Ghost<Seq<Option<u64>>>,
    asked: usize,
    outcome: Option<CacheEntry>,
}

impl Resolver {
    /// The key being resolved.
    pub closed spec fn spec_key(&self) -> CacheKey {
        self.key
    }

    /// The generator's answers so far, one per candidate asked.
    pub closed spec fn spec_answers(&self) -> Seq<Option<u64>> {
        self.answers@
    }

    /// The resolution's internal invariant.
    pub closed spec fn wf(&self) -> bool {
        &&& self.key.descriptor.valid()
        &&& self.candidates@ == candidates_for(self.key)
        &&& self.answers@.len() <= self.candidates@.len()
        &&& self.asked == self.answers@.len()
        &&& self.outcome == decided(self.key, self.answers@)
        &&& self.outcome.is_none() ==> {
            &&& self.answers@.len() < self.candidates@.len()
            &&& forall|x: int| 0 <= x < self.answers@.len() ==> self.answers@[x].is_none()
        }
    }

    /// Starts resolving a key, with no answer yet.
    pub fn new(key: CacheKey) -> (r: Resolver)
        requires
            key.descriptor.valid(),
        ensures
            r.wf(),
            r.spec_key() == key,
            r.spec_answers() == Seq::<Option<u64>>::empty(),
    {
        let c = key.descriptor.combination();
        let candidates = candidate_tiers(key.tier, min_tier(c));
        let outcome = if candidates.len() == 0 {
            Some(Self::fallback(&key))
        } else {
            None
        };
        Resolver { key, candidates, answers: Ghost(Seq::empty()), asked: 0, outcome }
    }

    fn fallback(key: &CacheKey) -> (r: CacheEntry)
        requires
            key.descriptor.valid(),
        ensures
            r == fallback_entry(*key),
    {
        let c = key.descriptor.combination();
        if has_fallback(c) {
            CacheEntry::Resolved(
                KernelHandle {
                    descriptor: key.descriptor,
                    flags: key.flags,
                    tier: key.tier,
                    routine: Routine::PortableFallback,
                },
            )
        } else {
            let cands = candidate_tiers(key.tier, min_tier(c));
            if cands.len() == 0 {
                CacheEntry::PermanentlyUnsupported(UnsupportedReason::BelowMinimumTier)
            } else {
                CacheEntry::PermanentlyUnsupported(UnsupportedReason::NoVariantAccepted)
            }
        }
    }

    /// What to do next: ask the generator for a variant, or finish.
    pub fn next_action(&self) -> (r: Action)
        requires
            self.wf(),
        ensures
            r == spec_next_action(self.spec_key(), self.spec_answers()),
    {
        match self.outcome {
            Some(e) => Action::Finish(e),
            None => Action::TryGenerate(self.candidates[self.asked]),
        }
    }

    /// The key being resolved.
    pub fn key(&self) -> (r: CacheKey)
        requires
            self.wf(),
        ensures
            r == self.spec_key(),
    {
        self.key
    }

    /// The entry, once the resolution is over.
    pub fn outcome(&self) -> (r: Option<CacheEntry>)
        requires
            self.wf(),
        ensures
            r == decided(self.spec_key(), self.spec_answers()),
    {
        self.outcome
    }

    /// Records the generator's answer for the variant that `next_action`
    /// asked for: the callable's slot, or `None` when it declined.
    pub fn record(&mut self, generated: Option<u64>)
        requires
            old(self).wf(),
            decided(old(self).spec_key(), old(self).spec_answers()).is_none(),
        ensures
            final(self).wf(),
            final(self).spec_key() == old(self).spec_key(),
            final(self).spec_answers() == old(self).spec_answers().push(generated),
    {
        let ghost a0 = self.answers@;
        let ghost a1 = a0.push(generated);
        let pos = self.asked;
        proof {
            assert forall|x: int| 0 <= x < a0.len() implies a1[x].is_none() by {
                assert(a1[x] == a0[x]);
            }
            lemma_decided_skip(self.key, a1, 0, a0.len());
            assert(a1[a0.len() as int] == generated);
            if a0.len() + 1 < self.candidates@.len() {
                assert(decided_from(self.key, a1, a0.len() + 1).is_none());
            }
        }
        self.answers = Ghost(a1);
        self.asked = pos + 1;
        match generated {
            Some(slot) => {
                let variant = self.candidates[pos];
                self.outcome = Some(
                    CacheEntry::Resolved(
                        KernelHandle {
                            descriptor: self.key.descriptor,
                            flags: self.key.flags,
                            tier: self.key.tier,
                            routine: Routine::Generated { variant, slot },
                        },
                    ),
                );
            },
            None => {
                if pos + 1 == self.candidates.len() {
                    self.outcome = Some(Self::fallback(&self.key));
                } else {
                    self.outcome = None;
                }
            },
        }
    }
}

} // verus!
