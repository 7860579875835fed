use vstd::prelude::*;

use crate::cache::{lemma_entry_is_final, run, spec_begin, spec_complete, CacheOp, DispatchCache, Lookup, Slot};
use crate::descriptor::ShapeTypeDescriptor;
use crate::dispatch::{
    decided,
    entry_result,
    spec_entry_result,
    CacheEntry,
    CacheKey,
    DispatchError,
    KernelHandle,
    Resolver,
};
use crate::flags::DispatchFlags;
use crate::tier::CapabilityTier;

verus! {

/// How a request for a kernel goes on after the cache is consulted.
pub enum Start {
    /// The key was resolved before: here is its result.
    Done(Result<KernelHandle, DispatchError>),
    /// Another caller is resolving the key: wait for it, then start again.
    Wait,
    /// This caller resolves the key: drive the resolver, then finish.
    Resolve(Resolver),
}

/// The key of a request on a machine of the given tier.
pub open spec fn key_of(
    descriptor: ShapeTypeDescriptor,
    flags: DispatchFlags,
    tier: CapabilityTier,
) -> CacheKey {
    CacheKey { descriptor, flags, tier }
}

/// Consults the cache for a descriptor and flags on a machine of the given
/// tier: a hit returns the cached result, an unseen key makes this caller
/// its single resolver.
pub fn start_resolve(
    cache: &mut DispatchCache,
    descriptor: ShapeTypeDescriptor,
    flags: DispatchFlags,
    tier: CapabilityTier,
) -> (r: Start)
    requires
        old(cache).wf(),
        descriptor.valid(),
    ensures
        final(cache).wf(),
        final(cache)@ == spec_begin(old(cache)@, key_of(descriptor, flags, tier)).0,
        match spec_begin(old(cache)@, key_of(descriptor, flags, tier)).1 {
            Lookup::Ready(e) => r == Start::Done(
                spec_entry_result(key_of(descriptor, flags, tier), e),
            ),
            Lookup::InFlight => r is Wait,
            Lookup::Resolve => r is Resolve && r->Resolve_0.wf() && r->Resolve_0.spec_key()
                == key_of(descriptor, flags, tier) && r->Resolve_0.spec_answers() == Seq::<
                Option<u64>,
            >::empty(),
        },
{
    let key = CacheKey { descriptor, flags, tier };
    match cache.begin(&key) {
        Lookup::Ready(e) => Start::Done(entry_result(&key, &e)),
        Lookup::InFlight => Start::Wait,
        Lookup::Resolve => Start::Resolve(Resolver::new(key)),
    }
}

/// Stores the outcome of a finished resolution and returns the result that
/// stands for its key.
pub fn finish_resolve(cache: &mut DispatchCache, resolver: &Resolver) -> (r: Result<
    KernelHandle,
    DispatchError,
>)
    requires
        old(cache).wf(),
        resolver.wf(),
        decided(resolver.spec_key(), resolver.spec_answers()) is Some,
    ensures
        final(cache).wf(),
        ({
            let key = resolver.spec_key();
            let stored = spec_complete(
                old(cache)@,
                key,
                decided(key, resolver.spec_answers())->Some_0,
            );
            final(cache)@ == stored.0 && r == spec_entry_result(key, stored.1)
        }),
{
    let key = resolver.key();
    let e = resolver.outcome().unwrap();
    let stored = cache.complete(&key, e);
    entry_result(&key, &stored)
}

/// Resolution is memoized: once the result of a key is stored, every later
/// request for that key, after any operations on the cache, is answered from
/// the cache with the entry stored, so the generator is not asked again.
pub proof fn lemma_resolve_is_memoized(
    m: Map<CacheKey, Slot>,
    key: CacheKey,
    e: CacheEntry,
    ops: Seq<CacheOp>,
)
    ensures
        ({
            let (m1, stored) = spec_complete(m, key, e);
            spec_begin(run(m1, ops), key).1 == Lookup::Ready(stored)
        }),
{
    let (m1, stored) = spec_complete(m, key, e);
    lemma_entry_is_final(m1, ops, key, stored);
}

} // verus!
