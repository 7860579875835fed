use gemm_dispatch::cache::{DispatchCache, Lookup, Slot};
use gemm_dispatch::descriptor::{
    combination_of, descriptor_new, Combination, Datatype, DescriptorInvariant,
    InvalidDescriptor, ShapeTypeDescriptor,
};
use gemm_dispatch::dispatch::{
    candidate_tiers, Action, CacheEntry, CacheKey, DispatchError, KernelHandle, Resolver,
    Routine, UnsupportedReason,
};
use gemm_dispatch::flags::DispatchFlags;
use gemm_dispatch::invoke::{check_buffers, reads_output, InvokeError, Operand};
use gemm_dispatch::resolve::{finish_resolve, start_resolve, Start};
use gemm_dispatch::tier::{tier_from_arch_id, CapabilityTier};

fn f32_desc(m: i32, n: i32, k: i32) -> ShapeTypeDescriptor {
    descriptor_new(m, n, k, m, k, m, Datatype::F32, Datatype::F32, Datatype::F32, Datatype::F32)
        .unwrap()
}

/// Resolves through the cache, asking `generator` for each variant and
/// counting its calls.
fn resolve(
    cache: &mut DispatchCache,
    d: ShapeTypeDescriptor,
    f: DispatchFlags,
    tier: CapabilityTier,
    generator: &dyn Fn(CapabilityTier) -> Option<u64>,
    calls: &mut u32,
) -> Result<KernelHandle, DispatchError> {
    match start_resolve(cache, d, f, tier) {
        Start::Done(r) => r,
        Start::Wait => panic!("no other caller is resolving"),
        Start::Resolve(mut resolver) => loop {
            match resolver.next_action() {
                Action::TryGenerate(t) => {
                    *calls += 1;
                    resolver.record(generator(t));
                }
                Action::Finish(_) => return finish_resolve(cache, &resolver),
            }
        },
    }
}

#[test]
fn negative_dimension_is_refused() {
    let r = descriptor_new(-1, 64, 64, 64, 64, 64, Datatype::F32, Datatype::F32, Datatype::F32, Datatype::F32);
    assert_eq!(r, Err(InvalidDescriptor { violated: DescriptorInvariant::PositiveDimensions }));
}

#[test]
fn stride_below_dimension_is_refused() {
    let r = descriptor_new(4, 4, 4, 2, 4, 4, Datatype::F32, Datatype::F32, Datatype::F32, Datatype::F32);
    assert_eq!(r, Err(InvalidDescriptor { violated: DescriptorInvariant::StridesCoverDimensions }));
    let r = descriptor_new(4, 4, 8, 4, 4, 4, Datatype::F32, Datatype::F32, Datatype::F32, Datatype::F32);
    assert_eq!(r, Err(InvalidDescriptor { violated: DescriptorInvariant::StridesCoverDimensions }));
}

#[test]
fn unknown_datatype_combination_is_refused() {
    let r = descriptor_new(4, 4, 4, 4, 4, 4, Datatype::F16, Datatype::F16, Datatype::F16, Datatype::F16);
    assert_eq!(r, Err(InvalidDescriptor { violated: DescriptorInvariant::RecognizedDatatypes }));
    assert_eq!(combination_of(Datatype::Bf16, Datatype::Bf16, Datatype::Bf16, Datatype::F32), None);
    assert_eq!(
        combination_of(Datatype::U8, Datatype::I8, Datatype::I32, Datatype::I32),
        Some(Combination::Uint8Int8)
    );
}

#[test]
fn dimension_error_comes_before_stride_error() {
    let r = descriptor_new(0, 4, 4, 0, 0, 0, Datatype::F16, Datatype::F16, Datatype::F16, Datatype::F16);
    assert_eq!(r, Err(InvalidDescriptor { violated: DescriptorInvariant::PositiveDimensions }));
}

#[test]
fn byte_size_and_lengths() {
    let d = f32_desc(64, 64, 64);
    assert_eq!(d.byte_size(), 3 * 64 * 64 * 4);
    let d = descriptor_new(2, 3, 5, 4, 6, 7, Datatype::Bf16, Datatype::Bf16, Datatype::F32, Datatype::F32).unwrap();
    assert_eq!(d.left_len(), 20);
    assert_eq!(d.right_len(), 18);
    assert_eq!(d.output_len(), 21);
    assert_eq!(d.byte_size(), 20 * 2 + 18 * 2 + 21 * 4);
    let big = i32::MAX;
    let d = descriptor_new(big, big, big, big, big, big, Datatype::F64, Datatype::F64, Datatype::F64, Datatype::F64).unwrap();
    assert_eq!(d.byte_size(), 3 * (big as u128) * (big as u128) * 8);
}

#[test]
fn dense_descriptor_and_shape_record() {
    let d = ShapeTypeDescriptor::dense(3, 4, 5, Combination::Bf16).unwrap();
    assert_eq!((d.lda, d.ldb, d.ldc), (3, 5, 3));
    let s = d.to_gemm_shape();
    assert_eq!((s.m, s.n, s.k), (3, 4, 5));
    assert_eq!((s.a_in_type, s.b_in_type, s.out_type, s.comp_type), (2, 2, 1, 1));
    assert!(ShapeTypeDescriptor::dense(0, 4, 5, Combination::F32).is_err());
}

#[test]
fn flags_encode_as_bits() {
    let f = DispatchFlags::none().with_beta_zero();
    assert_eq!(f.bits(), 4);
    let all = f.with_vnni_a().with_vnni_b().with_a_unsigned();
    assert_eq!(all.bits(), 4 | 256 | 2048 | 4096);
    assert_eq!(DispatchFlags::from_bits(all.bits()), all);
    assert_eq!(DispatchFlags::from_bits(1), DispatchFlags::none());
}

#[test]
fn arch_ids_map_to_tiers() {
    assert_eq!(tier_from_arch_id(1006), CapabilityTier::Baseline);
    assert_eq!(tier_from_arch_id(1101), CapabilityTier::Baseline);
    assert_eq!(tier_from_arch_id(1102), CapabilityTier::Mid);
    assert_eq!(tier_from_arch_id(1103), CapabilityTier::High);
    assert_eq!(tier_from_arch_id(1104), CapabilityTier::Top);
    assert_eq!(tier_from_arch_id(0), CapabilityTier::Baseline);
    assert_eq!(tier_from_arch_id(-1), CapabilityTier::Baseline);
    for t in [CapabilityTier::Baseline, CapabilityTier::Mid, CapabilityTier::High, CapabilityTier::Top] {
        assert_eq!(tier_from_arch_id(t.arch_id()), t);
    }
    assert!(CapabilityTier::Top.at_least(&CapabilityTier::High));
    assert!(!CapabilityTier::Mid.at_least(&CapabilityTier::High));
}

#[test]
fn candidates_run_newest_first() {
    assert_eq!(
        candidate_tiers(CapabilityTier::Top, CapabilityTier::Baseline),
        vec![CapabilityTier::Top, CapabilityTier::High, CapabilityTier::Mid, CapabilityTier::Baseline]
    );
    assert_eq!(
        candidate_tiers(CapabilityTier::Top, CapabilityTier::High),
        vec![CapabilityTier::Top, CapabilityTier::High]
    );
    assert_eq!(candidate_tiers(CapabilityTier::Baseline, CapabilityTier::High), vec![]);
}

#[test]
fn repeated_resolve_calls_generator_once() {
    let mut cache = DispatchCache::new();
    let d = f32_desc(64, 64, 64);
    let f = DispatchFlags::none().with_beta_zero();
    let mut calls = 0;
    let gen = |_t: CapabilityTier| Some(7u64);
    let first = resolve(&mut cache, d, f, CapabilityTier::High, &gen, &mut calls).unwrap();
    for _ in 0..16 {
        let again = resolve(&mut cache, d, f, CapabilityTier::High, &gen, &mut calls).unwrap();
        assert_eq!(again, first);
    }
    assert_eq!(calls, 1);
    assert_eq!(first.routine, Routine::Generated { variant: CapabilityTier::High, slot: 7 });
}

#[test]
fn many_callers_see_one_resolution() {
    let mut cache = DispatchCache::new();
    let d = f32_desc(64, 64, 64);
    let f = DispatchFlags::none().with_beta_zero();
    let key = CacheKey { descriptor: d, flags: f, tier: CapabilityTier::Baseline };
    let mut resolvers = 0;
    let mut waiters = 0;
    for _ in 0..8 {
        match cache.begin(&key) {
            Lookup::Resolve => resolvers += 1,
            Lookup::InFlight => waiters += 1,
            Lookup::Ready(_) => panic!("not resolved yet"),
        }
    }
    assert_eq!((resolvers, waiters), (1, 7));
    let h = KernelHandle { descriptor: d, flags: f, tier: CapabilityTier::Baseline, routine: Routine::Generated { variant: CapabilityTier::Baseline, slot: 1 } };
    assert_eq!(cache.complete(&key, CacheEntry::Resolved(h)), CacheEntry::Resolved(h));
    for _ in 0..8 {
        assert_eq!(cache.begin(&key), Lookup::Ready(CacheEntry::Resolved(h)));
    }
}

#[test]
fn stored_entry_is_never_replaced() {
    let mut cache = DispatchCache::new();
    let d = f32_desc(8, 8, 8);
    let key = CacheKey { descriptor: d, flags: DispatchFlags::none(), tier: CapabilityTier::Mid };
    let first = CacheEntry::PermanentlyUnsupported(UnsupportedReason::NoVariantAccepted);
    assert_eq!(cache.complete(&key, first), first);
    let h = KernelHandle { descriptor: d, flags: DispatchFlags::none(), tier: CapabilityTier::Mid, routine: Routine::PortableFallback };
    assert_eq!(cache.complete(&key, CacheEntry::Resolved(h)), first);
    assert_eq!(cache.lookup(&key), Some(Slot::Done(first)));
}

#[test]
fn flags_are_part_of_the_key() {
    let mut cache = DispatchCache::new();
    let d = f32_desc(16, 16, 16);
    let mut calls = 0;
    let gen = |_t: CapabilityTier| Some(3u64);
    let a = resolve(&mut cache, d, DispatchFlags::none(), CapabilityTier::Top, &gen, &mut calls).unwrap();
    let b = resolve(&mut cache, d, DispatchFlags::none().with_beta_zero(), CapabilityTier::Top, &gen, &mut calls).unwrap();
    assert_eq!(calls, 2);
    assert_ne!(a, b);
}

#[test]
fn bf16_on_baseline_is_unsupported() {
    let mut cache = DispatchCache::new();
    let d = descriptor_new(64, 64, 64, 64, 64, 64, Datatype::Bf16, Datatype::Bf16, Datatype::F32, Datatype::F32).unwrap();
    let f = DispatchFlags::none().with_beta_zero();
    let mut calls = 0;
    let gen = |t: CapabilityTier| if t == CapabilityTier::Top { Some(1u64) } else { None };
    let r = resolve(&mut cache, d, f, CapabilityTier::Baseline, &gen, &mut calls);
    assert_eq!(r, Err(DispatchError::Unsupported { descriptor: d, flags: f, tier: CapabilityTier::Baseline }));
    assert_eq!(calls, 0);
    let key = CacheKey { descriptor: d, flags: f, tier: CapabilityTier::Baseline };
    assert_eq!(
        cache.lookup(&key),
        Some(Slot::Done(CacheEntry::PermanentlyUnsupported(UnsupportedReason::BelowMinimumTier)))
    );
    let again = resolve(&mut cache, d, f, CapabilityTier::Baseline, &gen, &mut calls);
    assert_eq!(again, r);
}

#[test]
fn f32_without_generator_uses_fallback() {
    let mut cache = DispatchCache::new();
    let d = f32_desc(2, 2, 2);
    let f = DispatchFlags::none().with_beta_zero();
    let mut calls = 0;
    let gen = |_t: CapabilityTier| None;
    let h = resolve(&mut cache, d, f, CapabilityTier::Baseline, &gen, &mut calls).unwrap();
    assert_eq!(h.routine, Routine::PortableFallback);
    assert_eq!((h.descriptor, h.flags, h.tier), (d, f, CapabilityTier::Baseline));
    assert_eq!(calls, 1);
    assert!(!reads_output(&h));
}

#[test]
fn declined_int8_is_unsupported_after_every_variant() {
    let mut cache = DispatchCache::new();
    let d = descriptor_new(8, 8, 8, 8, 8, 8, Datatype::I8, Datatype::I8, Datatype::I32, Datatype::I32).unwrap();
    let mut calls = 0;
    let gen = |_t: CapabilityTier| None;
    let r = resolve(&mut cache, d, DispatchFlags::none(), CapabilityTier::Top, &gen, &mut calls);
    assert!(r.is_err());
    assert_eq!(calls, 3);
}

#[test]
fn newest_accepted_variant_wins() {
    let d = descriptor_new(8, 8, 8, 8, 8, 8, Datatype::Bf16, Datatype::Bf16, Datatype::F32, Datatype::F32).unwrap();
    let key = CacheKey { descriptor: d, flags: DispatchFlags::none(), tier: CapabilityTier::Top };
    let mut r = Resolver::new(key);
    assert_eq!(r.next_action(), Action::TryGenerate(CapabilityTier::Top));
    r.record(None);
    assert_eq!(r.next_action(), Action::TryGenerate(CapabilityTier::High));
    r.record(Some(42));
    let h = KernelHandle { descriptor: d, flags: DispatchFlags::none(), tier: CapabilityTier::Top, routine: Routine::Generated { variant: CapabilityTier::High, slot: 42 } };
    assert_eq!(r.next_action(), Action::Finish(CacheEntry::Resolved(h)));
    assert_eq!(r.outcome(), Some(CacheEntry::Resolved(h)));
}

#[test]
fn checked_invoke_reports_each_side() {
    let d = descriptor_new(2, 3, 4, 2, 4, 5, Datatype::F32, Datatype::F32, Datatype::F32, Datatype::F32).unwrap();
    let h = KernelHandle { descriptor: d, flags: DispatchFlags::none(), tier: CapabilityTier::Baseline, routine: Routine::PortableFallback };
    assert_eq!(check_buffers(&h, 8, 12, 15), Ok(()));
    assert_eq!(check_buffers(&h, 7, 12, 15), Err(InvokeError::BufferTooSmall { side: Operand::Left }));
    assert_eq!(check_buffers(&h, 8, 11, 15), Err(InvokeError::BufferTooSmall { side: Operand::Right }));
    assert_eq!(check_buffers(&h, 8, 12, 14), Err(InvokeError::BufferTooSmall { side: Operand::Output }));
    assert!(reads_output(&h));
}
