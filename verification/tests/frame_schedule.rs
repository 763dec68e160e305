use viewport_lib_particles::plugin::{
    burst_spawn_count, f32_to_f16, next_pow2, order_image, ramp_texels, rng_seed, route_vertex_count,
    select_drivers, sort_stage_image, sort_stages, workgroup_count, Driver, RampSample,
    SortStageParams, DEFAULT_DT_BITS,
};
use viewport_lib_particles::{
    EffectId, F32Bits, ItemFlags, MeshAlign, ParticleItem, ParticleItems, ParticleMeshId, ParticleRender,
};

fn b(v: f32) -> F32Bits {
    F32Bits(v.to_bits())
}

#[test]
fn next_pow2_is_the_smallest_cover() {
    assert_eq!(next_pow2(0), 1);
    assert_eq!(next_pow2(1), 1);
    assert_eq!(next_pow2(2), 2);
    assert_eq!(next_pow2(5), 8);
    assert_eq!(next_pow2(64), 64);
    assert_eq!(next_pow2(65), 128);
    assert_eq!(next_pow2(10_000), 16_384);
    assert_eq!(next_pow2(0x8000_0000), 0x8000_0000);
}

#[test]
fn workgroups_round_up_to_at_least_one() {
    assert_eq!(workgroup_count(0), 1);
    assert_eq!(workgroup_count(1), 1);
    assert_eq!(workgroup_count(64), 1);
    assert_eq!(workgroup_count(65), 2);
    assert_eq!(workgroup_count(10_000), 157);
    assert_eq!(workgroup_count(u32::MAX), 67_108_864);
}

#[test]
fn rng_seed_mixes_frame_and_effect() {
    assert_eq!(rng_seed(0, 0), 0);
    assert_eq!(rng_seed(0, 5), 5);
    assert_eq!(rng_seed(1, 0), 2_654_435_761);
    assert_eq!(rng_seed(2, 3), (2u32.wrapping_mul(2_654_435_761)).wrapping_add(3));
    assert_eq!(rng_seed((1u64 << 32) + 1, 0), 2_654_435_761);
}

#[test]
fn burst_fires_once() {
    let mut done = false;
    assert_eq!(burst_spawn_count(&mut done, 500), 500);
    assert!(done);
    assert_eq!(burst_spawn_count(&mut done, 500), 0);
    assert_eq!(burst_spawn_count(&mut done, 500), 0);
}

#[test]
fn first_visible_instance_drives_each_effect() {
    let mut items = ParticleItems::new();
    let mut hidden = ParticleItem::new(EffectId(0)).at([b(9.0); 3]);
    hidden.settings.hidden = true;
    items.push(hidden);
    let mut first = ParticleItem::new(EffectId(0)).at([b(1.0), b(2.0), b(3.0)]);
    first.settings = ItemFlags { hidden: false, pick_id: (7u64 << 32) + 42, selected: true, cast_shadows: false };
    items.push(first);
    items.push(ParticleItem::new(EffectId(0)).at([b(4.0); 3]));
    items.push(ParticleItem::new(EffectId(2)));
    items.push(ParticleItem::new(EffectId(9)));
    let d = select_drivers(items.items(), 3);
    assert_eq!(d.len(), 3);
    assert_eq!(
        d[0],
        Some(Driver { position: [b(1.0), b(2.0), b(3.0)], pick_id: 42, selected: true, cast_shadows: false })
    );
    assert_eq!(d[1], None);
    assert_eq!(d[2], Some(Driver { position: [b(0.0); 3], pick_id: 0, selected: false, cast_shadows: true }));
    assert_eq!(select_drivers(&[], 2), vec![None, None]);
}

#[test]
fn item_collection_defaults_and_builders() {
    let c = ParticleItems::new();
    assert_eq!(c.dt, F32Bits(DEFAULT_DT_BITS));
    assert_eq!(f32::from_bits(DEFAULT_DT_BITS), 1.0 / 60.0);
    assert!(c.sort_transparent);
    assert_eq!(c.len(), 0);
    let c = c.with_dt(b(0.5)).with_sort_transparent(false);
    assert_eq!(c.dt, b(0.5));
    assert!(!c.sort_transparent);
    let it = ParticleItem::new(EffectId(4));
    assert_eq!(it.settings, ItemFlags::default());
    assert!(it.settings.cast_shadows);
}

#[test]
fn bitonic_stages_for_eight() {
    let s = sort_stages(8);
    let pairs: Vec<(u32, u32)> = s.iter().map(|p| (p.k, p.j)).collect();
    assert_eq!(pairs, vec![(2, 1), (4, 2), (4, 1), (8, 4), (8, 2), (8, 1)]);
    assert!(s.iter().all(|p| p.n == 8 && p.pad == 0));
    assert_eq!(sort_stages(1).len(), 0);
    assert_eq!(sort_stages(0).len(), 0);
    assert_eq!(sort_stages(16_384).len(), 14 * 15 / 2);
    assert_eq!(sort_stages(6).len(), 3);
}

#[test]
fn stage_image_places_each_stage_at_its_stride() {
    let stages = vec![
        SortStageParams { k: 2, j: 1, n: 4, pad: 0 },
        SortStageParams { k: 4, j: 2, n: 4, pad: 0 },
    ];
    let img = sort_stage_image(&stages);
    assert_eq!(img.len(), 512);
    let ne = |ws: [u32; 4]| -> Vec<u8> { ws.iter().flat_map(|w| w.to_ne_bytes()).collect() };
    assert_eq!(&img[0..16], ne([2, 1, 4, 0]).as_slice());
    assert_eq!(&img[256..272], ne([4, 2, 4, 0]).as_slice());
    assert!(img[16..256].iter().all(|&x| x == 0));
    assert!(img[272..].iter().all(|&x| x == 0));
}

#[test]
fn order_image_is_identity() {
    let img = order_image(5);
    let expect: Vec<u8> = (0u32..5).flat_map(|i| i.to_ne_bytes()).collect();
    assert_eq!(img, expect);
    assert!(order_image(0).is_empty());
}

#[test]
fn draw_vertex_counts_per_route() {
    assert_eq!(route_vertex_count(ParticleRender::Billboard { stretch: b(1.0) }), Some(6));
    assert_eq!(
        route_vertex_count(ParticleRender::Mesh { mesh: ParticleMeshId(0), align: MeshAlign::Velocity }),
        None
    );
    assert_eq!(route_vertex_count(ParticleRender::Trail { width: b(0.1), segments: 0 }), Some(6));
    assert_eq!(route_vertex_count(ParticleRender::Trail { width: b(0.1), segments: 10 }), Some(60));
    assert_eq!(route_vertex_count(ParticleRender::Trail { width: b(0.1), segments: 1000 }), Some(138));
}

#[test]
fn half_floats_round_to_nearest() {
    let h = |v: f32| f32_to_f16(b(v));
    assert_eq!(h(0.0), 0x0000);
    assert_eq!(h(-0.0), 0x8000);
    assert_eq!(h(1.0), 0x3c00);
    assert_eq!(h(-2.0), 0xc000);
    assert_eq!(h(0.5), 0x3800);
    assert_eq!(h(65504.0), 0x7bff);
    assert_eq!(h(1.0e6), 0x7bff);
    assert_eq!(h(-1.0e6), 0xfbff);
    assert_eq!(h(f32::INFINITY), 0x7bff);
    assert_eq!(h(1.0e-8), 0x0000);
    assert_eq!(h(-1.0e-8), 0x8000);
    // Exactly halfway between two halves: ties go to the even mantissa.
    assert_eq!(h(1.0 + 1.0 / 2048.0), 0x3c00);
    assert_eq!(h(1.0 + 3.0 / 2048.0), 0x3c02);
    // Just above halfway rounds up.
    assert_eq!(h(1.0 + 1.0 / 2048.0 + 1.0 / 8192.0), 0x3c01);
    // Rounding can carry into the exponent.
    assert_eq!(h(2.0 - 1.0 / 4096.0), 0x4000);
    // ...and past the largest finite half.
    assert_eq!(h(65520.0), 0x7bff);
}

#[test]
fn ramp_texels_pack_rgb_then_size() {
    let samples = vec![
        RampSample { colour: [b(1.0), b(0.5), b(0.0)], size: b(2.0) },
        RampSample { colour: [b(0.0), b(0.0), b(1.0)], size: b(1.0) },
    ];
    assert_eq!(ramp_texels(&samples), vec![0x3c00, 0x3800, 0x0000, 0x4000, 0, 0, 0x3c00, 0x3c00]);
    assert!(ramp_texels(&[]).is_empty());
}
