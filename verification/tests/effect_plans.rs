use viewport_lib_particles::frame::{effect_layout, plan_draw, plan_effect_frame, DrawCall, DrawRoute, SimPass};
use viewport_lib_particles::params::{DrawParams, HistoryParams};
use viewport_lib_particles::plugin::{sort_stages, Driver};
use viewport_lib_particles::{
    EffectAsset, EffectProgram, F32Bits, ForceModifier, MeshAlign, ParticleBlend, ParticleMeshId,
    ParticleRender,
};

fn b(v: f32) -> F32Bits {
    F32Bits(v.to_bits())
}

fn driver() -> Driver {
    Driver { position: [b(1.0), b(2.0), b(3.0)], pick_id: 9, selected: false, cast_shadows: true }
}

#[test]
fn additive_billboards_keep_identity_order() {
    let a = EffectAsset::default().with_capacity(100);
    let l = effect_layout(&a);
    assert_eq!(l.order_len, 128);
    assert_eq!(l.draw, DrawParams { stretch: 0, align: 0, trail_width: 0, trail_segments: 0 });
    assert!(!l.generated);
    assert!(!l.trail);
    assert!(l.sort_stages.is_none());
}

#[test]
fn sorted_trails_lay_out_history_and_stages() {
    let a = EffectAsset::default()
        .with_capacity(1000)
        .with_blend(ParticleBlend::Alpha)
        .with_render(ParticleRender::Trail { width: b(0.1), segments: 40 })
        .with_program(EffectProgram::new());
    let l = effect_layout(&a);
    assert_eq!(l.order_len, 1024);
    assert_eq!(l.draw, DrawParams { stretch: 0, align: 0, trail_width: b(0.1).0, trail_segments: 23 });
    assert!(l.generated);
    assert!(l.trail);
    let stages = l.sort_stages.expect("alpha effects are sorted");
    assert_eq!(stages.len(), 55);
    assert_eq!(stages, sort_stages(1024));
}

#[test]
fn mesh_layout_carries_orientation() {
    let a = EffectAsset::default()
        .with_capacity(0)
        .with_render(ParticleRender::Mesh { mesh: ParticleMeshId(2), align: MeshAlign::Random });
    let l = effect_layout(&a);
    assert_eq!(l.order_len, 1);
    assert_eq!(l.draw.align, 1);
}

#[test]
fn fixed_effect_frame_packs_emitter_and_forces() {
    let a = EffectAsset::default()
        .with_capacity(130)
        .force(ForceModifier::Drag(b(0.5)));
    let f = plan_effect_frame(&a, 1, driver(), 7, b(0.25), 2, [b(0.0); 3], true);
    assert_eq!(f.pick.id, 9);
    assert_eq!(f.pick.pad, [0, 0, 0]);
    assert_eq!(f.groups, 3);
    assert!(f.history.is_none());
    assert!(f.sort.is_none(), "additive effects are never sorted");
    match f.pass {
        SimPass::Fixed { emit, sim } => {
            assert_eq!(emit.origin, [b(1.0).0, b(2.0).0, b(3.0).0, 0]);
            let seed = 2u32.wrapping_mul(2654435761).wrapping_add(1);
            assert_eq!(emit.ctrl, [seed, 7, 130, 0]);
            assert_eq!(sim.misc, [b(0.25).0, 0, 0, b(1.0).0]);
            assert_eq!(sim.forces[0].data1, [0, 0, b(0.5).0, 0]);
            assert_eq!(sim.forces.len(), 8);
        }
        SimPass::Generated(_) => panic!("an effect without a program runs the fixed kernels"),
    }
}

#[test]
fn generated_trail_frame_sorts_when_asked() {
    let a = EffectAsset::default()
        .with_capacity(600)
        .with_blend(ParticleBlend::Premultiplied)
        .with_render(ParticleRender::Trail { width: b(0.1), segments: 8 })
        .with_program(EffectProgram::new());
    let eye = [b(4.0), b(5.0), b(6.0)];
    let f = plan_effect_frame(&a, 0, driver(), 3, b(0.5), 49, eye, true);
    assert_eq!(f.groups, 10);
    assert_eq!(f.history, Some(HistoryParams { head: 1, capacity: 600, history_len: 24, pad: 0 }));
    let s = f.sort.expect("premultiplied effects are sorted");
    assert_eq!(s.eye, [b(4.0).0, b(5.0).0, b(6.0).0, 0]);
    assert_eq!((s.capacity, s.n), (600, 1024));
    match f.pass {
        SimPass::Generated(g) => {
            assert_eq!(g.origin, [b(1.0).0, b(2.0).0, b(3.0).0, 0]);
            assert_eq!((g.dt, g.time, g.spawn_count, g.capacity), (b(0.5).0, 0, 3, 600));
            assert_eq!(g.rng_seed, 49u32.wrapping_mul(2654435761));
        }
        SimPass::Fixed { .. } => panic!("an effect with a program runs its generated kernels"),
    }
    let unsorted = plan_effect_frame(&a, 0, driver(), 3, b(0.5), 49, eye, false);
    assert!(unsorted.sort.is_none());
}

#[test]
fn draw_calls_follow_route_and_blend() {
    let bb = EffectAsset::default().with_capacity(50);
    assert_eq!(
        plan_draw(&bb, None),
        Some(DrawCall { route: DrawRoute::Billboard, additive: true, indexed: false, count: 6, instances: 50 })
    );
    let mesh = EffectAsset::default()
        .with_capacity(20)
        .with_blend(ParticleBlend::Alpha)
        .with_render(ParticleRender::Mesh { mesh: ParticleMeshId(0), align: MeshAlign::Velocity });
    assert_eq!(plan_draw(&mesh, None), None);
    assert_eq!(
        plan_draw(&mesh, Some(36)),
        Some(DrawCall { route: DrawRoute::Mesh, additive: false, indexed: true, count: 36, instances: 20 })
    );
    let trail = EffectAsset::default()
        .with_capacity(5)
        .with_render(ParticleRender::Trail { width: b(0.2), segments: 0 });
    assert_eq!(
        plan_draw(&trail, Some(99)),
        Some(DrawCall { route: DrawRoute::Trail, additive: true, indexed: false, count: 6, instances: 5 })
    );
}
