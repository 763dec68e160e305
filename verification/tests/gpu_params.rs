use viewport_lib_particles::bytes::words_to_bytes;
use viewport_lib_particles::params::{
    build_emit_params, build_sim_params, draw_params, history_buffer_size, history_params, pack_force,
    particle_buffer_size,
    upload_buffer_size, DrawParams, GenParams, PickUniform, RefractParams, SortInitParams,
    HISTORY_LEN, MAX_FORCES,
};
use viewport_lib_particles::{
    Emitter, F32Bits, ForceModifier, MeshAlign, ParticleMeshId, ParticleRender, SpawnShape,
    VelocityDist,
};

fn b(v: f32) -> F32Bits {
    F32Bits(v.to_bits())
}

fn le_or_be(words: &[u32], bytes: &[u8]) -> bool {
    let le: Vec<u8> = words.iter().flat_map(|w| w.to_le_bytes()).collect();
    let be: Vec<u8> = words.iter().flat_map(|w| w.to_be_bytes()).collect();
    bytes == le.as_slice() || bytes == be.as_slice()
}

#[test]
fn word_images_follow_machine_byte_order() {
    let words = [0x0102_0304u32, 0xdead_beef, 0];
    let bytes = words_to_bytes(&words);
    assert_eq!(bytes.len(), 12);
    assert!(le_or_be(&words, &bytes));
    let ne: Vec<u8> = words.iter().flat_map(|w| w.to_ne_bytes()).collect();
    assert_eq!(bytes, ne);
    assert_ne!(bytes[0], bytes[3]);
}

#[test]
fn emit_params_pack_box_and_cone() {
    let e = Emitter {
        spawn: SpawnShape::Box { min: [b(-1.0), b(0.0), b(-2.0)], max: [b(1.0), b(3.0), b(2.0)] },
        velocity: VelocityDist::UniformCone {
            axis: [b(0.0), b(1.0), b(0.0)],
            half_angle: b(0.5),
            min_speed: b(2.0),
            max_speed: b(4.0),
        },
        ..Emitter::default()
    };
    let p = build_emit_params(&e, [b(5.0), b(6.0), b(7.0)], 1000, 12, 99);
    assert_eq!(p.origin, [b(5.0).0, b(6.0).0, b(7.0).0, 0]);
    assert_eq!(p.spawn_a, [b(-1.0).0, 0, b(-2.0).0, 0]);
    assert_eq!(p.spawn_b, [b(1.0).0, b(3.0).0, b(2.0).0, 0]);
    assert_eq!(p.vel_a, [0, b(1.0).0, 0, 0]);
    assert_eq!(p.vel_b, [b(0.5).0, b(2.0).0, b(4.0).0, 0]);
    assert_eq!(p.colour, [b(1.0).0; 4]);
    assert_eq!(p.misc, [b(1.0).0, b(2.0).0, b(0.25).0, 0]);
    assert_eq!(p.ctrl, [99, 12, 1000, 0]);
    assert_eq!(p.kinds, [1, 2, 0, 0]);
    let bytes = p.to_bytes();
    assert_eq!(bytes.len(), 9 * 16);
}

#[test]
fn emit_params_pack_point_fixed_and_sphere() {
    let e = Emitter::default();
    let p = build_emit_params(&e, [b(0.0); 3], 8, 0, 1);
    assert_eq!(p.kinds, [0, 0, 0, 0]);
    assert_eq!(p.spawn_a, [0; 4]);
    assert_eq!(p.vel_a, [0, 0, b(1.0).0, 0]);
    let sphere = Emitter { spawn: SpawnShape::Sphere { radius: b(2.0), volume: true }, ..e };
    let q = build_emit_params(&sphere, [b(0.0); 3], 8, 0, 1);
    assert_eq!(q.spawn_a, [b(2.0).0, b(1.0).0, 0, 0]);
    assert_eq!(q.kinds[0], 2);
    let shell = Emitter { spawn: SpawnShape::Sphere { radius: b(2.0), volume: false }, ..e };
    assert_eq!(build_emit_params(&shell, [b(0.0); 3], 8, 0, 1).spawn_a, [b(2.0).0, 0, 0, 0]);
}

#[test]
fn forces_pack_by_kind() {
    let a = pack_force(ForceModifier::Accel([b(0.0), b(-9.8), b(0.0)]));
    assert_eq!(a.data0, [0, b(-9.8).0, 0, 0]);
    assert_eq!(a.data1, [0; 4]);
    let d = pack_force(ForceModifier::Drag(b(0.5)));
    assert_eq!(d.data0, [0, 0, 0, b(1.0).0]);
    assert_eq!(d.data1, [0, 0, b(0.5).0, 0]);
    let p = pack_force(ForceModifier::PointAttractor {
        position: [b(1.0), b(2.0), b(3.0)],
        strength: b(-4.0),
        falloff: b(0.1),
    });
    assert_eq!(p.data0, [b(1.0).0, b(2.0).0, b(3.0).0, b(2.0).0]);
    assert_eq!(p.data1, [b(-4.0).0, b(0.1).0, 0, 0]);
    let c = pack_force(ForceModifier::CurlNoise { scale: b(0.3), strength: b(5.0), speed: b(1.0) });
    assert_eq!(c.data0, [0, 0, 0, b(3.0).0]);
    assert_eq!(c.data1, [b(0.3).0, b(5.0).0, b(1.0).0, 0]);
}

#[test]
fn sim_params_keep_at_most_eight_forces() {
    let forces: Vec<ForceModifier> = (0..10).map(|i| ForceModifier::Drag(b(i as f32))).collect();
    let p = build_sim_params(&forces, b(0.016));
    assert_eq!(p.forces.len(), MAX_FORCES);
    assert_eq!(p.misc, [b(0.016).0, 0, 0, b(8.0).0]);
    assert_eq!(p.forces[7].data1[2], b(7.0).0);
    let q = build_sim_params(&forces[..3], b(0.5));
    assert_eq!(q.misc[3], b(3.0).0);
    assert_eq!(q.forces[3].data0, [0; 4]);
    assert_eq!(q.forces[7].data1, [0; 4]);
    let none = build_sim_params(&[], b(0.5));
    assert_eq!(none.misc[3], 0);
    assert_eq!(none.to_bytes().len(), 16 + 8 * 32);
}

#[test]
fn draw_params_follow_render_route() {
    assert_eq!(
        draw_params(ParticleRender::Billboard { stretch: b(2.0) }),
        DrawParams { stretch: b(2.0).0, align: 0, trail_width: 0, trail_segments: 0 }
    );
    assert_eq!(
        draw_params(ParticleRender::Mesh { mesh: ParticleMeshId(3), align: MeshAlign::Random }),
        DrawParams { stretch: 0, align: 1, trail_width: 0, trail_segments: 0 }
    );
    assert_eq!(
        draw_params(ParticleRender::Mesh { mesh: ParticleMeshId(3), align: MeshAlign::Velocity }).align,
        0
    );
    let t = |s: u32| draw_params(ParticleRender::Trail { width: b(0.1), segments: s });
    assert_eq!(t(0).trail_segments, 1);
    assert_eq!(t(12).trail_segments, 12);
    assert_eq!(t(100).trail_segments, HISTORY_LEN - 1);
    assert_eq!(t(12).trail_width, b(0.1).0);
    let bytes = t(12).to_bytes();
    assert!(le_or_be(&[0, 0, b(0.1).0, 12], &bytes));
}

#[test]
fn history_head_cycles_through_the_ring() {
    assert_eq!(history_params(0, 10).head, 0);
    assert_eq!(history_params(25, 10).head, 1);
    assert_eq!(history_params((1u64 << 32) + 3, 10).head, 3);
    let h = history_params(47, 500);
    assert_eq!((h.head, h.capacity, h.history_len, h.pad), (23, 500, 24, 0));
    assert!(le_or_be(&[23, 500, 24, 0], &h.to_bytes()));
}

#[test]
fn per_frame_uniforms_lay_out_their_words() {
    let g = GenParams::new([b(1.0), b(2.0), b(3.0)], b(0.5), 7, 64, 1234);
    assert!(le_or_be(&[b(1.0).0, b(2.0).0, b(3.0).0, 0, b(0.5).0, 0, 7, 64, 1234, 0, 0, 0], &g.to_bytes()));
    let s = SortInitParams::new([b(1.0), b(0.0), b(-1.0)], 100, 128);
    assert!(le_or_be(&[b(1.0).0, 0, b(-1.0).0, 0, 100, 128, 0, 0], &s.to_bytes()));
    let p = PickUniform::new(42);
    assert!(le_or_be(&[42, 0, 0, 0], &p.to_bytes()));
    let r = RefractParams::new([b(0.5), b(0.5)], b(0.2), b(0.05), b(0.01), b(1.5));
    assert!(le_or_be(
        &[b(0.5).0, b(0.5).0, b(0.2).0, b(0.05).0, b(0.01).0, b(1.5).0, 0, 0],
        &r.to_bytes()
    ));
}

#[test]
fn buffer_sizes_have_a_floor() {
    assert_eq!(particle_buffer_size(0), 80);
    assert_eq!(particle_buffer_size(1), 80);
    assert_eq!(particle_buffer_size(10_000), 800_000);
    assert_eq!(particle_buffer_size(u32::MAX), u32::MAX as u64 * 80);
    assert_eq!(upload_buffer_size(0), 4);
    assert_eq!(upload_buffer_size(3), 4);
    assert_eq!(upload_buffer_size(12), 12);
    assert_eq!(history_buffer_size(0), 16);
    assert_eq!(history_buffer_size(1), 24 * 16);
    assert_eq!(history_buffer_size(1000), 1000 * 24 * 16);
    assert_eq!(history_buffer_size(u32::MAX), u32::MAX as u64 * 24 * 16);
}
