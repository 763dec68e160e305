use viewport_lib_particles::effect::{DEFAULT_CAPACITY, F32_HUNDRED};
use viewport_lib_particles::{
    Attribute, ColourKey, EffectAsset, EffectProgram, ExprHandle, F32Bits, Flipbook, ForceModifier,
    Gradient, ParticleBlend, ParticleRender, ParticleTextureId, PropertyValue, SizeKey, SpawnRate,
    SpawnShape, TextureMode, UpdateOp, VelocityDist, VIEWPORT_LIB_WGSL_VERSION,
};

fn b(v: f32) -> F32Bits {
    F32Bits(v.to_bits())
}

#[test]
fn asset_defaults() {
    let a = EffectAsset::default();
    assert_eq!(a.name, "effect");
    assert_eq!(a.capacity, DEFAULT_CAPACITY);
    assert_eq!(a.capacity, 10_000);
    assert_eq!(a.blend, ParticleBlend::Additive);
    assert_eq!(a.emitter.rate, SpawnRate::PerSecond(b(100.0)));
    assert_eq!(F32Bits(F32_HUNDRED), b(100.0));
    assert_eq!(a.emitter.lifetime, (b(1.0), b(2.0)));
    assert_eq!(a.emitter.spawn, SpawnShape::Point);
    assert_eq!(a.emitter.velocity, VelocityDist::Fixed([b(0.0), b(0.0), b(1.0)]));
    assert_eq!(a.emitter.colour, [b(1.0); 4]);
    assert_eq!(a.emitter.size, b(0.25));
    assert!(a.forces.is_empty());
    assert!(a.program.is_none() && a.gradient.is_none() && a.texture.is_none() && a.flipbook.is_none());
    assert_eq!(a.render, ParticleRender::Billboard { stretch: b(0.0) });
    assert_eq!(a.texture_mode, TextureMode::Modulate);
    assert!(!a.needs_depth_sort());
    assert_eq!(VIEWPORT_LIB_WGSL_VERSION, 6);
}

#[test]
fn asset_builders_set_one_field_each() {
    let a = EffectAsset::new("fountain".to_string())
        .with_capacity(256)
        .with_blend(ParticleBlend::Alpha)
        .force(ForceModifier::Accel([b(0.0), b(-9.8), b(0.0)]))
        .force(ForceModifier::Drag(b(0.2)))
        .with_render(ParticleRender::Trail { width: b(0.05), segments: 16 })
        .with_texture(ParticleTextureId(3))
        .with_texture_mode(TextureMode::ModulateAlphaFromR)
        .with_flipbook(Flipbook::new(4, 4).with_fps(b(12.0)))
        .with_gradient(Gradient::new());
    assert_eq!(a.name, "fountain");
    assert_eq!(a.capacity, 256);
    assert_eq!(a.blend, ParticleBlend::Alpha);
    assert_eq!(a.forces.len(), 2);
    assert_eq!(a.forces[1], ForceModifier::Drag(b(0.2)));
    assert_eq!(a.texture, Some(ParticleTextureId(3)));
    assert_eq!(a.texture_mode, TextureMode::ModulateAlphaFromR);
    assert_eq!(a.flipbook, Some(Flipbook { columns: 4, rows: 4, fps: b(12.0) }));
    assert!(a.gradient.is_some());
    assert!(a.needs_depth_sort());
    assert!(EffectAsset::default().with_blend(ParticleBlend::Premultiplied).needs_depth_sort());
    assert_eq!(a.spawn_rate(), SpawnRate::PerSecond(b(100.0)));
    let burst = EffectProgram::new().with_rate(SpawnRate::Burst { count: 50 });
    let g = a.with_program(burst);
    assert_eq!(g.spawn_rate(), SpawnRate::Burst { count: 50 });
}

#[test]
fn program_builders_append_in_order() {
    let p = EffectProgram::new()
        .set(Attribute::Position, ExprHandle(0))
        .set(Attribute::Size, ExprHandle(1))
        .update(UpdateOp::Accelerate(ExprHandle(2)))
        .property("tint".to_string(), PropertyValue::Vec4([b(1.0); 4]))
        .with_lifetime("0.25".to_string(), "0.75".to_string());
    assert_eq!(p.init.len(), 2);
    assert_eq!(p.init[1].attribute, Attribute::Size);
    assert_eq!(p.update, vec![UpdateOp::Accelerate(ExprHandle(2))]);
    assert_eq!(p.properties[0].name, "tint");
    assert_eq!(p.lifetime.min, "0.25");
    assert_eq!(p.lifetime.max, "0.75");
    let d = EffectProgram::default();
    assert_eq!(d.lifetime.min, "1.0");
    assert_eq!(d.lifetime.max, "2.0");
    assert_eq!(d.rate, SpawnRate::PerSecond(b(100.0)));
}

#[test]
fn property_values_pack_into_vec4_lanes() {
    assert_eq!(PropertyValue::F32(b(2.0)).to_vec4(), [b(2.0), b(0.0), b(0.0), b(0.0)]);
    assert_eq!(
        PropertyValue::Vec3([b(1.0), b(2.0), b(3.0)]).to_vec4(),
        [b(1.0), b(2.0), b(3.0), b(0.0)]
    );
    assert_eq!(PropertyValue::Vec4([b(4.0); 4]).to_vec4(), [b(4.0); 4]);
}

#[test]
fn gradient_keys_replace_unless_empty() {
    let g = Gradient::new();
    assert_eq!(g.colour.len(), 2);
    assert_eq!(g.colour[1], ColourKey { t: b(1.0), rgb: [b(1.0); 3] });
    assert_eq!(g.size[0], SizeKey { t: b(0.0), scale: b(1.0) });
    let g = g.with_colour(vec![]).with_size(vec![SizeKey { t: b(0.0), scale: b(3.0) }]);
    assert_eq!(g.colour.len(), 2);
    assert_eq!(g.size, vec![SizeKey { t: b(0.0), scale: b(3.0) }]);
    let g = g.with_colour(vec![ColourKey { t: b(0.5), rgb: [b(1.0), b(0.0), b(0.0)] }]).with_size(vec![]);
    assert_eq!(g.colour.len(), 1);
    assert_eq!(g.size.len(), 1);
}

#[test]
fn flipbook_defaults_to_stretch() {
    let f = Flipbook::new(8, 2);
    assert_eq!((f.columns, f.rows, f.fps), (8, 2, b(0.0)));
    assert_eq!(f.with_fps(b(24.0)).fps, b(24.0));
}
