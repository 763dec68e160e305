use viewport_lib_particles::codegen::{
    attribute_wgsl, find_attr, generate_emit, generate_program, generate_sim, is_well_formed,
    lower_block, lower_node, properties_struct, property_wgsl, push_decimal, Kind, EMIT_EPILOGUE, PARTICLE_STRUCT,
};
use viewport_lib_particles::{
    Attribute, EffectProgram, ExprHandle, F32Bits, Module, PropertyDecl, PropertyValue,
    SetAttribute, UpdateOp,
};

fn decl(name: &str, default: PropertyValue) -> PropertyDecl {
    PropertyDecl { name: name.to_string(), default }
}

#[test]
fn decimal_spelling() {
    let mut s = "v".to_string();
    push_decimal(&mut s, 0);
    assert_eq!(s, "v0");
    let mut s = String::new();
    push_decimal(&mut s, 4_294_967_295);
    assert_eq!(s, "4294967295");
    let mut s = String::new();
    push_decimal(&mut s, 1070);
    assert_eq!(s, "1070");
}

#[test]
fn attributes_resolve_per_kernel() {
    let n = |s: &str| s.to_string();
    assert_eq!(attribute_wgsl(&n("origin"), Kind::Emit), "params.origin.xyz");
    assert_eq!(attribute_wgsl(&n("origin"), Kind::Sim), "params.origin.xyz");
    assert_eq!(attribute_wgsl(&n("position"), Kind::Sim), "p.position");
    assert_eq!(attribute_wgsl(&n("velocity"), Kind::Sim), "p.velocity");
    assert_eq!(attribute_wgsl(&n("lifetime"), Kind::Sim), "p.lifetime");
    assert_eq!(attribute_wgsl(&n("age"), Kind::Sim), "(p.max_lifetime - p.lifetime)");
    assert_eq!(attribute_wgsl(&n("seed"), Kind::Sim), "p.seed");
    assert_eq!(attribute_wgsl(&n("position"), Kind::Emit), "vec3<f32>(0.0, 0.0, 0.0)");
    assert_eq!(attribute_wgsl(&n("velocity"), Kind::Emit), "vec3<f32>(0.0, 0.0, 0.0)");
    assert_eq!(attribute_wgsl(&n("age"), Kind::Emit), "0.0");
    assert_eq!(attribute_wgsl(&n("bogus"), Kind::Sim), "0.0");
}

#[test]
fn property_reads_swizzle_by_declared_type() {
    let props = vec![
        decl("gain", PropertyValue::F32(F32Bits(0))),
        decl("wind", PropertyValue::Vec3([F32Bits(0); 3])),
        decl("tint", PropertyValue::Vec4([F32Bits(0); 4])),
        decl("gain", PropertyValue::Vec4([F32Bits(0); 4])),
    ];
    assert_eq!(property_wgsl(&"gain".to_string(), &props), "props.gain.x");
    assert_eq!(property_wgsl(&"wind".to_string(), &props), "props.wind.xyz");
    assert_eq!(property_wgsl(&"tint".to_string(), &props), "props.tint");
    assert_eq!(property_wgsl(&"missing".to_string(), &props), "props.missing");
}

#[test]
fn properties_struct_lists_lanes_in_order() {
    assert_eq!(properties_struct(&[]), "struct Properties {\n    _pad: vec4<f32>,\n};\n");
    let props = vec![
        decl("a", PropertyValue::F32(F32Bits(0))),
        decl("b", PropertyValue::Vec3([F32Bits(0); 3])),
    ];
    assert_eq!(
        properties_struct(&props),
        "struct Properties {\n    a: vec4<f32>,\n    b: vec4<f32>,\n};\n"
    );
}

#[test]
fn nodes_lower_to_wgsl_expressions() {
    let mut m = Module::new();
    let a = m.lit("0.5".to_string()); // 0
    let v = m.lit_vec3("1.0".to_string(), "2.0".to_string(), "3.0".to_string()); // 1
    let r = m.rand(); // 2
    let ru = m.rand_unit(); // 3
    let add = m.add(a, r); // 4
    let sub = m.sub(a, r); // 5
    let mul = m.mul(v, a); // 6
    let div = m.div(v, a); // 7
    let cl = m.clamp(a, r, add); // 8
    let cr = m.cross(v, ru); // 9
    let nz = m.noise(v); // 10
    let cn = m.curl_noise(v); // 11
    let sp = m.splat3(a); // 12
    let props: Vec<PropertyDecl> = Vec::new();
    let low = |i: u32| lower_node(&m, i, Kind::Emit, &props);
    assert_eq!(low(a.0), "0.5");
    assert_eq!(low(v.0), "vec3<f32>(1.0, 2.0, 3.0)");
    assert_eq!(low(r.0), "rand01(&rng)");
    assert_eq!(low(ru.0), "rand_dir(&rng)");
    assert_eq!(low(add.0), "(v0 + v2)");
    assert_eq!(low(sub.0), "(v0 - v2)");
    assert_eq!(low(mul.0), "(v1 * v0)");
    assert_eq!(low(div.0), "(v1 / v0)");
    assert_eq!(low(cl.0), "clamp(v0, v2, v4)");
    assert_eq!(low(cr.0), "cross(v1, v3)");
    assert_eq!(low(nz.0), "value_noise(v1)");
    assert_eq!(low(cn.0), "curl_noise(v1)");
    assert_eq!(low(sp.0), "vec3<f32>(v0)");
}

#[test]
fn block_binds_reachable_nodes_once_children_first() {
    let mut m = Module::new();
    let a = m.lit("2.0".to_string()); // 0
    let _skip = m.lit("7.0".to_string()); // 1
    let r = m.rand(); // 2
    let s = m.mul(a, r); // 3
    let t = m.add(s, s); // 4
    let props: Vec<PropertyDecl> = Vec::new();
    let block = lower_block(&m, &[t], Kind::Emit, &props, "  ");
    assert_eq!(
        block,
        "  let v0 = 2.0;\n  let v2 = rand01(&rng);\n  let v3 = (v0 * v2);\n  let v4 = (v3 + v3);\n"
    );
}

#[test]
fn last_writer_wins() {
    let h = |i: u32| viewport_lib_particles::ExprHandle(i);
    let init = vec![
        SetAttribute { attribute: Attribute::Position, value: h(0) },
        SetAttribute { attribute: Attribute::Size, value: h(1) },
        SetAttribute { attribute: Attribute::Position, value: h(2) },
    ];
    assert_eq!(find_attr(&init, Attribute::Position), Some(h(2)));
    assert_eq!(find_attr(&init, Attribute::Size), Some(h(1)));
    assert_eq!(find_attr(&init, Attribute::Colour), None);
}

fn sample_program() -> EffectProgram {
    let mut m = Module::new();
    let origin = m.attr("origin".to_string()); // 0
    let dir = m.rand_unit(); // 1
    let speed = m.lit("4.0".to_string()); // 2
    let vel = m.mul(dir, speed); // 3
    let pos = m.attr("position".to_string()); // 4
    let pull = m.sub(origin, pos); // 5
    let gain = m.property("gain".to_string()); // 6
    let acc = m.mul(pull, gain); // 7
    let mut p = EffectProgram::new()
        .with_lifetime("0.5".to_string(), "1.5".to_string())
        .property("gain".to_string(), PropertyValue::F32(F32Bits(0x3f80_0000)))
        .set(Attribute::Position, origin)
        .set(Attribute::Velocity, vel)
        .update(UpdateOp::Accelerate(acc));
    p.module = m;
    p
}

#[test]
fn emit_kernel_fills_written_and_default_attributes() {
    let p = sample_program();
    let emit = generate_emit(&p);
    assert!(emit.starts_with(PARTICLE_STRUCT));
    assert!(emit.ends_with(EMIT_EPILOGUE));
    assert!(emit.contains("struct Properties {\n    gain: vec4<f32>,\n};\n"));
    assert!(emit.contains(
        "    let v0 = params.origin.xyz;\n    let v1 = rand_dir(&rng);\n    let v2 = 4.0;\n    let v3 = (v1 * v2);\n\n"
    ));
    assert!(!emit.contains("let v4"));
    assert!(emit.contains("p.position = v0;"));
    assert!(emit.contains("p.velocity = v3;"));
    assert!(emit.contains("let life0 = mix(0.5, 1.5, rand01(&rng));"));
    assert!(emit.contains("p.colour = vec4<f32>(vec3<f32>(1.0, 1.0, 1.0), 1.0);"));
    assert!(emit.contains("p.size = 0.1;"));
    assert!(emit.contains("fn emit_main("));
    assert!(emit.contains("fn rand_dir("));
}

#[test]
fn sim_kernel_sums_accelerations() {
    let p = sample_program();
    let sim = generate_sim(&p);
    assert!(sim.starts_with(PARTICLE_STRUCT));
    assert!(sim.contains(
        "    let v0 = params.origin.xyz;\n    let v4 = p.position;\n    let v5 = (v0 - v4);\n    let v6 = props.gain.x;\n    let v7 = (v5 * v6);\n"
    ));
    assert!(sim.contains("    var accel = vec3<f32>(0.0, 0.0, 0.0);\n    accel = accel + v7;\n"));
    assert!(sim.contains("fn sim_main("));
    assert!(!sim.contains("fn rand_dir("));
    let both = generate_program(&p);
    assert_eq!(both.emit, generate_emit(&p));
    assert_eq!(both.sim, sim);
}

#[test]
fn empty_program_uses_every_default() {
    let p = EffectProgram::new();
    let emit = generate_emit(&p);
    assert!(emit.contains("_pad: vec4<f32>"));
    assert!(emit.contains("p.position = params.origin.xyz;"));
    assert!(emit.contains("p.velocity = vec3<f32>(0.0, 0.0, 0.0);"));
    assert!(emit.contains("let life0 = mix(1.0, 2.0, rand01(&rng));"));
    let sim = generate_sim(&p);
    assert!(sim.contains("    var accel = vec3<f32>(0.0, 0.0, 0.0);\n\n    p.velocity"));
}

#[test]
fn well_formed_programs_only_use_handles_of_their_module() {
    assert!(is_well_formed(&EffectProgram::new()));
    assert!(is_well_formed(&sample_program()));
    let dangling_init = sample_program().set(Attribute::Size, ExprHandle(8));
    assert!(!is_well_formed(&dangling_init));
    let dangling_update = sample_program().update(UpdateOp::Accelerate(ExprHandle(99)));
    assert!(!is_well_formed(&dangling_update));
    let mut dangling_operand = sample_program();
    dangling_operand.module.add(ExprHandle(3), ExprHandle(40));
    assert!(!is_well_formed(&dangling_operand));
}
