//! WGSL codegen for an effect's emit and simulate kernels.
//!
//! An [`EffectProgram`] compiles to two compute shaders. The emit kernel
//! recycles dead slots and runs the init modifiers to fill a new particle; the
//! simulate kernel runs the update modifiers, sums the accelerations,
//! integrates, and ages the particle. Both lower the reachable part of the
//! effect's expression [`Module`](crate::expr::Module) into WGSL `let`
//! bindings (one per node, in child-before-parent order) so shared
//! subexpressions and random draws evaluate exactly once.
//!
//! Each generator's contract gives its output as a spec function over
//! `Seq<char>` built from the same template pieces.

use vstd::prelude::*;
use vstd::string::*;

use crate::effect::{Attribute, EffectProgram, PropertyDecl, PropertyValue, SetAttribute, UpdateOp};
use crate::expr::{
    expr_children, is_child, lemma_path_extend, is_path, is_root, lemma_reachable_below_exact, operands_in_bounds,
    reachable_below, reaches, topologically_ordered, Expr, ExprHandle, Module,
};

verus! {

/// Particle and parameter struct declarations shared by both kernels.
pub const PARTICLE_STRUCT: &'static str = r#"
struct Particle {
    position: vec3<f32>,
    lifetime: f32,
    velocity: vec3<f32>,
    max_lifetime: f32,
    colour: vec4<f32>,
    size: f32,
    seed: f32,
    pad: vec2<f32>,
};

struct GenParams {
    origin: vec4<f32>,
    dt: f32,
    time: f32,
    spawn_count: u32,
    capacity: u32,
    rng_seed: u32,
    pad0: u32,
    pad1: u32,
    pad2: u32,
};
"#;

/// 3D gradient value noise and divergence-free curl noise helpers.
pub const NOISE_WGSL: &'static str = r#"
fn pn_hash33(p: vec3<f32>) -> vec3<f32> {
    var p3 = fract(p * vec3<f32>(0.1031, 0.1030, 0.0973));
    p3 += dot(p3, p3.yxz + 33.33);
    return fract((p3.xxy + p3.yxx) * p3.zyx) * 2.0 - 1.0;
}
fn value_noise(p: vec3<f32>) -> f32 {
    let i = floor(p);
    let f = fract(p);
    let u = f * f * (3.0 - 2.0 * f);
    let g000 = dot(pn_hash33(i + vec3<f32>(0.0, 0.0, 0.0)), f - vec3<f32>(0.0, 0.0, 0.0));
    let g100 = dot(pn_hash33(i + vec3<f32>(1.0, 0.0, 0.0)), f - vec3<f32>(1.0, 0.0, 0.0));
    let g010 = dot(pn_hash33(i + vec3<f32>(0.0, 1.0, 0.0)), f - vec3<f32>(0.0, 1.0, 0.0));
    let g110 = dot(pn_hash33(i + vec3<f32>(1.0, 1.0, 0.0)), f - vec3<f32>(1.0, 1.0, 0.0));
    let g001 = dot(pn_hash33(i + vec3<f32>(0.0, 0.0, 1.0)), f - vec3<f32>(0.0, 0.0, 1.0));
    let g101 = dot(pn_hash33(i + vec3<f32>(1.0, 0.0, 1.0)), f - vec3<f32>(1.0, 0.0, 1.0));
    let g011 = dot(pn_hash33(i + vec3<f32>(0.0, 1.0, 1.0)), f - vec3<f32>(0.0, 1.0, 1.0));
    let g111 = dot(pn_hash33(i + vec3<f32>(1.0, 1.0, 1.0)), f - vec3<f32>(1.0, 1.0, 1.0));
    let x00 = mix(g000, g100, u.x);
    let x10 = mix(g010, g110, u.x);
    let x01 = mix(g001, g101, u.x);
    let x11 = mix(g011, g111, u.x);
    return mix(mix(x00, x10, u.y), mix(x01, x11, u.y), u.z);
}
fn pn_potential(p: vec3<f32>) -> vec3<f32> {
    let o = vec3<f32>(31.416, 47.853, 12.793);
    return vec3<f32>(value_noise(p), value_noise(p + o), value_noise(p + 2.0 * o));
}
fn curl_noise(p: vec3<f32>) -> vec3<f32> {
    let e = 0.1;
    let dx = vec3<f32>(e, 0.0, 0.0);
    let dy = vec3<f32>(0.0, e, 0.0);
    let dz = vec3<f32>(0.0, 0.0, e);
    let x = (pn_potential(p + dy).z - pn_potential(p - dy).z)
          - (pn_potential(p + dz).y - pn_potential(p - dz).y);
    let y = (pn_potential(p + dz).x - pn_potential(p - dz).x)
          - (pn_potential(p + dx).z - pn_potential(p - dx).z);
    let z = (pn_potential(p + dx).y - pn_potential(p - dx).y)
          - (pn_potential(p + dy).x - pn_potential(p - dy).x);
    return vec3<f32>(x, y, z) / (2.0 * e);
}
"#;

/// Random helpers, emit kernel only.
pub const RNG_HELPERS: &'static str = r#"
fn hash_u32(x: u32) -> u32 {
    var v = x;
    v ^= v >> 16u;
    v = v * 0x7feb352du;
    v ^= v >> 15u;
    v = v * 0x846ca68bu;
    v ^= v >> 16u;
    return v;
}
fn rand01(state: ptr<function, u32>) -> f32 {
    *state = hash_u32(*state);
    return f32(*state) / 4294967295.0;
}
fn rand_dir(state: ptr<function, u32>) -> vec3<f32> {
    let z = rand01(state) * 2.0 - 1.0;
    let a = rand01(state) * 6.2831853;
    let r = sqrt(max(0.0, 1.0 - z * z));
    return vec3<f32>(r * cos(a), r * sin(a), z);
}
"#;

/// Emit kernel bindings, after the properties struct.
pub const EMIT_BINDINGS: &'static str = r#"
struct Budget { count: atomic<u32> };

@group(0) @binding(0) var<storage, read_write> particles: array<Particle>;
@group(0) @binding(1) var<uniform> params: GenParams;
@group(0) @binding(2) var<storage, read_write> budget: Budget;
@group(0) @binding(3) var<uniform> props: Properties;
"#;

/// Emit entry point up to the lowered init expressions.
pub const EMIT_PROLOGUE: &'static str = r#"
@compute @workgroup_size(64)
fn emit_main(@builtin(global_invocation_id) gid: vec3<u32>) {
    let i = gid.x;
    if (i >= params.capacity) { return; }
    if (particles[i].lifetime > 0.0) { return; }
    let claimed = atomicAdd(&budget.count, 1u);
    if (claimed >= params.spawn_count) { return; }
    var rng = hash_u32(params.rng_seed ^ (i * 747796405u) ^ (claimed * 2891336453u));
"#;

/// Emit: start of the particle fill, up to the position value.
pub const EMIT_POSITION: &'static str = r#"
    var p: Particle;
    p.position = "#;

/// Emit: between the position and velocity values.
pub const EMIT_VELOCITY: &'static str = r#";
    p.velocity = "#;

/// Emit: between the velocity and lifetime values.
pub const EMIT_LIFETIME: &'static str = r#";
    let life0 = "#;

/// Emit: between the lifetime and colour values.
pub const EMIT_COLOUR: &'static str = r#";
    p.lifetime = life0;
    p.max_lifetime = life0;
    p.colour = vec4<f32>("#;

/// Emit: between the colour and size values.
pub const EMIT_SIZE: &'static str = r#", 1.0);
    p.size = "#;

/// Emit: after the size value, to the end of the kernel.
pub const EMIT_EPILOGUE: &'static str = r#";
    p.seed = rand01(&rng);
    p.pad = vec2<f32>(0.0, 0.0);
    particles[i] = p;
}
"#;

/// Simulate kernel bindings, after the properties struct.
pub const SIM_BINDINGS: &'static str = r#"
@group(0) @binding(0) var<storage, read_write> particles: array<Particle>;
@group(0) @binding(1) var<uniform> params: GenParams;
@group(0) @binding(2) var<uniform> props: Properties;
"#;

/// Simulate entry point up to the lowered update expressions.
pub const SIM_PROLOGUE: &'static str = r#"
@compute @workgroup_size(64)
fn sim_main(@builtin(global_invocation_id) gid: vec3<u32>) {
    let i = gid.x;
    if (i >= arrayLength(&particles)) { return; }
    var p = particles[i];
    if (p.lifetime <= 0.0) { return; }
    let dt = params.dt;
"#;

/// Simulate: acceleration accumulator declaration.
pub const SIM_ACCEL: &'static str = r#"
    var accel = vec3<f32>(0.0, 0.0, 0.0);
"#;

/// Simulate: integration and ageing, to the end of the kernel.
pub const SIM_EPILOGUE: &'static str = r#"
    p.velocity = p.velocity + accel * dt;
    p.position = p.position + p.velocity * dt;
    p.lifetime = p.lifetime - dt;
    particles[i] = p;
}
"#;

/// A line break.
pub const NEWLINE: &'static str = r#"
"#;

/// Which kernel a lowering runs in. Governs how attribute reads resolve.
#[derive(Clone, Copy, Debug, PartialEq, Eq, Structural)]
pub enum Kind {
    /// The spawn kernel.
    Emit,
    /// The per-step simulate kernel.
    Sim,
}

/// The WGSL source for one compiled effect.
#[derive(Clone, Debug)]
pub struct GeneratedShaders {
    /// Emit compute shader source (entry point `emit_main`).
    pub emit: String,
    /// Simulate compute shader source (entry point `sim_main`).
    pub sim: String,
}

// ----------------------------------------------------------------------------
// The generated text, as spec functions.
// ----------------------------------------------------------------------------

/// The ASCII digit for `d` (0..=9).
pub open spec fn digit_char(d: nat) -> char {
    (48 + d) as char
}

/// Decimal spelling of `n`, without leading zeros.
pub open spec fn decimal(n: nat) -> Seq<char>
    decreases n,
{
    if n < 10 {
        seq![digit_char(n)]
    } else {
        decimal(n / 10).push(digit_char(n % 10))
    }
}

/// The WGSL name bound to node `i`: `v{i}`.
pub open spec fn var_text(i: u32) -> Seq<char> {
    "v"@ + decimal(i as nat)
}

/// What an attribute read lowers to in the given kernel. Attributes that are
/// not meaningful in the kernel resolve to a zero of the right shape.
pub open spec fn attribute_text(name: Seq<char>, kind: Kind) -> Seq<char> {
    if name == "origin"@ {
        "params.origin.xyz"@
    } else if kind == Kind::Sim && name == "position"@ {
        "p.position"@
    } else if kind == Kind::Sim && name == "velocity"@ {
        "p.velocity"@
    } else if kind == Kind::Sim && name == "lifetime"@ {
        "p.lifetime"@
    } else if kind == Kind::Sim && name == "age"@ {
        "(p.max_lifetime - p.lifetime)"@
    } else if kind == Kind::Sim && name == "seed"@ {
        "p.seed"@
    } else if name == "position"@ || name == "velocity"@ {
        "vec3<f32>(0.0, 0.0, 0.0)"@
    } else {
        "0.0"@
    }
}

/// The default value of the first property declared under `name`.
pub open spec fn property_lookup(props: Seq<PropertyDecl>, name: Seq<char>) -> Option<PropertyValue>
    decreases props.len(),
{
    if props.len() == 0 {
        None
    } else if props[0].name@ == name {
        Some(props[0].default)
    } else {
        property_lookup(props.drop_first(), name)
    }
}

/// A property read: the swizzle of its `vec4` uniform lane that matches the
/// declared type; an undeclared name reads the whole lane.
pub open spec fn property_text(name: Seq<char>, props: Seq<PropertyDecl>) -> Seq<char> {
    match property_lookup(props, name) {
        Some(PropertyValue::F32(_)) => "props."@ + name + ".x"@,
        Some(PropertyValue::Vec3(_)) => "props."@ + name + ".xyz"@,
        _ => "props."@ + name,
    }
}

/// One `vec4<f32>` field per declared property, in declaration order.
pub open spec fn property_fields_text(props: Seq<PropertyDecl>) -> Seq<char>
    decreases props.len(),
{
    if props.len() == 0 {
        seq![]
    } else {
        property_fields_text(props.drop_last()) + "    "@ + props.last().name@ + ": vec4<f32>,\n"@
    }
}

/// The `Properties` uniform struct. An empty set still declares one padding
/// lane, so the binding exists for every generated effect.
pub open spec fn properties_struct_text(props: Seq<PropertyDecl>) -> Seq<char> {
    "struct Properties {\n"@ + (if props.len() == 0 {
        "    _pad: vec4<f32>,\n"@
    } else {
        property_fields_text(props)
    }) + "};\n"@
}

/// `(v{a}` `op` `{b})`, where `op` is the operator with the second `v`.
pub open spec fn binary_text(a: u32, op: Seq<char>, b: u32) -> Seq<char> {
    "(v"@ + decimal(a as nat) + op + decimal(b as nat) + ")"@
}

/// `f(v{a})`, where `call` is the function name and `(v`.
pub open spec fn call1_text(call: Seq<char>, a: u32) -> Seq<char> {
    call + decimal(a as nat) + ")"@
}

/// `f(v{a}, v{b})`.
pub open spec fn call2_text(call: Seq<char>, a: u32, b: u32) -> Seq<char> {
    call + decimal(a as nat) + ", v"@ + decimal(b as nat) + ")"@
}

/// `f(v{a}, v{b}, v{c})`.
pub open spec fn call3_text(call: Seq<char>, a: u32, b: u32, c: u32) -> Seq<char> {
    call + decimal(a as nat) + ", v"@ + decimal(b as nat) + ", v"@ + decimal(c as nat) + ")"@
}

/// The right-hand side a node lowers to, naming its operands `v{child}`.
pub open spec fn node_text(e: Expr, kind: Kind, props: Seq<PropertyDecl>) -> Seq<char> {
    match e {
        Expr::LitF32(v) => v@,
        Expr::LitVec3(x, y, z) => "vec3<f32>("@ + x@ + ", "@ + y@ + ", "@ + z@ + ")"@,
        Expr::Attribute(name) => attribute_text(name@, kind),
        Expr::Property(name) => property_text(name@, props),
        Expr::Rand => "rand01(&rng)"@,
        Expr::RandUnit => "rand_dir(&rng)"@,
        Expr::Add(a, b) => binary_text(a.0, " + v"@, b.0),
        Expr::Sub(a, b) => binary_text(a.0, " - v"@, b.0),
        Expr::Mul(a, b) => binary_text(a.0, " * v"@, b.0),
        Expr::Div(a, b) => binary_text(a.0, " / v"@, b.0),
        Expr::Sin(a) => call1_text("sin(v"@, a.0),
        Expr::Cos(a) => call1_text("cos(v"@, a.0),
        Expr::Splat3(a) => call1_text("vec3<f32>(v"@, a.0),
        Expr::Normalize(a) => call1_text("normalize(v"@, a.0),
        Expr::Length(a) => call1_text("length(v"@, a.0),
        Expr::Cross(a, b) => call2_text("cross(v"@, a.0, b.0),
        Expr::Min(a, b) => call2_text("min(v"@, a.0, b.0),
        Expr::Max(a, b) => call2_text("max(v"@, a.0, b.0),
        Expr::Clamp(x, lo, hi) => call3_text("clamp(v"@, x.0, lo.0, hi.0),
        Expr::Noise(a) => call1_text("value_noise(v"@, a.0),
        Expr::CurlNoise(a) => call1_text("curl_noise(v"@, a.0),
    }
}

/// `let v{i} = ...;` for each node index in `order`, each line indented.
pub open spec fn lets_text(
    nodes: Seq<Expr>,
    order: Seq<u32>,
    kind: Kind,
    props: Seq<PropertyDecl>,
    indent: Seq<char>,
) -> Seq<char>
    decreases order.len(),
{
    if order.len() == 0 {
        seq![]
    } else {
        lets_text(nodes, order.drop_last(), kind, props, indent) + indent + "let v"@ + decimal(
            order.last() as nat,
        ) + " = "@ + node_text(nodes[order.last() as int], kind, props) + ";\n"@
    }
}

/// The lowering of everything reachable from `roots`.
pub open spec fn block_text(
    nodes: Seq<Expr>,
    roots: Seq<ExprHandle>,
    kind: Kind,
    props: Seq<PropertyDecl>,
    indent: Seq<char>,
) -> Seq<char> {
    lets_text(nodes, reachable_below(nodes, roots, nodes.len()), kind, props, indent)
}

/// The expression of the last init modifier that writes `attr`.
pub open spec fn last_writer(init: Seq<SetAttribute>, attr: Attribute) -> Option<ExprHandle>
    decreases init.len(),
{
    if init.len() == 0 {
        None
    } else if init.last().attribute == attr {
        Some(init.last().value)
    } else {
        last_writer(init.drop_last(), attr)
    }
}

/// The bound name of the writing expression, or `default` when none writes.
pub open spec fn slot_text(writer: Option<ExprHandle>, default: Seq<char>) -> Seq<char> {
    match writer {
        Some(h) => var_text(h.0),
        None => default,
    }
}

/// The expressions the init modifiers write, in order.
pub open spec fn init_roots(init: Seq<SetAttribute>) -> Seq<ExprHandle> {
    init.map_values(|m: SetAttribute| m.value)
}

/// The handle an update modifier accelerates by.
pub open spec fn update_handle(op: UpdateOp) -> ExprHandle {
    match op {
        UpdateOp::Accelerate(h) => h,
    }
}

/// The expressions the update modifiers read, in order.
pub open spec fn update_roots(update: Seq<UpdateOp>) -> Seq<ExprHandle> {
    update.map_values(|op: UpdateOp| update_handle(op))
}

/// One `accel = accel + v{h};` line per update modifier, in order.
pub open spec fn accel_text(update: Seq<UpdateOp>) -> Seq<char>
    decreases update.len(),
{
    if update.len() == 0 {
        seq![]
    } else {
        accel_text(update.drop_last()) + "    accel = accel + v"@ + decimal(
            update_handle(update.last()).0 as nat,
        ) + ";\n"@
    }
}

/// The lifetime a new particle gets when no init modifier writes one.
pub open spec fn default_life_text(p: EffectProgram) -> Seq<char> {
    "mix("@ + p.lifetime.min@ + ", "@ + p.lifetime.max@ + ", rand01(&rng))"@
}

/// The generated emit kernel.
pub open spec fn emit_text(p: EffectProgram) -> Seq<char> {
    PARTICLE_STRUCT@ + NEWLINE@ + properties_struct_text(p.properties@) + EMIT_BINDINGS@
        + RNG_HELPERS@ + NEWLINE@ + NOISE_WGSL@ + EMIT_PROLOGUE@
        + block_text(p.module@, init_roots(p.init@), Kind::Emit, p.properties@, "    "@)
        + EMIT_POSITION@ + slot_text(last_writer(p.init@, Attribute::Position), "params.origin.xyz"@)
        + EMIT_VELOCITY@ + slot_text(last_writer(p.init@, Attribute::Velocity), "vec3<f32>(0.0, 0.0, 0.0)"@)
        + EMIT_LIFETIME@ + slot_text(last_writer(p.init@, Attribute::Lifetime), default_life_text(p))
        + EMIT_COLOUR@ + slot_text(last_writer(p.init@, Attribute::Colour), "vec3<f32>(1.0, 1.0, 1.0)"@)
        + EMIT_SIZE@ + slot_text(last_writer(p.init@, Attribute::Size), "0.1"@) + EMIT_EPILOGUE@
}

/// The generated simulate kernel.
pub open spec fn sim_text(p: EffectProgram) -> Seq<char> {
    PARTICLE_STRUCT@ + NEWLINE@ + properties_struct_text(p.properties@) + SIM_BINDINGS@
        + NOISE_WGSL@ + SIM_PROLOGUE@
        + block_text(p.module@, update_roots(p.update@), Kind::Sim, p.properties@, "    "@)
        + SIM_ACCEL@ + accel_text(p.update@) + SIM_EPILOGUE@
}

/// Every handle the program's modifiers and nodes use indexes a node of its
/// module (lowering indexes the arena by them).
pub open spec fn program_well_formed(p: EffectProgram) -> bool {
    &&& p.module@.len() <= u32::MAX
    &&& operands_in_bounds(p.module@)
    &&& forall|k: int| 0 <= k < p.init@.len() ==> #[trigger] p.init@[k].value.0 < p.module@.len()
    &&& forall|k: int| 0 <= k < p.update@.len() ==> #[trigger] update_handle(p.update@[k]).0 < p.module@.len()
}

// ----------------------------------------------------------------------------
// Generators.
// ----------------------------------------------------------------------------

fn digit_str(d: u32) -> (s: &'static str)
    requires
        d < 10,
    ensures
        s@ == seq![digit_char(d as nat)],
{
    proof {
        reveal_strlit("0");
        reveal_strlit("1");
        reveal_strlit("2");
        reveal_strlit("3");
        reveal_strlit("4");
        reveal_strlit("5");
        reveal_strlit("6");
        reveal_strlit("7");
        reveal_strlit("8");
        reveal_strlit("9");
    }
    match d {
        0 => "0",
        1 => "1",
        2 => "2",
        3 => "3",
        4 => "4",
        5 => "5",
        6 => "6",
        7 => "7",
        8 => "8",
        _ => "9",
    }
}

/// Append the decimal spelling of `n`.
pub fn push_decimal(out: &mut String, n: u32)
    ensures
        final(out)@ == old(out)@ + decimal(n as nat),
    decreases n,
{
    if n >= 10 {
        push_decimal(out, n / 10);
    }
    out.append(digit_str(n % 10));
    proof {
        if n >= 10 {
            assert(decimal(n as nat) == decimal((n / 10) as nat).push(digit_char((n % 10) as nat)));
        }
    }
}

/// Whether `name` spells `lit`.
fn is_named(name: &String, lit: &str) -> (b: bool)
    ensures
        b == (name@ == lit@),
{
    let l = lit.to_owned();
    *name == l
}

/// Resolve an attribute read to its WGSL expression in the given kernel.
pub fn attribute_wgsl(name: &String, kind: Kind) -> (s: String)
    ensures
        s@ == attribute_text(name@, kind),
{
    if is_named(name, "origin") {
        "params.origin.xyz".to_owned()
    } else if kind == Kind::Sim && is_named(name, "position") {
        "p.position".to_owned()
    } else if kind == Kind::Sim && is_named(name, "velocity") {
        "p.velocity".to_owned()
    } else if kind == Kind::Sim && is_named(name, "lifetime") {
        "p.lifetime".to_owned()
    } else if kind == Kind::Sim && is_named(name, "age") {
        "(p.max_lifetime - p.lifetime)".to_owned()
    } else if kind == Kind::Sim && is_named(name, "seed") {
        "p.seed".to_owned()
    } else if is_named(name, "position") || is_named(name, "velocity") {
        "vec3<f32>(0.0, 0.0, 0.0)".to_owned()
    } else {
        "0.0".to_owned()
    }
}

/// Resolve a property read to the right swizzle of its `vec4` uniform lane.
pub fn property_wgsl(name: &String, props: &[PropertyDecl]) -> (s: String)
    ensures
        s@ == property_text(name@, props@),
{
    let mut i: usize = 0;
    let mut found: Option<PropertyValue> = None;
    assert(props@.skip(0) == props@);
    while i < props.len()
        invariant_except_break
            found is None,
        invariant
            i <= props@.len(),
            property_lookup(props@, name@) == property_lookup(props@.skip(i as int), name@),
        ensures
            found is Some ==> property_lookup(props@, name@) == found,
            found is None ==> property_lookup(props@, name@) is None,
        decreases props@.len() - i,
    {
        assert(props@.skip(i as int).drop_first() == props@.skip(i + 1));
        assert(props@.skip(i as int)[0] == props@[i as int]);
        if props[i].name == *name {
            found = Some(props[i].default);
            break;
        }
        i = i + 1;
    }
    let mut s = "props.".to_owned();
    s.append(name.as_str());
    match found {
        Some(PropertyValue::F32(_)) => s.append(".x"),
        Some(PropertyValue::Vec3(_)) => s.append(".xyz"),
        _ => {},
    }
    s
}

/// The `Properties` uniform struct for a program's declared properties.
pub fn properties_struct(props: &[PropertyDecl]) -> (s: String)
    ensures
        s@ == properties_struct_text(props@),
{
    let mut s = "struct Properties {\n".to_owned();
    if props.len() == 0 {
        s.append("    _pad: vec4<f32>,\n");
    } else {
        let ghost start = s@;
        let mut i: usize = 0;
        while i < props.len()
            invariant
                i <= props@.len(),
                s@ == start + property_fields_text(props@.take(i as int)),
            decreases props@.len() - i,
        {
            assert(props@.take(i + 1).drop_last() == props@.take(i as int));
            s.append("    ");
            s.append(props[i].name.as_str());
            s.append(": vec4<f32>,\n");
            i = i + 1;
        }
        assert(props@.take(props@.len() as int) == props@);
    }
    s.append("};\n");
    s
}

fn binary_wgsl(a: u32, op: &str, b: u32) -> (s: String)
    ensures
        s@ == binary_text(a, op@, b),
{
    let mut s = "(v".to_owned();
    push_decimal(&mut s, a);
    s.append(op);
    push_decimal(&mut s, b);
    s.append(")");
    s
}

fn call1_wgsl(call: &str, a: u32) -> (s: String)
    ensures
        s@ == call1_text(call@, a),
{
    let mut s = call.to_owned();
    push_decimal(&mut s, a);
    s.append(")");
    s
}

fn call2_wgsl(call: &str, a: u32, b: u32) -> (s: String)
    ensures
        s@ == call2_text(call@, a, b),
{
    let mut s = call.to_owned();
    push_decimal(&mut s, a);
    s.append(", v");
    push_decimal(&mut s, b);
    s.append(")");
    s
}

fn call3_wgsl(call: &str, a: u32, b: u32, c: u32) -> (s: String)
    ensures
        s@ == call3_text(call@, a, b, c),
{
    let mut s = call.to_owned();
    push_decimal(&mut s, a);
    s.append(", v");
    push_decimal(&mut s, b);
    s.append(", v");
    push_decimal(&mut s, c);
    s.append(")");
    s
}

/// Right-hand side for one node, referencing `v{child}` for its children.
pub fn lower_node(module: &Module, i: u32, kind: Kind, props: &[PropertyDecl]) -> (s: String)
    requires
        i < module@.len(),
    ensures
        s@ == node_text(module@[i as int], kind, props@),
{
    match module.get(ExprHandle(i)) {
        Expr::LitF32(v) => v.as_str().to_owned(),
        Expr::LitVec3(x, y, z) => {
            let mut s = "vec3<f32>(".to_owned();
            s.append(x.as_str());
            s.append(", ");
            s.append(y.as_str());
            s.append(", ");
            s.append(z.as_str());
            s.append(")");
            s
        },
        Expr::Attribute(name) => attribute_wgsl(name, kind),
        Expr::Property(name) => property_wgsl(name, props),
        Expr::Rand => "rand01(&rng)".to_owned(),
        Expr::RandUnit => "rand_dir(&rng)".to_owned(),
        Expr::Add(a, b) => binary_wgsl(a.0, " + v", b.0),
        Expr::Sub(a, b) => binary_wgsl(a.0, " - v", b.0),
        Expr::Mul(a, b) => binary_wgsl(a.0, " * v", b.0),
        Expr::Div(a, b) => binary_wgsl(a.0, " / v", b.0),
        Expr::Sin(a) => call1_wgsl("sin(v", a.0),
        Expr::Cos(a) => call1_wgsl("cos(v", a.0),
        Expr::Splat3(a) => call1_wgsl("vec3<f32>(v", a.0),
        Expr::Normalize(a) => call1_wgsl("normalize(v", a.0),
        Expr::Length(a) => call1_wgsl("length(v", a.0),
        Expr::Cross(a, b) => call2_wgsl("cross(v", a.0, b.0),
        Expr::Min(a, b) => call2_wgsl("min(v", a.0, b.0),
        Expr::Max(a, b) => call2_wgsl("max(v", a.0, b.0),
        Expr::Clamp(x, lo, hi) => call3_wgsl("clamp(v", x.0, lo.0, hi.0),
        Expr::Noise(a) => call1_wgsl("value_noise(v", a.0),
        Expr::CurlNoise(a) => call1_wgsl("curl_noise(v", a.0),
    }
}

/// Every entry of the ascending reachable list lies below the bound.
pub proof fn lemma_reachable_below_bounded(nodes: Seq<Expr>, roots: Seq<ExprHandle>, n: nat)
    ensures
        forall|k: int| 0 <= k < reachable_below(nodes, roots, n).len()
            ==> #[trigger] reachable_below(nodes, roots, n)[k] < n,
    decreases n,
{
    if n > 0 {
        lemma_reachable_below_bounded(nodes, roots, (n - 1) as nat);
        let rest = reachable_below(nodes, roots, (n - 1) as nat);
        assert forall|k: int| 0 <= k < reachable_below(nodes, roots, n).len()
            implies #[trigger] reachable_below(nodes, roots, n)[k] < n by {
            if k < rest.len() {
                assert(reachable_below(nodes, roots, n)[k] == rest[k]);
            }
        }
    }
}

/// Emit `let v{i} = ...;` for every node reachable from `roots`.
pub fn lower_block(module: &Module, roots: &[ExprHandle], kind: Kind, props: &[PropertyDecl], indent: &str) -> (s: String)
    requires
        module@.len() <= u32::MAX,
        operands_in_bounds(module@),
        forall|k: int| 0 <= k < roots@.len() ==> #[trigger] roots@[k].0 < module@.len(),
    ensures
        s@ == block_text(module@, roots@, kind, props@, indent@),
{
    let order = module.reachable(roots);
    proof {
        lemma_reachable_below_bounded(module@, roots@, module@.len());
    }
    let mut out = String::new();
    let mut j: usize = 0;
    while j < order.len()
        invariant
            j <= order@.len(),
            order@ == reachable_below(module@, roots@, module@.len()),
            forall|k: int| 0 <= k < order@.len() ==> #[trigger] order@[k] < module@.len(),
            out@ == lets_text(module@, order@.take(j as int), kind, props@, indent@),
        decreases order@.len() - j,
    {
        let i = order[j];
        assert(order@.take(j + 1).drop_last() == order@.take(j as int));
        assert(order@.take(j + 1).last() == i);
        out.append(indent);
        out.append("let v");
        push_decimal(&mut out, i);
        out.append(" = ");
        let node = lower_node(module, i, kind, props);
        out.append(node.as_str());
        out.append(";\n");
        j = j + 1;
    }
    assert(order@.take(order@.len() as int) == order@);
    out
}

/// The expression of the last init modifier writing `attr` (last writer
/// wins).
pub fn find_attr(init: &[SetAttribute], attr: Attribute) -> (r: Option<ExprHandle>)
    ensures
        r == last_writer(init@, attr),
{
    let mut i: usize = init.len();
    assert(init@.take(init@.len() as int) == init@);
    while i > 0
        invariant
            i <= init@.len(),
            last_writer(init@, attr) == last_writer(init@.take(i as int), attr),
        decreases i,
    {
        assert(init@.take(i as int).drop_last() == init@.take(i - 1));
        assert(init@.take(i as int).last() == init@[i - 1]);
        i = i - 1;
        if init[i].attribute == attr {
            return Some(init[i].value);
        }
    }
    None
}

/// The bound name of `writer`, or `default` when there is none.
fn slot_wgsl(writer: Option<ExprHandle>, default: String) -> (s: String)
    ensures
        s@ == slot_text(writer, default@),
{
    match writer {
        Some(h) => {
            let mut s = "v".to_owned();
            push_decimal(&mut s, h.0);
            s
        },
        None => default,
    }
}

/// Lower a program's init modifiers to its emit kernel.
pub fn generate_emit(program: &EffectProgram) -> (s: String)
    requires
        program_well_formed(*program),
    ensures
        s@ == emit_text(*program),
{
    let module = &program.module;
    let mut roots: Vec<ExprHandle> = Vec::new();
    let mut k: usize = 0;
    while k < program.init.len()
        invariant
            k <= program.init@.len(),
            roots@ == init_roots(program.init@.take(k as int)),
        decreases program.init@.len() - k,
    {
        assert(init_roots(program.init@.take(k + 1)) == init_roots(program.init@.take(k as int)).push(program.init@[k as int].value));
        roots.push(program.init[k].value);
        k = k + 1;
    }
    assert(program.init@.take(program.init@.len() as int) == program.init@);
    assert forall|j: int| 0 <= j < roots@.len() implies #[trigger] roots@[j].0 < module@.len() by {
        assert(roots@[j] == program.init@[j].value);
    }
    let lets = lower_block(module, roots.as_slice(), Kind::Emit, program.properties.as_slice(), "    ");
    let props_struct = properties_struct(program.properties.as_slice());
    let pos = slot_wgsl(find_attr(program.init.as_slice(), Attribute::Position), "params.origin.xyz".to_owned());
    let vel = slot_wgsl(find_attr(program.init.as_slice(), Attribute::Velocity), "vec3<f32>(0.0, 0.0, 0.0)".to_owned());
    let mut life_default = "mix(".to_owned();
    life_default.append(program.lifetime.min.as_str());
    life_default.append(", ");
    life_default.append(program.lifetime.max.as_str());
    life_default.append(", rand01(&rng))");
    let life = slot_wgsl(find_attr(program.init.as_slice(), Attribute::Lifetime), life_default);
    let col = slot_wgsl(find_attr(program.init.as_slice(), Attribute::Colour), "vec3<f32>(1.0, 1.0, 1.0)".to_owned());
    let size = slot_wgsl(find_attr(program.init.as_slice(), Attribute::Size), "0.1".to_owned());

    let mut s = PARTICLE_STRUCT.to_owned();
    s.append(NEWLINE);
    s.append(props_struct.as_str());
    s.append(EMIT_BINDINGS);
    s.append(RNG_HELPERS);
    s.append(NEWLINE);
    s.append(NOISE_WGSL);
    s.append(EMIT_PROLOGUE);
    s.append(lets.as_str());
    s.append(EMIT_POSITION);
    s.append(pos.as_str());
    s.append(EMIT_VELOCITY);
    s.append(vel.as_str());
    s.append(EMIT_LIFETIME);
    s.append(life.as_str());
    s.append(EMIT_COLOUR);
    s.append(col.as_str());
    s.append(EMIT_SIZE);
    s.append(size.as_str());
    s.append(EMIT_EPILOGUE);
    s
}

/// Lower a program's update modifiers to its simulate kernel.
pub fn generate_sim(program: &EffectProgram) -> (s: String)
    requires
        program_well_formed(*program),
    ensures
        s@ == sim_text(*program),
{
    let module = &program.module;
    let mut roots: Vec<ExprHandle> = Vec::new();
    let mut accel = String::new();
    let mut k: usize = 0;
    while k < program.update.len()
        invariant
            k <= program.update@.len(),
            roots@ == update_roots(program.update@.take(k as int)),
            accel@ == accel_text(program.update@.take(k as int)),
        decreases program.update@.len() - k,
    {
        assert(update_roots(program.update@.take(k + 1)) == update_roots(program.update@.take(k as int)).push(update_handle(program.update@[k as int])));
        assert(program.update@.take(k + 1).drop_last() == program.update@.take(k as int));
        let h = match program.update[k] {
            UpdateOp::Accelerate(h) => h,
        };
        roots.push(h);
        accel.append("    accel = accel + v");
        push_decimal(&mut accel, h.0);
        accel.append(";\n");
        k = k + 1;
    }
    assert(program.update@.take(program.update@.len() as int) == program.update@);
    assert forall|j: int| 0 <= j < roots@.len() implies #[trigger] roots@[j].0 < module@.len() by {
        assert(roots@[j] == update_handle(program.update@[j]));
    }
    let lets = lower_block(module, roots.as_slice(), Kind::Sim, program.properties.as_slice(), "    ");
    let props_struct = properties_struct(program.properties.as_slice());

    let mut s = PARTICLE_STRUCT.to_owned();
    s.append(NEWLINE);
    s.append(props_struct.as_str());
    s.append(SIM_BINDINGS);
    s.append(NOISE_WGSL);
    s.append(SIM_PROLOGUE);
    s.append(lets.as_str());
    s.append(SIM_ACCEL);
    s.append(accel.as_str());
    s.append(SIM_EPILOGUE);
    s
}

/// Whether the program can be lowered: its module has at most `u32::MAX`
/// nodes and every handle it uses indexes one of them.
pub fn is_well_formed(program: &EffectProgram) -> (b: bool)
    ensures
        b == program_well_formed(*program),
{
    if program.module.len() > 0xffff_ffff {
        return false;
    }
    if !program.module.operands_in_bounds() {
        return false;
    }
    let n = program.module.len();
    let mut k: usize = 0;
    while k < program.init.len()
        invariant
            k <= program.init@.len(),
            n == program.module@.len(),
            forall|q: int| 0 <= q < k ==> #[trigger] program.init@[q].value.0 < n,
        decreases program.init@.len() - k,
    {
        if program.init[k].value.0 as usize >= n {
            assert(program.init@[k as int].value.0 >= program.module@.len());
            return false;
        }
        k = k + 1;
    }
    let mut u: usize = 0;
    while u < program.update.len()
        invariant
            u <= program.update@.len(),
            n == program.module@.len(),
            forall|q: int| 0 <= q < u ==> #[trigger] update_handle(program.update@[q]).0 < n,
        decreases program.update@.len() - u,
    {
        let h = match program.update[u] {
            UpdateOp::Accelerate(h) => h,
        };
        if h.0 as usize >= n {
            assert(update_handle(program.update@[u as int]).0 >= program.module@.len());
            return false;
        }
        u = u + 1;
    }
    true
}

/// Lower a program to its emit and simulate WGSL.
pub fn generate_program(program: &EffectProgram) -> (s: GeneratedShaders)
    requires
        program_well_formed(*program),
    ensures
        s.emit@ == emit_text(*program),
        s.sim@ == sim_text(*program),
{
    GeneratedShaders { emit: generate_emit(program), sim: generate_sim(program) }
}

} // verus!

verus! {

/// In a child-before-parent arena, the lowering binds every operand of a
/// node before the node's own binding reads it: for the `k`-th lowered node,
/// each operand is the `k'`-th lowered node for some `k' < k`.
pub proof fn lemma_operands_bound_before(nodes: Seq<Expr>, roots: Seq<ExprHandle>, k: int, c: int)
    requires
        nodes.len() <= u32::MAX,
        topologically_ordered(nodes),
        0 <= k < reachable_below(nodes, roots, nodes.len()).len(),
        is_child(nodes, reachable_below(nodes, roots, nodes.len())[k] as int, c),
    ensures
        exists|k2: int| 0 <= k2 < k && #[trigger] reachable_below(nodes, roots, nodes.len())[k2] == c as u32,
{
    let order = reachable_below(nodes, roots, nodes.len());
    lemma_reachable_below_exact(nodes, roots, nodes.len());
    let i = order[k] as int;
    assert(order[k] < nodes.len() && reaches(nodes, roots, i));
    let kk = choose|kk: int| 0 <= kk < expr_children(nodes[i]).len() && #[trigger] expr_children(nodes[i])[kk] == c;
    assert(expr_children(nodes[i])[kk] < i);
    let p = choose|path: Seq<int>| #[trigger] is_path(nodes, path) && is_root(roots, path[0]) && path.last() == i;
    lemma_path_extend(nodes, p, c);
    let q = p.push(c);
    assert(q[0] == p[0]);
    assert(is_path(nodes, q) && is_root(roots, q[0]) && q.last() == c);
    assert(order.contains(c as u32));
    let k2 = choose|k2: int| 0 <= k2 < order.len() && order[k2] == c as u32;
    if k2 >= k {
        if k2 > k {
            assert(order[k] < order[k2]);
        }
        assert(false);
    }
}

/// Last writer wins: appending an init modifier for an attribute makes its
/// expression the one the emit kernel writes, and leaves the writers of the
/// other attributes as they were.
pub proof fn lemma_last_set_wins(init: Seq<SetAttribute>, m: SetAttribute, other: Attribute)
    ensures
        last_writer(init.push(m), m.attribute) == Some(m.value),
        other != m.attribute ==> last_writer(init.push(m), other) == last_writer(init, other),
{
    assert(init.push(m).drop_last() == init);
}

} // verus!

verus! {

/// The line that adds update modifier `h`'s acceleration to the running sum.
pub open spec fn accumulation_line(h: ExprHandle) -> Seq<char> {
    "    accel = accel + "@ + var_text(h.0) + ";\n"@
}

/// One accumulation line per update modifier, in modifier order.
pub open spec fn accumulation_lines(update: Seq<UpdateOp>) -> Seq<Seq<char>> {
    update.map_values(|op: UpdateOp| accumulation_line(update_handle(op)))
}

proof fn lemma_accel_text_is_lines(update: Seq<UpdateOp>)
    ensures
        accel_text(update) == accumulation_lines(update).flatten(),
    decreases update.len(),
{
    reveal_strlit("    accel = accel + v");
    reveal_strlit("    accel = accel + ");
    reveal_strlit("v");
    if update.len() > 0 {
        let init = update.drop_last();
        lemma_accel_text_is_lines(init);
        assert(accumulation_lines(update) =~= accumulation_lines(init).push(
            accumulation_line(update_handle(update.last())),
        ));
        accumulation_lines(init).lemma_flatten_push(accumulation_line(update_handle(update.last())));
        assert("    accel = accel + v"@ + decimal(update_handle(update.last()).0 as nat) + ";\n"@
            =~= accumulation_line(update_handle(update.last())));
        assert(accel_text(update) =~= accel_text(init) + accumulation_line(update_handle(update.last())));
    } else {
        assert(accumulation_lines(update) =~= Seq::<Seq<char>>::empty());
    }
}

/// The simulate kernel sums every update modifier's acceleration, each once
/// and in order: after the zeroed accumulator it holds exactly the
/// accumulation lines of the modifiers, one per modifier, then the
/// integration epilogue.
pub proof fn lemma_sim_sums_every_update(p: EffectProgram)
    ensures
        exists|head: Seq<char>|
            sim_text(p) == head + SIM_ACCEL@ + accumulation_lines(p.update@).flatten() + SIM_EPILOGUE@,
{
    lemma_accel_text_is_lines(p.update@);
    let head = PARTICLE_STRUCT@ + NEWLINE@ + properties_struct_text(p.properties@) + SIM_BINDINGS@
        + NOISE_WGSL@ + SIM_PROLOGUE@
        + block_text(p.module@, update_roots(p.update@), Kind::Sim, p.properties@, "    "@);
    assert(sim_text(p) == head + SIM_ACCEL@ + accumulation_lines(p.update@).flatten() + SIM_EPILOGUE@);
}

/// Appending an update modifier appends exactly its accumulation line and
/// keeps the earlier ones.
pub proof fn lemma_update_appends_one_line(update: Seq<UpdateOp>, op: UpdateOp)
    ensures
        accumulation_lines(update.push(op)).flatten()
            == accumulation_lines(update).flatten() + accumulation_line(update_handle(op)),
        accel_text(update.push(op)) == accel_text(update) + accumulation_line(update_handle(op)),
{
    assert(accumulation_lines(update.push(op)) =~= accumulation_lines(update).push(accumulation_line(update_handle(op))));
    accumulation_lines(update).lemma_flatten_push(accumulation_line(update_handle(op)));
    lemma_accel_text_is_lines(update);
    lemma_accel_text_is_lines(update.push(op));
}

/// `f(v{a}, v{b})` with the WGSL function name `f`.
pub open spec fn builtin2(name: Seq<char>, a: ExprHandle, b: ExprHandle) -> Seq<char> {
    name + "("@ + var_text(a.0) + ", "@ + var_text(b.0) + ")"@
}

/// `f(v{a})` with the WGSL function name `f`.
pub open spec fn builtin1(name: Seq<char>, a: ExprHandle) -> Seq<char> {
    name + "("@ + var_text(a.0) + ")"@
}

/// `(v{a} op v{b})` with the WGSL operator `op`.
pub open spec fn infix(a: ExprHandle, op: Seq<char>, b: ExprHandle) -> Seq<char> {
    "("@ + var_text(a.0) + " "@ + op + " "@ + var_text(b.0) + ")"@
}

/// Each two-operand node lowers to the WGSL operator or builtin it names,
/// applied to its operands' bindings in order: `min` to `min`, `max` to
/// `max` (never the other), and so on.
pub proof fn lemma_binary_nodes_lower_to_their_operator(a: ExprHandle, b: ExprHandle, kind: Kind, props: Seq<PropertyDecl>)
    ensures
        node_text(Expr::Add(a, b), kind, props) == infix(a, "+"@, b),
        node_text(Expr::Sub(a, b), kind, props) == infix(a, "-"@, b),
        node_text(Expr::Mul(a, b), kind, props) == infix(a, "*"@, b),
        node_text(Expr::Div(a, b), kind, props) == infix(a, "/"@, b),
        node_text(Expr::Min(a, b), kind, props) == builtin2("min"@, a, b),
        node_text(Expr::Max(a, b), kind, props) == builtin2("max"@, a, b),
        node_text(Expr::Cross(a, b), kind, props) == builtin2("cross"@, a, b),
        node_text(Expr::Min(a, b), kind, props) != node_text(Expr::Max(a, b), kind, props),
{
    reveal_strlit("(v");
    reveal_strlit("(");
    reveal_strlit("v");
    reveal_strlit(" ");
    reveal_strlit(")");
    reveal_strlit(", ");
    reveal_strlit(", v");
    reveal_strlit(" + v");
    reveal_strlit(" - v");
    reveal_strlit(" * v");
    reveal_strlit(" / v");
    reveal_strlit("+");
    reveal_strlit("-");
    reveal_strlit("*");
    reveal_strlit("/");
    reveal_strlit("min(v");
    reveal_strlit("max(v");
    reveal_strlit("cross(v");
    reveal_strlit("min");
    reveal_strlit("max");
    reveal_strlit("cross");
    let da = decimal(a.0 as nat);
    let db = decimal(b.0 as nat);
    assert(node_text(Expr::Add(a, b), kind, props) =~= infix(a, "+"@, b));
    assert(node_text(Expr::Sub(a, b), kind, props) =~= infix(a, "-"@, b));
    assert(node_text(Expr::Mul(a, b), kind, props) =~= infix(a, "*"@, b));
    assert(node_text(Expr::Div(a, b), kind, props) =~= infix(a, "/"@, b));
    assert(node_text(Expr::Min(a, b), kind, props) =~= builtin2("min"@, a, b));
    assert(node_text(Expr::Max(a, b), kind, props) =~= builtin2("max"@, a, b));
    assert(node_text(Expr::Cross(a, b), kind, props) =~= builtin2("cross"@, a, b));
    assert(node_text(Expr::Min(a, b), kind, props)[1] == 'i');
    assert(node_text(Expr::Max(a, b), kind, props)[1] == 'a');
}

/// Each one- and three-operand node lowers to the WGSL builtin it names,
/// applied to its operands' bindings in order.
pub proof fn lemma_call_nodes_lower_to_their_builtin(
    a: ExprHandle,
    b: ExprHandle,
    c: ExprHandle,
    kind: Kind,
    props: Seq<PropertyDecl>,
)
    ensures
        node_text(Expr::Sin(a), kind, props) == builtin1("sin"@, a),
        node_text(Expr::Cos(a), kind, props) == builtin1("cos"@, a),
        node_text(Expr::Normalize(a), kind, props) == builtin1("normalize"@, a),
        node_text(Expr::Length(a), kind, props) == builtin1("length"@, a),
        node_text(Expr::Splat3(a), kind, props) == builtin1("vec3<f32>"@, a),
        node_text(Expr::Noise(a), kind, props) == builtin1("value_noise"@, a),
        node_text(Expr::CurlNoise(a), kind, props) == builtin1("curl_noise"@, a),
        node_text(Expr::Clamp(a, b, c), kind, props)
            == "clamp("@ + var_text(a.0) + ", "@ + var_text(b.0) + ", "@ + var_text(c.0) + ")"@,
{
    reveal_strlit("(");
    reveal_strlit("v");
    reveal_strlit(")");
    reveal_strlit(", ");
    reveal_strlit(", v");
    reveal_strlit("sin(v");
    reveal_strlit("cos(v");
    reveal_strlit("normalize(v");
    reveal_strlit("length(v");
    reveal_strlit("vec3<f32>(v");
    reveal_strlit("value_noise(v");
    reveal_strlit("curl_noise(v");
    reveal_strlit("clamp(v");
    reveal_strlit("clamp(");
    reveal_strlit("sin");
    reveal_strlit("cos");
    reveal_strlit("normalize");
    reveal_strlit("length");
    reveal_strlit("vec3<f32>");
    reveal_strlit("value_noise");
    reveal_strlit("curl_noise");
    assert(node_text(Expr::Sin(a), kind, props) =~= builtin1("sin"@, a));
    assert(node_text(Expr::Cos(a), kind, props) =~= builtin1("cos"@, a));
    assert(node_text(Expr::Normalize(a), kind, props) =~= builtin1("normalize"@, a));
    assert(node_text(Expr::Length(a), kind, props) =~= builtin1("length"@, a));
    assert(node_text(Expr::Splat3(a), kind, props) =~= builtin1("vec3<f32>"@, a));
    assert(node_text(Expr::Noise(a), kind, props) =~= builtin1("value_noise"@, a));
    assert(node_text(Expr::CurlNoise(a), kind, props) =~= builtin1("curl_noise"@, a));
    assert(node_text(Expr::Clamp(a, b, c), kind, props)
        =~= "clamp("@ + var_text(a.0) + ", "@ + var_text(b.0) + ", "@ + var_text(c.0) + ")"@);
}

} // verus!
