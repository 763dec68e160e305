//! Effect descriptions: the authored data of one kind of effect.
//!
//! An effect is either fixed-function (an [`Emitter`] plus [`ForceModifier`]s,
//! run by the shared emit and simulate kernels) or carries an
//! [`EffectProgram`] built from the expression graph, which the codegen pass
//! lowers to per-effect kernels.
//!
//! Scalars that the GPU reads as `f32` are held as [`F32Bits`], their IEEE-754
//! bit patterns: the library only moves them into GPU parameter layouts. The
//! codegen program holds its lifetime range as WGSL literals instead, since the
//! generated source is all that reads it.

use vstd::prelude::*;

use crate::expr::{ExprHandle, Module};

verus! {

/// An `f32` held as its IEEE-754 bit pattern.
#[derive(Clone, Copy, Debug, PartialEq, Eq, Hash)]
pub struct F32Bits(pub u32);

/// Bit pattern of `0.0`.
pub const F32_ZERO: u32 = 0x0000_0000;
/// Bit pattern of `1.0`.
pub const F32_ONE: u32 = 0x3f80_0000;
/// Bit pattern of `2.0`.
pub const F32_TWO: u32 = 0x4000_0000;
/// Bit pattern of `3.0`.
pub const F32_THREE: u32 = 0x4040_0000;
/// Bit pattern of `0.25`.
pub const F32_QUARTER: u32 = 0x3e80_0000;
/// Bit pattern of `100.0`.
pub const F32_HUNDRED: u32 = 0x42c8_0000;

/// Identifies an effect registered with the particle plugin. Stable for the
/// plugin's lifetime.
#[derive(Clone, Copy, Debug, PartialEq, Eq, Hash, Structural)]
pub struct EffectId(pub u32);

/// Handle to a mesh uploaded for the mesh render route.
#[derive(Clone, Copy, Debug, PartialEq, Eq, Hash)]
pub struct ParticleMeshId(pub u32);

/// Handle to a texture uploaded for the billboard texture / flipbook routes.
#[derive(Clone, Copy, Debug, PartialEq, Eq, Hash)]
pub struct ParticleTextureId(pub u32);

/// How an effect's texture modulates the per-particle colour.
#[derive(Clone, Copy, Debug, PartialEq, Eq, Structural)]
pub enum TextureMode {
    /// Multiply both colour (rgb) and alpha by the sampled texel.
    Modulate,
    /// Multiply only the colour (rgb); keep the particle's own alpha.
    ModulateRgb,
    /// Take alpha from the texel's red channel (a mask); keep the colour.
    ModulateAlphaFromR,
}

impl Default for TextureMode {
    fn default() -> (m: Self)
        ensures
            m == TextureMode::Modulate,
    {
        TextureMode::Modulate
    }
}

/// Flipbook (sprite-sheet) animation over a `columns` x `rows` texture atlas.
#[derive(Clone, Copy, Debug, PartialEq, Eq)]
pub struct Flipbook {
    /// Atlas columns.
    pub columns: u32,
    /// Atlas rows.
    pub rows: u32,
    /// Playback rate in frames per second; `0` stretches the sheet once
    /// across each particle's life.
    pub fps: F32Bits,
}

impl Flipbook {
    /// A `columns` x `rows` sheet stretched once across particle life.
    pub fn new(columns: u32, rows: u32) -> (f: Self)
        ensures
            f.columns == columns,
            f.rows == rows,
            f.fps == F32Bits(F32_ZERO),
    {
        Flipbook { columns, rows, fps: F32Bits(F32_ZERO) }
    }

    /// Loop the sheet at `fps` frames per second.
    pub fn with_fps(self, fps: F32Bits) -> (f: Self)
        ensures
            f == (Flipbook { fps, ..self }),
    {
        Flipbook { fps, ..self }
    }
}

/// How a mesh-route particle is oriented each frame.
#[derive(Clone, Copy, Debug, PartialEq, Eq, Structural)]
pub enum MeshAlign {
    /// Align the mesh's local +Z to the particle's velocity direction.
    Velocity,
    /// A stable per-particle random tumble that advances with age.
    Random,
}

/// How an effect's live particles are drawn.
#[derive(Clone, Copy, Debug, PartialEq, Eq)]
pub enum ParticleRender {
    /// Camera-facing billboard, elongated along velocity by `stretch` (> 0).
    Billboard { stretch: F32Bits },
    /// One instance of an uploaded mesh per particle.
    Mesh { mesh: ParticleMeshId, align: MeshAlign },
    /// A ribbon swept through each particle's recent position history.
    Trail { width: F32Bits, segments: u32 },
}

impl Default for ParticleRender {
    fn default() -> (r: Self)
        ensures
            r == (ParticleRender::Billboard { stretch: F32Bits(F32_ZERO) }),
    {
        ParticleRender::Billboard { stretch: F32Bits(F32_ZERO) }
    }
}

/// How many particles an effect spawns per second.
#[derive(Clone, Copy, Debug, PartialEq, Eq)]
pub enum SpawnRate {
    /// Constant rate in particles per second.
    PerSecond(F32Bits),
    /// A one-shot burst of `count` particles, emitted once.
    Burst { count: u32 },
}

impl Default for SpawnRate {
    fn default() -> (r: Self)
        ensures
            r == SpawnRate::PerSecond(F32Bits(F32_HUNDRED)),
    {
        SpawnRate::PerSecond(F32Bits(F32_HUNDRED))
    }
}

/// Shape new particles spawn from, offset by the emitting instance's position.
#[derive(Clone, Copy, Debug, PartialEq, Eq)]
pub enum SpawnShape {
    /// All particles spawn at the instance position.
    Point,
    /// Uniformly inside an axis-aligned box.
    Box { min: [F32Bits; 3], max: [F32Bits; 3] },
    /// On (`volume == false`) or inside a sphere.
    Sphere { radius: F32Bits, volume: bool },
}

impl Default for SpawnShape {
    fn default() -> (s: Self)
        ensures
            s == SpawnShape::Point,
    {
        SpawnShape::Point
    }
}

/// Distribution of a new particle's initial velocity.
#[derive(Clone, Copy, Debug, PartialEq, Eq)]
pub enum VelocityDist {
    /// Every particle gets the same velocity.
    Fixed([F32Bits; 3]),
    /// Uniformly inside an axis-aligned box.
    UniformBox { min: [F32Bits; 3], max: [F32Bits; 3] },
    /// Direction inside a cone around `axis`, speed in `[min_speed, max_speed]`.
    UniformCone { axis: [F32Bits; 3], half_angle: F32Bits, min_speed: F32Bits, max_speed: F32Bits },
}

impl Default for VelocityDist {
    fn default() -> (v: Self)
        ensures
            v == VelocityDist::Fixed([F32Bits(F32_ZERO), F32Bits(F32_ZERO), F32Bits(F32_ONE)]),
    {
        VelocityDist::Fixed([F32Bits(F32_ZERO), F32Bits(F32_ZERO), F32Bits(F32_ONE)])
    }
}

/// A force integrated into every live particle each simulation step.
#[derive(Clone, Copy, Debug, PartialEq, Eq)]
pub enum ForceModifier {
    /// Constant acceleration.
    Accel([F32Bits; 3]),
    /// Velocity-proportional drag coefficient.
    Drag(F32Bits),
    /// Acceleration toward (negative strength: away from) a point.
    PointAttractor { position: [F32Bits; 3], strength: F32Bits, falloff: F32Bits },
    /// Curl-noise turbulence: spatial frequency, acceleration magnitude, and
    /// scroll speed of the field.
    CurlNoise { scale: F32Bits, strength: F32Bits, speed: F32Bits },
}

/// GPU blend mode for the particle draw.
#[derive(Clone, Copy, Debug, PartialEq, Eq, Structural)]
pub enum ParticleBlend {
    /// Standard premultiplied over-blend.
    Alpha,
    /// Additive: particle colour adds to the background.
    Additive,
    /// Premultiplied over-blend, kept distinct for intent.
    Premultiplied,
}

impl Default for ParticleBlend {
    fn default() -> (b: Self)
        ensures
            b == ParticleBlend::Additive,
    {
        ParticleBlend::Additive
    }
}

/// A particle attribute an init modifier can set.
#[derive(Clone, Copy, Debug, PartialEq, Eq, Structural)]
pub enum Attribute {
    /// World-space position (`vec3`).
    Position,
    /// Velocity (`vec3`).
    Velocity,
    /// Lifetime in seconds (`f32`); also seeds `max_lifetime`.
    Lifetime,
    /// RGB colour (`vec3`).
    Colour,
    /// Billboard size (`f32`).
    Size,
}

/// An init modifier: set an attribute from an expression at spawn.
#[derive(Clone, Copy, Debug, PartialEq, Eq)]
pub struct SetAttribute {
    /// Which attribute to write.
    pub attribute: Attribute,
    /// Expression evaluated per particle.
    pub value: ExprHandle,
}

/// An update modifier: contributes to the per-step motion.
#[derive(Clone, Copy, Debug, PartialEq, Eq)]
pub enum UpdateOp {
    /// Add a `vec3` acceleration, integrated into velocity each step.
    Accelerate(ExprHandle),
}

/// A CPU-updatable value the host sets per frame. The variant fixes the
/// property's type (`f32`, `vec3` or `vec4`).
#[derive(Clone, Copy, Debug, PartialEq, Eq)]
pub enum PropertyValue {
    /// A scalar property.
    F32(F32Bits),
    /// A 3-component vector property.
    Vec3([F32Bits; 3]),
    /// A 4-component vector property.
    Vec4([F32Bits; 4]),
}

impl PropertyValue {
    /// Pack the value into a `vec4` lane of the property uniform: missing
    /// components are `0.0`.
    pub fn to_vec4(self) -> (v: [F32Bits; 4])
        ensures
            v@ == match self {
                PropertyValue::F32(x) => seq![x, F32Bits(F32_ZERO), F32Bits(F32_ZERO), F32Bits(F32_ZERO)],
                PropertyValue::Vec3(a) => seq![a@[0], a@[1], a@[2], F32Bits(F32_ZERO)],
                PropertyValue::Vec4(a) => a@,
            },
    {
        match self {
            PropertyValue::F32(v) => [v, F32Bits(F32_ZERO), F32Bits(F32_ZERO), F32Bits(F32_ZERO)],
            PropertyValue::Vec3(a) => [a[0], a[1], a[2], F32Bits(F32_ZERO)],
            PropertyValue::Vec4(a) => a,
        }
    }
}

/// A named, typed property declared on an [`EffectProgram`].
#[derive(Clone, Debug)]
pub struct PropertyDecl {
    /// Property name; also the uniform field name, so a WGSL identifier.
    pub name: String,
    /// Default value (and, via its variant, the property's type).
    pub default: PropertyValue,
}

/// A `[min, max]` range spelled as two WGSL float literals.
#[derive(Clone, Debug)]
pub struct LiteralRange {
    /// Lower bound literal.
    pub min: String,
    /// Upper bound literal.
    pub max: String,
}

/// A codegen program: an expression [`Module`] plus the init and update
/// modifiers that reference it.
#[derive(Clone, Debug)]
pub struct EffectProgram {
    /// The expression graph the modifiers reference.
    pub module: Module,
    /// Emission schedule.
    pub rate: SpawnRate,
    /// Spawn-time attribute writers, applied in order.
    pub init: Vec<SetAttribute>,
    /// Per-step contributions, applied in order.
    pub update: Vec<UpdateOp>,
    /// Per-particle lifetime range, as WGSL float literals, sampled uniformly
    /// at spawn unless an init modifier writes `Lifetime`.
    pub lifetime: LiteralRange,
    /// CPU-updatable properties readable in the expression graph, in
    /// declaration (uniform) order.
    pub properties: Vec<PropertyDecl>,
}

impl Default for EffectProgram {
    fn default() -> (p: Self)
        ensures
            p.module@ == Seq::<crate::expr::Expr>::empty(),
            p.rate == SpawnRate::PerSecond(F32Bits(F32_HUNDRED)),
            p.init@ == Seq::<SetAttribute>::empty(),
            p.update@ == Seq::<UpdateOp>::empty(),
            p.lifetime.min@ == "1.0"@,
            p.lifetime.max@ == "2.0"@,
            p.properties@.len() == 0,
    {
        EffectProgram {
            module: Module::new(),
            rate: SpawnRate::PerSecond(F32Bits(F32_HUNDRED)),
            init: Vec::new(),
            update: Vec::new(),
            lifetime: LiteralRange { min: "1.0".to_owned(), max: "2.0".to_owned() },
            properties: Vec::new(),
        }
    }
}

impl EffectProgram {
    /// A program with an empty module and the default rate and lifetime.
    pub fn new() -> (p: Self)
        ensures
            p.module@ == Seq::<crate::expr::Expr>::empty(),
            p.rate == SpawnRate::PerSecond(F32Bits(F32_HUNDRED)),
            p.init@ == Seq::<SetAttribute>::empty(),
            p.update@ == Seq::<UpdateOp>::empty(),
            p.lifetime.min@ == "1.0"@,
            p.lifetime.max@ == "2.0"@,
            p.properties@.len() == 0,
    {
        Self::default()
    }

    /// Set the emission schedule.
    pub fn with_rate(self, rate: SpawnRate) -> (p: Self)
        ensures
            p == (EffectProgram { rate, ..self }),
    {
        EffectProgram { rate, ..self }
    }

    /// Append an init modifier.
    pub fn set(self, attribute: Attribute, value: ExprHandle) -> (p: Self)
        ensures
            p.init@ == self.init@.push(SetAttribute { attribute, value }),
            p.module == self.module,
            p.rate == self.rate,
            p.update == self.update,
            p.lifetime == self.lifetime,
            p.properties == self.properties,
    {
        let mut p = self;
        p.init.push(SetAttribute { attribute, value });
        p
    }

    /// Append an update modifier.
    pub fn update(self, op: UpdateOp) -> (p: Self)
        ensures
            p.update@ == self.update@.push(op),
            p.module == self.module,
            p.rate == self.rate,
            p.init == self.init,
            p.lifetime == self.lifetime,
            p.properties == self.properties,
    {
        let mut p = self;
        p.update.push(op);
        p
    }

    /// Set the spawn lifetime range, as WGSL float literals.
    pub fn with_lifetime(self, min: String, max: String) -> (p: Self)
        ensures
            p == (EffectProgram { lifetime: LiteralRange { min, max }, ..self }),
    {
        EffectProgram { lifetime: LiteralRange { min, max }, ..self }
    }

    /// Declare a CPU-updatable property with a default value.
    pub fn property(self, name: String, default: PropertyValue) -> (p: Self)
        ensures
            p.properties@ == self.properties@.push(PropertyDecl { name, default }),
            p.module == self.module,
            p.rate == self.rate,
            p.init == self.init,
            p.update == self.update,
            p.lifetime == self.lifetime,
    {
        let mut p = self;
        p.properties.push(PropertyDecl { name, default });
        p
    }
}

/// Fixed-function emitter configuration.
#[derive(Clone, Copy, Debug, PartialEq, Eq)]
pub struct Emitter {
    /// Emission schedule.
    pub rate: SpawnRate,
    /// Per-particle lifetime range in seconds.
    pub lifetime: (F32Bits, F32Bits),
    /// Spawn shape.
    pub spawn: SpawnShape,
    /// Initial velocity distribution.
    pub velocity: VelocityDist,
    /// Per-particle RGBA tint.
    pub colour: [F32Bits; 4],
    /// Per-particle world-space size.
    pub size: F32Bits,
}

impl Default for Emitter {
    fn default() -> (e: Self)
        ensures
            e.rate == SpawnRate::PerSecond(F32Bits(F32_HUNDRED)),
            e.lifetime == (F32Bits(F32_ONE), F32Bits(F32_TWO)),
            e.spawn == SpawnShape::Point,
            e.velocity == VelocityDist::Fixed([F32Bits(F32_ZERO), F32Bits(F32_ZERO), F32Bits(F32_ONE)]),
            e.colour == [F32Bits(F32_ONE), F32Bits(F32_ONE), F32Bits(F32_ONE), F32Bits(F32_ONE)],
            e.size == F32Bits(F32_QUARTER),
    {
        Emitter {
            rate: SpawnRate::PerSecond(F32Bits(F32_HUNDRED)),
            lifetime: (F32Bits(F32_ONE), F32Bits(F32_TWO)),
            spawn: SpawnShape::Point,
            velocity: VelocityDist::Fixed([F32Bits(F32_ZERO), F32Bits(F32_ZERO), F32Bits(F32_ONE)]),
            colour: [F32Bits(F32_ONE), F32Bits(F32_ONE), F32Bits(F32_ONE), F32Bits(F32_ONE)],
            size: F32Bits(F32_QUARTER),
        }
    }
}

} // verus!

verus! {

/// A colour key of a lifetime ramp: normalized age `t` and an RGB multiplier.
#[derive(Clone, Copy, Debug, PartialEq, Eq)]
pub struct ColourKey {
    pub t: F32Bits,
    pub rgb: [F32Bits; 3],
}

/// A size key of a lifetime ramp: normalized age `t` and a size multiplier.
#[derive(Clone, Copy, Debug, PartialEq, Eq)]
pub struct SizeKey {
    pub t: F32Bits,
    pub scale: F32Bits,
}

/// The identity colour ramp: white at birth and at death.
pub open spec fn identity_colour_keys() -> Seq<ColourKey> {
    seq![
        ColourKey { t: F32Bits(F32_ZERO), rgb: [F32Bits(F32_ONE), F32Bits(F32_ONE), F32Bits(F32_ONE)] },
        ColourKey { t: F32Bits(F32_ONE), rgb: [F32Bits(F32_ONE), F32Bits(F32_ONE), F32Bits(F32_ONE)] },
    ]
}

/// The identity size ramp: scale one at birth and at death.
pub open spec fn identity_size_keys() -> Seq<SizeKey> {
    seq![
        SizeKey { t: F32Bits(F32_ZERO), scale: F32Bits(F32_ONE) },
        SizeKey { t: F32Bits(F32_ONE), scale: F32Bits(F32_ONE) },
    ]
}

/// Colour and size ramps applied over a particle's lifetime, keyed by
/// normalized age in ascending order.
#[derive(Clone, Debug)]
pub struct Gradient {
    /// Colour keys; multiply the particle colour.
    pub colour: Vec<ColourKey>,
    /// Size-scale keys; multiply the particle size.
    pub size: Vec<SizeKey>,
}

impl Default for Gradient {
    fn default() -> (g: Self)
        ensures
            g.colour@ == identity_colour_keys(),
            g.size@ == identity_size_keys(),
    {
        let white = [F32Bits(F32_ONE), F32Bits(F32_ONE), F32Bits(F32_ONE)];
        let colour = vec![
            ColourKey { t: F32Bits(F32_ZERO), rgb: white },
            ColourKey { t: F32Bits(F32_ONE), rgb: white },
        ];
        let size = vec![
            SizeKey { t: F32Bits(F32_ZERO), scale: F32Bits(F32_ONE) },
            SizeKey { t: F32Bits(F32_ONE), scale: F32Bits(F32_ONE) },
        ];
        assert(colour@ =~= identity_colour_keys());
        assert(size@ =~= identity_size_keys());
        Gradient { colour, size }
    }
}

impl Gradient {
    /// An identity gradient (no change over life).
    pub fn new() -> (g: Self)
        ensures
            g.colour@ == identity_colour_keys(),
            g.size@ == identity_size_keys(),
    {
        Self::default()
    }

    /// Set the colour ramp keys; an empty list keeps the current ramp.
    pub fn with_colour(self, keys: Vec<ColourKey>) -> (g: Self)
        ensures
            g.colour@ == if keys@.len() == 0 { self.colour@ } else { keys@ },
            g.size == self.size,
    {
        if keys.len() != 0 {
            Gradient { colour: keys, size: self.size }
        } else {
            self
        }
    }

    /// Set the size-scale ramp keys; an empty list keeps the current ramp.
    pub fn with_size(self, keys: Vec<SizeKey>) -> (g: Self)
        ensures
            g.size@ == if keys@.len() == 0 { self.size@ } else { keys@ },
            g.colour == self.colour,
    {
        if keys.len() != 0 {
            Gradient { colour: self.colour, size: keys }
        } else {
            self
        }
    }
}

/// Capacity of an effect that does not set one.
pub const DEFAULT_CAPACITY: u32 = 10_000;

/// The authored description of one effect. Carries no GPU state.
#[derive(Clone, Debug)]
#[non_exhaustive]
pub struct EffectAsset {
    /// Human-readable name, surfaced in debug labels.
    pub name: String,
    /// Maximum simultaneously-live particles.
    pub capacity: u32,
    /// Blend mode for the draw.
    pub blend: ParticleBlend,
    /// Fixed-function emitter; ignored when `program` is set.
    pub emitter: Emitter,
    /// Forces summed each step; ignored when `program` is set.
    pub forces: Vec<ForceModifier>,
    /// Optional codegen program, used in place of the emitter and forces.
    pub program: Option<EffectProgram>,
    /// Optional colour/size ramp over lifetime.
    pub gradient: Option<Gradient>,
    /// How live particles are drawn.
    pub render: ParticleRender,
    /// Optional texture sampled by the billboard fragment.
    pub texture: Option<ParticleTextureId>,
    /// How `texture` modulates the particle colour.
    pub texture_mode: TextureMode,
    /// Optional flipbook animation over `texture`.
    pub flipbook: Option<Flipbook>,
}

/// The fields every new asset starts from, with the given name.
pub open spec fn default_asset_with_name(a: EffectAsset, name: Seq<char>) -> bool {
    &&& a.name@ == name
    &&& a.capacity == DEFAULT_CAPACITY
    &&& a.blend == ParticleBlend::Additive
    &&& a.emitter.rate == SpawnRate::PerSecond(F32Bits(F32_HUNDRED))
    &&& a.emitter.lifetime == (F32Bits(F32_ONE), F32Bits(F32_TWO))
    &&& a.emitter.spawn == SpawnShape::Point
    &&& a.emitter.velocity == VelocityDist::Fixed([F32Bits(F32_ZERO), F32Bits(F32_ZERO), F32Bits(F32_ONE)])
    &&& a.emitter.colour == [F32Bits(F32_ONE), F32Bits(F32_ONE), F32Bits(F32_ONE), F32Bits(F32_ONE)]
    &&& a.emitter.size == F32Bits(F32_QUARTER)
    &&& a.forces@.len() == 0
    &&& a.program is None
    &&& a.gradient is None
    &&& a.render == (ParticleRender::Billboard { stretch: F32Bits(F32_ZERO) })
    &&& a.texture is None
    &&& a.texture_mode == TextureMode::Modulate
    &&& a.flipbook is None
}

impl Default for EffectAsset {
    fn default() -> (a: Self)
        ensures
            default_asset_with_name(a, "effect"@),
    {
        EffectAsset {
            name: "effect".to_owned(),
            capacity: DEFAULT_CAPACITY,
            blend: ParticleBlend::default(),
            emitter: Emitter::default(),
            forces: Vec::new(),
            program: None,
            gradient: None,
            render: ParticleRender::default(),
            texture: None,
            texture_mode: TextureMode::default(),
            flipbook: None,
        }
    }
}

impl EffectAsset {
    /// A named effect with default capacity and emitter.
    pub fn new(name: String) -> (a: Self)
        ensures
            default_asset_with_name(a, name@),
    {
        EffectAsset { name, ..Self::default() }
    }

    /// Set the live-particle capacity.
    pub fn with_capacity(self, capacity: u32) -> (a: Self)
        ensures
            a == (EffectAsset { capacity, ..self }),
    {
        EffectAsset { capacity, ..self }
    }

    /// Set the blend mode.
    pub fn with_blend(self, blend: ParticleBlend) -> (a: Self)
        ensures
            a == (EffectAsset { blend, ..self }),
    {
        EffectAsset { blend, ..self }
    }

    /// Replace the emitter.
    pub fn with_emitter(self, emitter: Emitter) -> (a: Self)
        ensures
            a == (EffectAsset { emitter, ..self }),
    {
        EffectAsset { emitter, ..self }
    }

    /// Append a force.
    pub fn force(self, force: ForceModifier) -> (a: Self)
        ensures
            a.forces@ == self.forces@.push(force),
            a == (EffectAsset { forces: a.forces, ..self }),
    {
        let mut a = self;
        a.forces.push(force);
        a
    }

    /// Attach a codegen program, used in place of the emitter and forces.
    pub fn with_program(self, program: EffectProgram) -> (a: Self)
        ensures
            a == (EffectAsset { program: Some(program), ..self }),
    {
        EffectAsset { program: Some(program), ..self }
    }

    /// Attach a colour/size ramp over lifetime.
    pub fn with_gradient(self, gradient: Gradient) -> (a: Self)
        ensures
            a == (EffectAsset { gradient: Some(gradient), ..self }),
    {
        EffectAsset { gradient: Some(gradient), ..self }
    }

    /// Set the render route.
    pub fn with_render(self, render: ParticleRender) -> (a: Self)
        ensures
            a == (EffectAsset { render, ..self }),
    {
        EffectAsset { render, ..self }
    }

    /// Sample `texture` in the billboard fragment.
    pub fn with_texture(self, texture: ParticleTextureId) -> (a: Self)
        ensures
            a == (EffectAsset { texture: Some(texture), ..self }),
    {
        EffectAsset { texture: Some(texture), ..self }
    }

    /// Set how the texture modulates the particle colour.
    pub fn with_texture_mode(self, mode: TextureMode) -> (a: Self)
        ensures
            a == (EffectAsset { texture_mode: mode, ..self }),
    {
        EffectAsset { texture_mode: mode, ..self }
    }

    /// Animate the texture as a flipbook atlas.
    pub fn with_flipbook(self, flipbook: Flipbook) -> (a: Self)
        ensures
            a == (EffectAsset { flipbook: Some(flipbook), ..self }),
    {
        EffectAsset { flipbook: Some(flipbook), ..self }
    }

    /// Whether the effect's draw order needs back-to-front sorting: every
    /// blend but additive is order-dependent.
    pub fn needs_depth_sort(&self) -> (b: bool)
        ensures
            b == (self.blend != ParticleBlend::Additive),
    {
        self.blend != ParticleBlend::Additive
    }

    /// The emission schedule in force: the program's when there is one, else
    /// the emitter's.
    pub fn spawn_rate(&self) -> (r: SpawnRate)
        ensures
            r == match self.program {
                Some(p) => p.rate,
                None => self.emitter.rate,
            },
    {
        match &self.program {
            Some(p) => p.rate,
            None => self.emitter.rate,
        }
    }
}

} // verus!
