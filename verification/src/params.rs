//! GPU parameter layouts and the packing of effect data into them.
//!
//! Every layout is a run of 32-bit words (floats as their bit patterns), in
//! the field order of the matching WGSL struct. Each layout's `words` gives
//! that run; `to_bytes` its in-memory image for upload.

use vstd::prelude::*;
use vstd::arithmetic::power2::{lemma2_to64, pow2};

use crate::bytes::{native_image, words_to_bytes};
use crate::effect::{
    Emitter, F32Bits, ForceModifier, MeshAlign, ParticleRender, SpawnShape, VelocityDist, F32_ONE,
    F32_THREE, F32_TWO, F32_ZERO,
};

verus! {

/// Max forces per effect, the size of the fixed force array in the simulate
/// kernel.
pub const MAX_FORCES: usize = 8;

/// Trail history samples kept per particle.
pub const HISTORY_LEN: u32 = 24;

/// Stride, in bytes, between per-stage sort constants in the shared stage
/// buffer (the minimum dynamic-uniform-offset alignment).
pub const SORT_STAGE_STRIDE: u64 = 256;

/// Bytes of one GPU particle.
pub const PARTICLE_BYTES: u64 = 80;

/// Bytes of [`EmitParamsGpu`].
pub const EMIT_PARAMS_BYTES: u64 = 144;
/// Bytes of [`SimParamsGpu`].
pub const SIM_PARAMS_BYTES: u64 = 272;
/// Bytes of [`DrawParams`], [`HistoryParams`], [`PickUniform`] and a sort
/// stage.
pub const VEC4_BYTES: u64 = 16;
/// Bytes of [`GenParams`].
pub const GEN_PARAMS_BYTES: u64 = 48;
/// Bytes of [`SortInitParams`] and [`RefractParams`].
pub const DOUBLE_VEC4_BYTES: u64 = 32;
/// Bytes of one trail history sample (a `vec4<f32>`).
pub const HISTORY_SAMPLE_BYTES: u64 = 16;

/// The bit pattern of the `f32` equal to a count in `0..=8`.
pub open spec fn count_bits(n: nat) -> u32 {
    if n == 0 {
        0x0000_0000
    } else if n == 1 {
        0x3f80_0000
    } else if n == 2 {
        0x4000_0000
    } else if n == 3 {
        0x4040_0000
    } else if n == 4 {
        0x4080_0000
    } else if n == 5 {
        0x40a0_0000
    } else if n == 6 {
        0x40c0_0000
    } else if n == 7 {
        0x40e0_0000
    } else {
        0x4100_0000
    }
}

fn count_to_f32_bits(n: usize) -> (b: u32)
    requires
        n <= 8,
    ensures
        b == count_bits(n as nat),
{
    if n == 0 {
        0x0000_0000
    } else if n == 1 {
        0x3f80_0000
    } else if n == 2 {
        0x4000_0000
    } else if n == 3 {
        0x4040_0000
    } else if n == 4 {
        0x4080_0000
    } else if n == 5 {
        0x40a0_0000
    } else if n == 6 {
        0x40c0_0000
    } else if n == 7 {
        0x40e0_0000
    } else {
        0x4100_0000
    }
}

/// The words of a `vec4` whose first three lanes are `v` and last is `w`.
pub open spec fn vec4_of(v: [F32Bits; 3], w: u32) -> Seq<u32> {
    seq![v@[0].0, v@[1].0, v@[2].0, w]
}

fn vec4_from(v: [F32Bits; 3], w: u32) -> (r: [u32; 4])
    ensures
        r@ == vec4_of(v, w),
{
    [v[0].0, v[1].0, v[2].0, w]
}

fn push4(out: &mut Vec<u32>, a: &[u32; 4])
    ensures
        final(out)@ == old(out)@ + a@,
{
    out.push(a[0]);
    out.push(a[1]);
    out.push(a[2]);
    out.push(a[3]);
    assert(final(out)@ =~= old(out)@ + a@);
}

/// Emit-pass parameters (`EmitParams` in the fixed emit kernel).
#[derive(Clone, Copy, Debug, PartialEq, Eq)]
pub struct EmitParamsGpu {
    pub origin: [u32; 4],
    pub spawn_a: [u32; 4],
    pub spawn_b: [u32; 4],
    pub vel_a: [u32; 4],
    pub vel_b: [u32; 4],
    pub colour: [u32; 4],
    pub misc: [u32; 4],
    pub ctrl: [u32; 4],
    pub kinds: [u32; 4],
}

/// Spawn shape code and its two parameter lanes.
pub open spec fn spawn_lanes(s: SpawnShape) -> (u32, Seq<u32>, Seq<u32>) {
    match s {
        SpawnShape::Point => (0, seq![0u32, 0, 0, 0], seq![0u32, 0, 0, 0]),
        SpawnShape::Box { min, max } => (1, vec4_of(min, F32_ZERO), vec4_of(max, F32_ZERO)),
        SpawnShape::Sphere { radius, volume } => (
            2,
            seq![radius.0, if volume { F32_ONE } else { F32_ZERO }, 0u32, 0],
            seq![0u32, 0, 0, 0],
        ),
    }
}

/// Velocity distribution code and its two parameter lanes.
pub open spec fn velocity_lanes(v: VelocityDist) -> (u32, Seq<u32>, Seq<u32>) {
    match v {
        VelocityDist::Fixed(x) => (0, vec4_of(x, F32_ZERO), seq![0u32, 0, 0, 0]),
        VelocityDist::UniformBox { min, max } => (1, vec4_of(min, F32_ZERO), vec4_of(max, F32_ZERO)),
        VelocityDist::UniformCone { axis, half_angle, min_speed, max_speed } => (
            2,
            vec4_of(axis, F32_ZERO),
            seq![half_angle.0, min_speed.0, max_speed.0, 0u32],
        ),
    }
}

impl EmitParamsGpu {
    /// The layout's words, field by field.
    pub open spec fn words(self) -> Seq<u32> {
        self.origin@ + self.spawn_a@ + self.spawn_b@ + self.vel_a@ + self.vel_b@ + self.colour@
            + self.misc@ + self.ctrl@ + self.kinds@
    }

    /// The in-memory image for upload.
    pub fn to_bytes(&self) -> (b: Vec<u8>)
        ensures
            native_image(self.words(), b@),
            b@.len() == EMIT_PARAMS_BYTES,
    {
        let mut w: Vec<u32> = Vec::new();
        push4(&mut w, &self.origin);
        push4(&mut w, &self.spawn_a);
        push4(&mut w, &self.spawn_b);
        push4(&mut w, &self.vel_a);
        push4(&mut w, &self.vel_b);
        push4(&mut w, &self.colour);
        push4(&mut w, &self.misc);
        push4(&mut w, &self.ctrl);
        push4(&mut w, &self.kinds);
        assert(w@ =~= Seq::<u32>::empty() + self.origin@ + self.spawn_a@ + self.spawn_b@
            + self.vel_a@ + self.vel_b@ + self.colour@ + self.misc@ + self.ctrl@ + self.kinds@);
        assert(w@ =~= self.words());
        words_to_bytes(w.as_slice())
    }
}

/// `p` is the emit-pass packing of `emitter` at `origin` with this frame's
/// spawn control.
pub open spec fn emit_params_match(
    p: EmitParamsGpu,
    emitter: Emitter,
    origin: [F32Bits; 3],
    capacity: u32,
    spawn_count: u32,
    rng_seed: u32,
) -> bool {
    &&& p.origin@ == vec4_of(origin, F32_ZERO)
    &&& p.colour@ == seq![emitter.colour@[0].0, emitter.colour@[1].0, emitter.colour@[2].0, emitter.colour@[3].0]
    &&& p.misc@ == seq![emitter.lifetime.0.0, emitter.lifetime.1.0, emitter.size.0, F32_ZERO]
    &&& p.ctrl@ == seq![rng_seed, spawn_count, capacity, 0u32]
    &&& p.spawn_a@ == spawn_lanes(emitter.spawn).1
    &&& p.spawn_b@ == spawn_lanes(emitter.spawn).2
    &&& p.vel_a@ == velocity_lanes(emitter.velocity).1
    &&& p.vel_b@ == velocity_lanes(emitter.velocity).2
    &&& p.kinds@ == seq![spawn_lanes(emitter.spawn).0, velocity_lanes(emitter.velocity).0, 0u32, 0]
}

/// Pack a fixed-function emitter and this frame's spawn control into the
/// emit-pass parameters.
pub fn build_emit_params(
    emitter: &Emitter,
    origin: [F32Bits; 3],
    capacity: u32,
    spawn_count: u32,
    rng_seed: u32,
) -> (p: EmitParamsGpu)
    ensures
        emit_params_match(p, *emitter, origin, capacity, spawn_count, rng_seed),
{
    let (spawn_kind, spawn_a, spawn_b): (u32, [u32; 4], [u32; 4]) = match emitter.spawn {
        SpawnShape::Point => (0u32, [0u32; 4], [0u32; 4]),
        SpawnShape::Box { min, max } => (1u32, vec4_from(min, F32_ZERO), vec4_from(max, F32_ZERO)),
        SpawnShape::Sphere { radius, volume } => (
            2u32,
            [radius.0, if volume { F32_ONE } else { F32_ZERO }, 0, 0],
            [0u32; 4],
        ),
    };
    let (vel_kind, vel_a, vel_b): (u32, [u32; 4], [u32; 4]) = match emitter.velocity {
        VelocityDist::Fixed(v) => (0u32, vec4_from(v, F32_ZERO), [0u32; 4]),
        VelocityDist::UniformBox { min, max } => (1u32, vec4_from(min, F32_ZERO), vec4_from(max, F32_ZERO)),
        VelocityDist::UniformCone { axis, half_angle, min_speed, max_speed } => (
            2u32,
            vec4_from(axis, F32_ZERO),
            [half_angle.0, min_speed.0, max_speed.0, 0],
        ),
    };
    let c = emitter.colour;
    let p = EmitParamsGpu {
        origin: vec4_from(origin, F32_ZERO),
        spawn_a,
        spawn_b,
        vel_a,
        vel_b,
        colour: [c[0].0, c[1].0, c[2].0, c[3].0],
        misc: [emitter.lifetime.0.0, emitter.lifetime.1.0, emitter.size.0, F32_ZERO],
        ctrl: [rng_seed, spawn_count, capacity, 0],
        kinds: [spawn_kind, vel_kind, 0, 0],
    };
    assert(p.origin@ =~= vec4_of(origin, F32_ZERO));
    assert(p.colour@ =~= seq![c@[0].0, c@[1].0, c@[2].0, c@[3].0]);
    assert(p.misc@ =~= seq![emitter.lifetime.0.0, emitter.lifetime.1.0, emitter.size.0, F32_ZERO]);
    assert(p.ctrl@ =~= seq![rng_seed, spawn_count, capacity, 0u32]);
    assert(p.spawn_a@ =~= spawn_lanes(emitter.spawn).1);
    assert(p.spawn_b@ =~= spawn_lanes(emitter.spawn).2);
    assert(p.vel_a@ =~= velocity_lanes(emitter.velocity).1);
    assert(p.vel_b@ =~= velocity_lanes(emitter.velocity).2);
    assert(p.kinds@ =~= seq![spawn_lanes(emitter.spawn).0, velocity_lanes(emitter.velocity).0, 0u32, 0]);
    p
}

/// One force (`Force` in the simulate kernel): `data0` holds the vector and,
/// in its last lane, the kind code as a float; `data1` the scalars.
#[derive(Clone, Copy, Debug, PartialEq, Eq)]
pub struct GpuForce {
    pub data0: [u32; 4],
    pub data1: [u32; 4],
}

/// The two lanes a force packs to.
pub open spec fn force_lanes(f: ForceModifier) -> (Seq<u32>, Seq<u32>) {
    match f {
        ForceModifier::Accel(a) => (vec4_of(a, F32_ZERO), seq![0u32, 0, 0, 0]),
        ForceModifier::Drag(c) => (seq![0u32, 0, 0, F32_ONE], seq![0u32, 0, c.0, 0]),
        ForceModifier::PointAttractor { position, strength, falloff } => (
            vec4_of(position, F32_TWO),
            seq![strength.0, falloff.0, 0u32, 0],
        ),
        ForceModifier::CurlNoise { scale, strength, speed } => (
            seq![0u32, 0, 0, F32_THREE],
            seq![scale.0, strength.0, speed.0, 0u32],
        ),
    }
}

/// Pack one force.
pub fn pack_force(f: ForceModifier) -> (g: GpuForce)
    ensures
        g.data0@ == force_lanes(f).0,
        g.data1@ == force_lanes(f).1,
{
    match f {
        ForceModifier::Accel(a) => GpuForce { data0: vec4_from(a, F32_ZERO), data1: [0u32; 4] },
        ForceModifier::Drag(c) => GpuForce { data0: [0, 0, 0, F32_ONE], data1: [0, 0, c.0, 0] },
        ForceModifier::PointAttractor { position, strength, falloff } => GpuForce {
            data0: vec4_from(position, F32_TWO),
            data1: [strength.0, falloff.0, 0, 0],
        },
        ForceModifier::CurlNoise { scale, strength, speed } => GpuForce {
            data0: [0, 0, 0, F32_THREE],
            data1: [scale.0, strength.0, speed.0, 0],
        },
    }
}

/// Simulate-pass parameters (`SimParams` in the simulate kernel): `misc` is
/// `dt, time, _, force_count`, then exactly [`MAX_FORCES`] force slots.
#[derive(Clone, Debug)]
pub struct SimParamsGpu {
    pub misc: [u32; 4],
    pub forces: Vec<GpuForce>,
}

/// The words of a run of forces.
pub open spec fn force_words(fs: Seq<GpuForce>) -> Seq<u32>
    decreases fs.len(),
{
    if fs.len() == 0 {
        seq![]
    } else {
        force_words(fs.drop_last()) + fs.last().data0@ + fs.last().data1@
    }
}

impl SimParamsGpu {
    /// The layout's words, field by field.
    pub open spec fn words(self) -> Seq<u32> {
        self.misc@ + force_words(self.forces@)
    }

    /// The in-memory image for upload.
    pub fn to_bytes(&self) -> (b: Vec<u8>)
        ensures
            native_image(self.words(), b@),
    {
        let mut w: Vec<u32> = Vec::new();
        push4(&mut w, &self.misc);
        assert(force_words(self.forces@.take(0)) == Seq::<u32>::empty());
        assert(w@ =~= self.misc@ + force_words(self.forces@.take(0)));
        let mut i: usize = 0;
        while i < self.forces.len()
            invariant
                i <= self.forces@.len(),
                w@ == self.misc@ + force_words(self.forces@.take(i as int)),
            decreases self.forces@.len() - i,
        {
            assert(self.forces@.take(i + 1).drop_last() == self.forces@.take(i as int));
            push4(&mut w, &self.forces[i].data0);
            push4(&mut w, &self.forces[i].data1);
            i = i + 1;
        }
        assert(self.forces@.take(self.forces@.len() as int) == self.forces@);
        words_to_bytes(w.as_slice())
    }
}

/// `p` packs `forces` with time step `dt`: the first [`MAX_FORCES`] fill the
/// slots in order, the rest of the slots stay zero, and `misc` carries `dt`
/// and the packed count (as a float).
pub open spec fn sim_params_match(p: SimParamsGpu, forces: Seq<ForceModifier>, dt: F32Bits) -> bool {
    &&& p.forces@.len() == MAX_FORCES
    &&& p.misc@ == seq![dt.0, F32_ZERO, F32_ZERO, count_bits(
        if forces.len() < MAX_FORCES { forces.len() } else { MAX_FORCES as nat },
    )]
    &&& forall|i: int| 0 <= i < MAX_FORCES && i < forces.len() ==> {
        &&& (#[trigger] p.forces@[i]).data0@ == force_lanes(forces[i]).0
        &&& p.forces@[i].data1@ == force_lanes(forces[i]).1
    }
    &&& forall|i: int| forces.len() <= i < MAX_FORCES ==> {
        &&& (#[trigger] p.forces@[i]).data0@ == seq![0u32, 0, 0, 0]
        &&& p.forces@[i].data1@ == seq![0u32, 0, 0, 0]
    }
}

/// Pack an effect's forces (see [`sim_params_match`]).
pub fn build_sim_params(forces: &[ForceModifier], dt: F32Bits) -> (p: SimParamsGpu)
    ensures
        sim_params_match(p, forces@, dt),
{
    let n = if forces.len() < MAX_FORCES { forces.len() } else { MAX_FORCES };
    let mut slots: Vec<GpuForce> = Vec::new();
    let mut i: usize = 0;
    while i < MAX_FORCES
        invariant
            i <= MAX_FORCES,
            n == if forces@.len() < MAX_FORCES { forces@.len() } else { MAX_FORCES as nat },
            slots@.len() == i,
            forall|k: int| 0 <= k < i && k < n ==> {
                &&& (#[trigger] slots@[k]).data0@ == force_lanes(forces@[k]).0
                &&& slots@[k].data1@ == force_lanes(forces@[k]).1
            },
            forall|k: int| n <= k < i ==> {
                &&& (#[trigger] slots@[k]).data0@ == seq![0u32, 0, 0, 0]
                &&& slots@[k].data1@ == seq![0u32, 0, 0, 0]
            },
        decreases MAX_FORCES - i,
    {
        if i < n {
            slots.push(pack_force(forces[i]));
        } else {
            let z = GpuForce { data0: [0u32; 4], data1: [0u32; 4] };
            assert(z.data0@ =~= seq![0u32, 0, 0, 0]);
            slots.push(z);
        }
        i = i + 1;
    }
    SimParamsGpu { misc: [dt.0, F32_ZERO, F32_ZERO, count_to_f32_bits(n)], forces: slots }
}

/// Per-effect draw parameters (`DrawParams` in the draw shaders).
#[derive(Clone, Copy, Debug, PartialEq, Eq)]
pub struct DrawParams {
    /// Billboard stretch factor (`0` = round).
    pub stretch: u32,
    /// Mesh orientation: 0 = velocity-aligned, 1 = random tumble.
    pub align: u32,
    /// Trail ribbon half-width at the head.
    pub trail_width: u32,
    /// Trail segments swept.
    pub trail_segments: u32,
}

impl DrawParams {
    /// The layout's words, field by field.
    pub open spec fn words(self) -> Seq<u32> {
        seq![self.stretch, self.align, self.trail_width, self.trail_segments]
    }

    /// The in-memory image for upload.
    pub fn to_bytes(&self) -> (b: Vec<u8>)
        ensures
            native_image(self.words(), b@),
            b@.len() == VEC4_BYTES,
    {
        let w = vec![self.stretch, self.align, self.trail_width, self.trail_segments];
        assert(w@ =~= self.words());
        words_to_bytes(w.as_slice())
    }
}

/// `v` limited to `[lo, hi]`.
pub open spec fn clamp_u32(v: u32, lo: u32, hi: u32) -> u32 {
    if v < lo {
        lo
    } else if v > hi {
        hi
    } else {
        v
    }
}

/// An effect's draw parameters, by render route: a billboard's stretch, a
/// mesh's orientation code, a trail's width and its segments clamped to
/// `1..=HISTORY_LEN - 1`.
pub open spec fn draw_params_of(render: ParticleRender) -> DrawParams {
    match render {
        ParticleRender::Billboard { stretch } => DrawParams {
            stretch: stretch.0,
            align: 0,
            trail_width: F32_ZERO,
            trail_segments: 0,
        },
        ParticleRender::Mesh { align, .. } => DrawParams {
            stretch: F32_ZERO,
            align: match align {
                MeshAlign::Velocity => 0u32,
                MeshAlign::Random => 1u32,
            },
            trail_width: F32_ZERO,
            trail_segments: 0,
        },
        ParticleRender::Trail { width, segments } => DrawParams {
            stretch: F32_ZERO,
            align: 0,
            trail_width: width.0,
            trail_segments: clamp_u32(segments, 1, (HISTORY_LEN - 1) as u32),
        },
    }
}

/// Derive an effect's draw parameters from its render route.
pub fn draw_params(render: ParticleRender) -> (p: DrawParams)
    ensures
        p == draw_params_of(render),
{
    match render {
        ParticleRender::Billboard { stretch } => DrawParams {
            stretch: stretch.0,
            align: 0,
            trail_width: F32_ZERO,
            trail_segments: 0,
        },
        ParticleRender::Mesh { align, .. } => DrawParams {
            stretch: F32_ZERO,
            align: match align {
                MeshAlign::Velocity => 0,
                MeshAlign::Random => 1,
            },
            trail_width: F32_ZERO,
            trail_segments: 0,
        },
        ParticleRender::Trail { width, segments } => {
            let hi = HISTORY_LEN - 1;
            let s = if segments < 1 {
                1
            } else if segments > hi {
                hi
            } else {
                segments
            };
            DrawParams { stretch: F32_ZERO, align: 0, trail_width: width.0, trail_segments: s }
        },
    }
}

/// Trail history parameters (`HistParams` in the history shaders).
#[derive(Clone, Copy, Debug, PartialEq, Eq)]
pub struct HistoryParams {
    /// Ring slot written this frame; also the newest sample when drawing.
    pub head: u32,
    pub capacity: u32,
    pub history_len: u32,
    pub pad: u32,
}

impl HistoryParams {
    /// The layout's words, field by field.
    pub open spec fn words(self) -> Seq<u32> {
        seq![self.head, self.capacity, self.history_len, self.pad]
    }

    /// The in-memory image for upload.
    pub fn to_bytes(&self) -> (b: Vec<u8>)
        ensures
            native_image(self.words(), b@),
            b@.len() == VEC4_BYTES,
    {
        let w = vec![self.head, self.capacity, self.history_len, self.pad];
        assert(w@ =~= self.words());
        words_to_bytes(w.as_slice())
    }
}

/// The history parameters of a frame: the ring slot cycles through
/// `0..HISTORY_LEN` with the (truncated) frame index.
pub open spec fn history_params_of(frame_index: u64, capacity: u32) -> HistoryParams {
    HistoryParams {
        head: ((frame_index as u32) % HISTORY_LEN) as u32,
        capacity,
        history_len: HISTORY_LEN,
        pad: 0,
    }
}

/// The history parameters for a frame.
pub fn history_params(frame_index: u64, capacity: u32) -> (p: HistoryParams)
    ensures
        p == history_params_of(frame_index, capacity),
        p.head < HISTORY_LEN,
{
    HistoryParams {
        head: (frame_index as u32) % HISTORY_LEN,
        capacity,
        history_len: HISTORY_LEN,
        pad: 0,
    }
}

/// Per-frame parameters of a generated effect (`GenParams` in the generated
/// kernels).
#[derive(Clone, Copy, Debug, PartialEq, Eq)]
pub struct GenParams {
    pub origin: [u32; 4],
    pub dt: u32,
    pub time: u32,
    pub spawn_count: u32,
    pub capacity: u32,
    pub rng_seed: u32,
    pub pad: [u32; 3],
}

/// `p` holds this frame's origin, time step and spawn control, with zero time.
pub open spec fn gen_params_match(
    p: GenParams,
    origin: [F32Bits; 3],
    dt: F32Bits,
    spawn_count: u32,
    capacity: u32,
    rng_seed: u32,
) -> bool {
    &&& p.origin@ == vec4_of(origin, F32_ZERO)
    &&& p.dt == dt.0
    &&& p.time == F32_ZERO
    &&& p.spawn_count == spawn_count
    &&& p.capacity == capacity
    &&& p.rng_seed == rng_seed
    &&& p.pad@ == seq![0u32, 0, 0]
}

impl GenParams {
    /// This frame's parameters: origin, time step, spawn control, zero time.
    pub fn new(origin: [F32Bits; 3], dt: F32Bits, spawn_count: u32, capacity: u32, rng_seed: u32) -> (p: Self)
        ensures
            gen_params_match(p, origin, dt, spawn_count, capacity, rng_seed),
    {
        let p = GenParams {
            origin: vec4_from(origin, F32_ZERO),
            dt: dt.0,
            time: F32_ZERO,
            spawn_count,
            capacity,
            rng_seed,
            pad: [0u32; 3],
        };
        assert(p.pad@ =~= seq![0u32, 0, 0]);
        p
    }

    /// The layout's words, field by field.
    pub open spec fn words(self) -> Seq<u32> {
        self.origin@ + seq![self.dt, self.time, self.spawn_count, self.capacity, self.rng_seed]
            + self.pad@
    }

    /// The in-memory image for upload.
    pub fn to_bytes(&self) -> (b: Vec<u8>)
        ensures
            native_image(self.words(), b@),
            b@.len() == GEN_PARAMS_BYTES,
    {
        let mut w: Vec<u32> = Vec::new();
        push4(&mut w, &self.origin);
        w.push(self.dt);
        w.push(self.time);
        w.push(self.spawn_count);
        w.push(self.capacity);
        w.push(self.rng_seed);
        w.push(self.pad[0]);
        w.push(self.pad[1]);
        w.push(self.pad[2]);
        assert(w@ =~= self.words());
        words_to_bytes(w.as_slice())
    }
}

/// Depth-sort setup parameters (`InitParams` in the sort setup shader).
#[derive(Clone, Copy, Debug, PartialEq, Eq)]
pub struct SortInitParams {
    pub eye: [u32; 4],
    pub capacity: u32,
    pub n: u32,
    pub pad: [u32; 2],
}

/// `p` holds the eye position, live capacity and padded length.
pub open spec fn sort_init_match(p: SortInitParams, eye: [F32Bits; 3], capacity: u32, n: u32) -> bool {
    &&& p.eye@ == vec4_of(eye, F32_ZERO)
    &&& p.capacity == capacity
    &&& p.n == n
    &&& p.pad@ == seq![0u32, 0]
}

impl SortInitParams {
    /// The setup parameters for an eye position, live capacity and padded
    /// length.
    pub fn new(eye: [F32Bits; 3], capacity: u32, n: u32) -> (p: Self)
        ensures
            sort_init_match(p, eye, capacity, n),
    {
        let p = SortInitParams { eye: vec4_from(eye, F32_ZERO), capacity, n, pad: [0u32; 2] };
        assert(p.pad@ =~= seq![0u32, 0]);
        p
    }

    /// The layout's words, field by field.
    pub open spec fn words(self) -> Seq<u32> {
        self.eye@ + seq![self.capacity, self.n] + self.pad@
    }

    /// The in-memory image for upload.
    pub fn to_bytes(&self) -> (b: Vec<u8>)
        ensures
            native_image(self.words(), b@),
            b@.len() == DOUBLE_VEC4_BYTES,
    {
        let mut w: Vec<u32> = Vec::new();
        push4(&mut w, &self.eye);
        w.push(self.capacity);
        w.push(self.n);
        w.push(self.pad[0]);
        w.push(self.pad[1]);
        assert(w@ =~= self.words());
        words_to_bytes(w.as_slice())
    }
}

/// Per-effect pick-id uniform.
#[derive(Clone, Copy, Debug, PartialEq, Eq)]
pub struct PickUniform {
    pub id: u32,
    pub pad: [u32; 3],
}

impl PickUniform {
    /// The uniform for a pick id.
    pub fn new(id: u32) -> (p: Self)
        ensures
            p.id == id,
            p.pad@ == seq![0u32, 0, 0],
    {
        let p = PickUniform { id, pad: [0u32; 3] };
        assert(p.pad@ =~= seq![0u32, 0, 0]);
        p
    }

    /// The layout's words, field by field.
    pub open spec fn words(self) -> Seq<u32> {
        seq![self.id] + self.pad@
    }

    /// The in-memory image for upload.
    pub fn to_bytes(&self) -> (b: Vec<u8>)
        ensures
            native_image(self.words(), b@),
            b@.len() == VEC4_BYTES,
    {
        let w = vec![self.id, self.pad[0], self.pad[1], self.pad[2]];
        assert(w@ =~= self.words());
        words_to_bytes(w.as_slice())
    }
}

/// Bytes to allocate for a particle buffer of `capacity` slots (at least one
/// slot, so the binding is never empty).
pub fn particle_buffer_size(capacity: u32) -> (n: u64)
    ensures
        n == if capacity == 0 { PARTICLE_BYTES as int } else { capacity * PARTICLE_BYTES },
{
    let bytes = (capacity as u64) * PARTICLE_BYTES;
    if bytes > PARTICLE_BYTES { bytes } else { PARTICLE_BYTES }
}

/// Bytes to allocate for a trail history ring: `HISTORY_LEN` samples per
/// particle slot, at least one sample.
pub fn history_buffer_size(capacity: u32) -> (n: u64)
    ensures
        n == if capacity == 0 { HISTORY_SAMPLE_BYTES as int } else { capacity * HISTORY_LEN * HISTORY_SAMPLE_BYTES },
{
    let per_slot: u64 = (HISTORY_LEN as u64) * HISTORY_SAMPLE_BYTES;
    assert(per_slot == 384);
    let c = capacity as u64;
    assert(c * 384 <= 0x17f_ffff_fe80) by (nonlinear_arith)
        requires
            c <= 0xffff_ffff,
    ;
    let bytes = c * per_slot;
    assert((c >= 1 ==> bytes >= 384) && (c == 0 ==> bytes == 0)) by (nonlinear_arith)
        requires
            bytes == c * 384,
    ;
    if bytes > HISTORY_SAMPLE_BYTES { bytes } else { HISTORY_SAMPLE_BYTES }
}

/// Bytes to allocate for an upload of `len` bytes (at least one word).
pub fn upload_buffer_size(len: usize) -> (n: u64)
    ensures
        n == if len < 4 { 4 } else { len as int },
{
    let size = len as u64;
    if size > 4 { size } else { 4 }
}

} // verus!

verus! {

/// Expanding-ring refraction parameters (`Refract` in the refraction
/// shader): ring centre in uv, radius, width, peak strength, aspect.
#[derive(Clone, Copy, Debug, PartialEq, Eq)]
pub struct RefractParams {
    pub center: [u32; 2],
    pub radius: u32,
    pub width: u32,
    pub strength: u32,
    pub aspect: u32,
    pub pad: [u32; 2],
}

impl RefractParams {
    /// The parameters for a ring.
    pub fn new(center: [F32Bits; 2], radius: F32Bits, width: F32Bits, strength: F32Bits, aspect: F32Bits) -> (p: Self)
        ensures
            p.center@ == seq![center@[0].0, center@[1].0],
            p.radius == radius.0,
            p.width == width.0,
            p.strength == strength.0,
            p.aspect == aspect.0,
            p.pad@ == seq![0u32, 0],
    {
        let p = RefractParams {
            center: [center[0].0, center[1].0],
            radius: radius.0,
            width: width.0,
            strength: strength.0,
            aspect: aspect.0,
            pad: [0u32; 2],
        };
        assert(p.center@ =~= seq![center@[0].0, center@[1].0]);
        assert(p.pad@ =~= seq![0u32, 0]);
        p
    }

    /// The layout's words, field by field.
    pub open spec fn words(self) -> Seq<u32> {
        self.center@ + seq![self.radius, self.width, self.strength, self.aspect] + self.pad@
    }

    /// The in-memory image for upload.
    pub fn to_bytes(&self) -> (b: Vec<u8>)
        ensures
            native_image(self.words(), b@),
            b@.len() == DOUBLE_VEC4_BYTES,
    {
        let w = vec![
            self.center[0],
            self.center[1],
            self.radius,
            self.width,
            self.strength,
            self.aspect,
            self.pad[0],
            self.pad[1],
        ];
        assert(w@ =~= self.words());
        words_to_bytes(w.as_slice())
    }
}

} // verus!

verus! {

/// `floor(log2 n)` for `n >= 1` (and 0 for 0).
pub open spec fn floor_log2(n: nat) -> nat
    decreases n,
{
    if n < 2 {
        0
    } else {
        1 + floor_log2(n / 2)
    }
}

/// The IEEE-754 single-precision bit pattern of a natural number below
/// `2^24` (which `f32` holds exactly): sign 0, biased exponent
/// `127 + floor(log2 n)`, and as mantissa the bits of `n` below its leading
/// one, left-aligned in 23 bits. Zero is all zero bits.
pub open spec fn f32_bits_of_nat(n: nat) -> int {
    if n == 0 {
        0
    } else {
        let e = floor_log2(n);
        (127 + e) * pow2(23) + (n - pow2(e)) * pow2((23 - e) as nat)
    }
}

/// The force-count lane holds the count as an `f32`: for every count the
/// simulate kernel can see (`0..=8`), `count_bits(n)` is the single-precision
/// encoding of `n`, so different counts never share a pattern.
pub proof fn lemma_count_bits_encode_counts(n: nat, m: nat)
    requires
        n <= 8,
        m <= 8,
    ensures
        count_bits(n) == f32_bits_of_nat(n),
        count_bits(n) == count_bits(m) ==> n == m,
{
    lemma2_to64();
    reveal_with_fuel(floor_log2, 5);
    assert(floor_log2(1) == 0);
    assert(floor_log2(2) == 1);
    assert(floor_log2(3) == 1);
    assert(floor_log2(4) == 2);
    assert(floor_log2(5) == 2);
    assert(floor_log2(6) == 2);
    assert(floor_log2(7) == 2);
    assert(floor_log2(8) == 3);
    assert(f32_bits_of_nat(0) == 0x0000_0000);
    assert(f32_bits_of_nat(1) == 0x3f80_0000);
    assert(f32_bits_of_nat(2) == 0x4000_0000);
    assert(f32_bits_of_nat(3) == 0x4040_0000);
    assert(f32_bits_of_nat(4) == 0x4080_0000);
    assert(f32_bits_of_nat(5) == 0x40a0_0000);
    assert(f32_bits_of_nat(6) == 0x40c0_0000);
    assert(f32_bits_of_nat(7) == 0x40e0_0000);
    assert(f32_bits_of_nat(8) == 0x4100_0000);
}

/// The simulate parameters carry, as an `f32`, how many forces the kernel
/// applies: all of them, up to [`MAX_FORCES`].
pub proof fn lemma_sim_force_count(p: SimParamsGpu, forces: Seq<ForceModifier>, dt: F32Bits)
    requires
        sim_params_match(p, forces, dt),
    ensures
        p.misc@[3] == f32_bits_of_nat(if forces.len() < MAX_FORCES { forces.len() } else { MAX_FORCES as nat }),
{
    let n = if forces.len() < MAX_FORCES { forces.len() } else { MAX_FORCES as nat };
    lemma_count_bits_encode_counts(n, n);
}

/// The emit kernel tells spawn shapes and velocity distributions apart by
/// their codes: each variant has its own code (so two different variants
/// never pack the same code), and a uniform box packs its lower corner in
/// the first velocity lane and its upper corner in the second.
pub proof fn lemma_emit_kind_codes(
    p: EmitParamsGpu,
    e: Emitter,
    origin: [F32Bits; 3],
    capacity: u32,
    spawn_count: u32,
    rng_seed: u32,
)
    requires
        emit_params_match(p, e, origin, capacity, spawn_count, rng_seed),
    ensures
        p.kinds@[0] == 0 <==> e.spawn is Point,
        p.kinds@[0] == 1 <==> e.spawn is Box,
        p.kinds@[0] == 2 <==> e.spawn is Sphere,
        p.kinds@[1] == 0 <==> e.velocity is Fixed,
        p.kinds@[1] == 1 <==> e.velocity is UniformBox,
        p.kinds@[1] == 2 <==> e.velocity is UniformCone,
        e.velocity matches VelocityDist::UniformBox { min, max } ==> forall|i: int|
            0 <= i < 3 ==> p.vel_a@[i] == min@[i].0 && p.vel_b@[i] == max@[i].0,
{
}

/// Each packed force slot carries its kind as an `f32` in the last lane of
/// its first vector: acceleration 0, drag 1, point attractor 2, curl noise 3.
pub proof fn lemma_force_kind_codes(f: ForceModifier)
    ensures
        force_lanes(f).0[3] == f32_bits_of_nat(match f {
            ForceModifier::Accel(_) => 0nat,
            ForceModifier::Drag(_) => 1nat,
            ForceModifier::PointAttractor { .. } => 2nat,
            ForceModifier::CurlNoise { .. } => 3nat,
        }),
{
    lemma_count_bits_encode_counts(0, 0);
    lemma_count_bits_encode_counts(1, 1);
    lemma_count_bits_encode_counts(2, 2);
    lemma_count_bits_encode_counts(3, 3);
}

} // verus!
