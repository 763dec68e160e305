//! Per-frame scheduling of the particle plugin.
//!
//! The plugin simulates each registered effect once per frame, driven by the
//! first visible submitted instance of that effect; it pads each effect's
//! draw order to a power of two and sorts it with a bitonic network; and it
//! bakes lifetime ramps into half-float lookup textures. This module holds
//! those decisions and layouts; the GPU work that consumes them lives with
//! the host.

use vstd::prelude::*;

use crate::bytes::{native_image, words_to_bytes};
use crate::effect::{EffectId, F32Bits};
use crate::params::{clamp_u32, HISTORY_LEN, SORT_STAGE_STRIDE};
use crate::effect::ParticleRender;
use vstd::arithmetic::div_mod::{lemma_add_mod_noop, lemma_mod_sub_multiples_vanish, lemma_small_mod};
use vstd::arithmetic::power2::{
    lemma2_to64, lemma_pow2_pos, lemma_pow2_strictly_increases, lemma_pow2_unfold, pow2,
};

verus! {

/// Threads per compute workgroup in every particle kernel.
pub const WORKGROUP_SIZE: u32 = 64;

/// Texels in a lifetime-ramp lookup texture.
pub const RAMP_WIDTH: u32 = 64;

/// The `type_name` the plugin registers under, and that per-frame item
/// collections are keyed by.
pub const TYPE_NAME: &'static str = "viewport_lib_particles";

/// The per-item flags the plugin reads from a submitted instance.
#[derive(Clone, Copy, Debug, PartialEq, Eq)]
pub struct ItemFlags {
    /// Hidden instances neither drive nor draw.
    pub hidden: bool,
    /// Pick id (`0` = not pickable).
    pub pick_id: u64,
    /// Selected instances draw the outline mask.
    pub selected: bool,
    /// Whether the instance casts shadows.
    pub cast_shadows: bool,
}

impl Default for ItemFlags {
    fn default() -> (f: Self)
        ensures
            f == (ItemFlags { hidden: false, pick_id: 0, selected: false, cast_shadows: true }),
    {
        ItemFlags { hidden: false, pick_id: 0, selected: false, cast_shadows: true }
    }
}

/// One live instance of an effect in the scene this frame.
#[derive(Clone, Copy, Debug, PartialEq, Eq)]
pub struct ParticleItem {
    /// Which registered effect to simulate and draw.
    pub effect: EffectId,
    /// World-space emitter origin.
    pub position: [F32Bits; 3],
    /// Per-item flags.
    pub settings: ItemFlags,
}

impl ParticleItem {
    /// A visible instance of `effect` at the world origin.
    pub fn new(effect: EffectId) -> (it: Self)
        ensures
            it.effect == effect,
            it.position == [F32Bits(0), F32Bits(0), F32Bits(0)],
            it.settings == (ItemFlags { hidden: false, pick_id: 0, selected: false, cast_shadows: true }),
    {
        ParticleItem {
            effect,
            position: [F32Bits(0), F32Bits(0), F32Bits(0)],
            settings: ItemFlags::default(),
        }
    }

    /// Place the emitter at `position`.
    pub fn at(self, position: [F32Bits; 3]) -> (it: Self)
        ensures
            it == (ParticleItem { position, ..self }),
    {
        ParticleItem { position, ..self }
    }
}

/// Bit pattern of `1.0 / 60.0`, the default frame time step.
pub const DEFAULT_DT_BITS: u32 = 0x3c88_8889;

/// The per-frame collection of live effect instances.
#[derive(Clone, Debug)]
pub struct ParticleItems {
    /// The submitted instances, in submission order.
    pub items: Vec<ParticleItem>,
    /// Simulation time step in seconds for this frame.
    pub dt: F32Bits,
    /// Whether to depth-sort non-additive effects back-to-front this frame.
    pub sort_transparent: bool,
}

impl View for ParticleItems {
    type V = Seq<ParticleItem>;

    open spec fn view(&self) -> Seq<ParticleItem> {
        self.items@
    }
}

impl Default for ParticleItems {
    fn default() -> (c: Self)
        ensures
            c@ == Seq::<ParticleItem>::empty(),
            c.dt == F32Bits(DEFAULT_DT_BITS),
            c.sort_transparent,
    {
        ParticleItems { items: Vec::new(), dt: F32Bits(DEFAULT_DT_BITS), sort_transparent: true }
    }
}

impl ParticleItems {
    /// An empty collection with the default 1/60 s time step.
    pub fn new() -> (c: Self)
        ensures
            c@ == Seq::<ParticleItem>::empty(),
            c.dt == F32Bits(DEFAULT_DT_BITS),
            c.sort_transparent,
    {
        Self::default()
    }

    /// Set the simulation time step for this frame.
    pub fn with_dt(self, dt: F32Bits) -> (c: Self)
        ensures
            c@ == self@,
            c.dt == dt,
            c.sort_transparent == self.sort_transparent,
    {
        ParticleItems { dt, ..self }
    }

    /// Enable or disable depth sorting of non-additive effects.
    pub fn with_sort_transparent(self, sort: bool) -> (c: Self)
        ensures
            c@ == self@,
            c.dt == self.dt,
            c.sort_transparent == sort,
    {
        ParticleItems { sort_transparent: sort, ..self }
    }

    /// Append an instance.
    pub fn push(&mut self, item: ParticleItem)
        ensures
            final(self)@ == old(self)@.push(item),
            final(self).dt == old(self).dt,
            final(self).sort_transparent == old(self).sort_transparent,
    {
        self.items.push(item);
    }

    /// The submitted instances.
    pub fn items(&self) -> (s: &[ParticleItem])
        ensures
            s@ == self@,
    {
        self.items.as_slice()
    }

    /// Number of submitted instances.
    pub fn len(&self) -> (n: usize)
        ensures
            n == self@.len(),
    {
        self.items.len()
    }
}

/// The instance that drives an effect this frame: its origin and the
/// interaction flags the draw passes use.
#[derive(Clone, Copy, Debug, PartialEq, Eq)]
pub struct Driver {
    pub position: [F32Bits; 3],
    pub pick_id: u32,
    pub selected: bool,
    pub cast_shadows: bool,
}

/// What an instance contributes when it drives its effect.
pub open spec fn driver_of(it: ParticleItem) -> Driver {
    Driver {
        position: it.position,
        pick_id: it.settings.pick_id as u32,
        selected: it.settings.selected,
        cast_shadows: it.settings.cast_shadows,
    }
}

/// Index of the first visible instance of effect `e` among the first `n`.
pub open spec fn first_visible(items: Seq<ParticleItem>, e: int, n: nat) -> Option<int>
    decreases n,
{
    if n == 0 {
        None
    } else {
        match first_visible(items, e, (n - 1) as nat) {
            Some(i) => Some(i),
            None => if !items[n - 1].settings.hidden && items[n - 1].effect.0 == e {
                Some(n - 1)
            } else {
                None
            },
        }
    }
}

/// The driver of effect `e`: the first visible instance of it, if any.
pub open spec fn driver_spec(items: Seq<ParticleItem>, e: int) -> Option<Driver> {
    match first_visible(items, e, items.len()) {
        Some(i) => Some(driver_of(items[i])),
        None => None,
    }
}

/// Pick each effect's driver: the first non-hidden instance of that effect.
/// Instances of unregistered effects are ignored.
pub fn select_drivers(items: &[ParticleItem], effect_count: usize) -> (d: Vec<Option<Driver>>)
    ensures
        d@.len() == effect_count,
        forall|e: int| 0 <= e < effect_count ==> #[trigger] d@[e] == driver_spec(items@, e),
{
    let mut d: Vec<Option<Driver>> = Vec::new();
    let mut z: usize = 0;
    while z < effect_count
        invariant
            z <= effect_count,
            d@.len() == z,
            forall|e: int| 0 <= e < z ==> #[trigger] d@[e] == None::<Driver>,
        decreases effect_count - z,
    {
        d.push(None);
        z = z + 1;
    }
    let mut i: usize = 0;
    while i < items.len()
        invariant
            i <= items@.len(),
            d@.len() == effect_count,
            forall|e: int| 0 <= e < effect_count ==> #[trigger] d@[e] == match first_visible(items@, e, i as nat) {
                Some(k) => Some(driver_of(items@[k])),
                None => None,
            },
        decreases items@.len() - i,
    {
        let it = items[i];
        let idx = it.effect.0 as usize;
        if !it.settings.hidden && idx < d.len() && d[idx].is_none() {
            d.set(
                idx,
                Some(
                    Driver {
                        position: it.position,
                        pick_id: it.settings.pick_id as u32,
                        selected: it.settings.selected,
                        cast_shadows: it.settings.cast_shadows,
                    },
                ),
            );
        }
        i = i + 1;
    }
    d
}

/// The first visible instance of an effect is visible, belongs to the
/// effect, and no visible instance of the effect comes before it; if there is
/// none, no instance of the effect is visible.
pub proof fn lemma_first_visible_is_first(items: Seq<ParticleItem>, e: int, n: nat)
    requires
        n <= items.len(),
    ensures
        match first_visible(items, e, n) {
            Some(i) => {
                &&& 0 <= i < n
                &&& !items[i].settings.hidden
                &&& items[i].effect.0 == e
                &&& forall|j: int| 0 <= j < i ==> #[trigger] items[j].settings.hidden || items[j].effect.0 != e
            },
            None => forall|j: int| 0 <= j < n ==> #[trigger] items[j].settings.hidden || items[j].effect.0 != e,
        },
    decreases n,
{
    if n > 0 {
        lemma_first_visible_is_first(items, e, (n - 1) as nat);
    }
}

/// `n` is a power of two.
pub open spec fn is_power_of_two(n: int) -> bool {
    exists|e: nat| pow2(e) == n
}

/// `n` is the smallest power of two that is at least `v` (and at least 1):
/// the padded length of a draw order of `v` slots.
pub open spec fn is_order_len(n: int, v: int) -> bool {
    &&& is_power_of_two(n)
    &&& n >= v
    &&& (n == 1 || n / 2 < v)
}

/// At most one length is the padded length of `v` slots.
pub proof fn lemma_order_len_unique(a: int, b: int, v: int)
    requires
        is_order_len(a, v),
        is_order_len(b, v),
    ensures
        a == b,
{
    let i = choose|e: nat| pow2(e) == a;
    let j = choose|e: nat| pow2(e) == b;
    if i < j {
        lemma_pow2_unfold(j);
        if i < (j - 1) as nat {
            lemma_pow2_strictly_increases(i, (j - 1) as nat);
        }
        lemma_pow2_pos(i);
        assert(b / 2 == pow2((j - 1) as nat));
        assert(false);
    } else if j < i {
        lemma_pow2_unfold(i);
        if j < (i - 1) as nat {
            lemma_pow2_strictly_increases(j, (i - 1) as nat);
        }
        lemma_pow2_pos(j);
        assert(a / 2 == pow2((i - 1) as nat));
        assert(false);
    }
}

/// Smallest power of two `>= v` (and `>= 1`). Values above `2^31` have no
/// such `u32` (the loop would not end).
pub fn next_pow2(v: u32) -> (n: u32)
    requires
        v <= 0x8000_0000,
    ensures
        is_order_len(n as int, v as int),
{
    let mut n = 1u32;
    let ghost mut e: nat = 0;
    proof {
        lemma2_to64();
    }
    while n < v
        invariant
            n == pow2(e),
            e <= 31,
            v <= 0x8000_0000,
            n == 1 || n / 2 < v,
            pow2(31) == 0x8000_0000,
        decreases 31 - e,
    {
        proof {
            if e >= 31 {
                if e > 31 {
                    lemma_pow2_strictly_increases(31, e);
                }
                assert(false);
            }
            lemma_pow2_unfold(e + 1);
            if e + 1 < 31 {
                lemma_pow2_strictly_increases(e + 1, 31);
            }
        }
        assert(n < 0x8000_0000);
        assert(n << 1 == n * 2) by (bit_vector)
            requires
                n < 0x8000_0000u32,
        ;
        n <<= 1;
        proof {
            e = e + 1;
        }
    }
    n
}

/// The ceiling of `n / WORKGROUP_SIZE`, at least one: workgroups to cover
/// `n` invocations.
pub open spec fn workgroups(n: u32) -> int {
    if n == 0 { 1 } else { (n as int + 63) / 64 }
}

/// Workgroups to dispatch over `n` invocations.
pub fn workgroup_count(n: u32) -> (g: u32)
    ensures
        g == workgroups(n),
        g * 64 >= n,
        g >= 1,
{
    let q = n / WORKGROUP_SIZE;
    let c = if n % WORKGROUP_SIZE != 0 { q + 1 } else { q };
    if c > 1 { c } else { 1 }
}

/// The per-effect random seed of a frame: the truncated frame index times
/// 2654435761, plus the (truncated) effect index, modulo `2^32`.
pub open spec fn frame_seed(frame_index: u64, effect_index: usize) -> int {
    ((frame_index as u32) as int * 2654435761 + (effect_index as u32) as int) % 0x1_0000_0000
}

/// This frame's random seed for an effect.
pub fn rng_seed(frame_index: u64, effect_index: usize) -> (s: u32)
    ensures
        s == frame_seed(frame_index, effect_index),
{
    let f = frame_index as u32;
    let i = effect_index as u32;
    let m = f.wrapping_mul(2654435761u32);
    let r = m.wrapping_add(i);
    proof {
        let x = f as int * 2654435761;
        let big: int = 0x1_0000_0000;
        assert(m == x % big);
        lemma_add_mod_noop(x, i as int, big);
        lemma_small_mod(i as nat, big as nat);
        if m as int + i as int >= big {
            lemma_mod_sub_multiples_vanish(m as int + i as int, big);
            lemma_small_mod((m as int + i as int - big) as nat, big as nat);
        } else {
            lemma_small_mod((m as int + i as int) as nat, big as nat);
        }
    }
    r
}

/// One frame of a burst emitter: what it spawns and whether it has fired.
pub open spec fn burst_step(done: bool, count: u32) -> (u32, bool) {
    if done {
        (0, true)
    } else {
        (count, true)
    }
}

/// Particles a burst emitter spawns over `frames` frames from state `done`.
pub open spec fn burst_total(done: bool, count: u32, frames: nat) -> int
    decreases frames,
{
    if frames == 0 {
        0
    } else {
        burst_step(done, count).0 + burst_total(burst_step(done, count).1, count, (frames - 1) as nat)
    }
}

/// A burst fires once: over any run of frames from a fresh effect it spawns
/// exactly its count (nothing before the first frame), and after it has
/// fired it spawns nothing.
pub proof fn lemma_burst_fires_once(count: u32, frames: nat)
    ensures
        burst_total(false, count, frames) == if frames == 0 { 0 } else { count as int },
        burst_total(true, count, frames) == 0,
    decreases frames,
{
    if frames > 0 {
        lemma_burst_fires_once(count, (frames - 1) as nat);
    }
}

/// Particles a burst emitter spawns this frame: its whole count the first
/// time, then nothing.
pub fn burst_spawn_count(burst_done: &mut bool, count: u32) -> (n: u32)
    ensures
        (n, *final(burst_done)) == burst_step(*old(burst_done), count),
{
    if *burst_done {
        0
    } else {
        *burst_done = true;
        count
    }
}

/// Vertices the non-indexed draw of a render route issues per particle:
/// one quad (six vertices) for a billboard, six per swept segment for a
/// trail (segments clamped to `1..=HISTORY_LEN - 1`). Mesh instances draw
/// indexed, with the mesh's own index count.
pub fn route_vertex_count(render: ParticleRender) -> (n: Option<u32>)
    ensures
        n == match render {
            ParticleRender::Billboard { .. } => Some(6u32),
            ParticleRender::Mesh { .. } => None,
            ParticleRender::Trail { segments, .. } => Some((clamp_u32(segments, 1, (HISTORY_LEN - 1) as u32) * 6) as u32),
        },
{
    match render {
        ParticleRender::Billboard { .. } => Some(6),
        ParticleRender::Mesh { .. } => None,
        ParticleRender::Trail { segments, .. } => {
            let hi = HISTORY_LEN - 1;
            let s = if segments < 1 {
                1
            } else if segments > hi {
                hi
            } else {
                segments
            };
            Some(s * 6)
        },
    }
}

/// One bitonic stage's constants (`SortParams` in the sort shader).
#[derive(Clone, Copy, Debug, PartialEq, Eq)]
pub struct SortStageParams {
    pub k: u32,
    pub j: u32,
    pub n: u32,
    pub pad: u32,
}

impl SortStageParams {
    /// The layout's words, field by field.
    pub open spec fn words(self) -> Seq<u32> {
        seq![self.k, self.j, self.n, self.pad]
    }

    /// The in-memory image for upload.
    pub fn to_bytes(&self) -> (b: Vec<u8>)
        ensures
            native_image(self.words(), b@),
            b@.len() == 16,
    {
        let w = vec![self.k, self.j, self.n, self.pad];
        assert(w@ =~= self.words());
        words_to_bytes(w.as_slice())
    }
}

/// The stages of one merge size `k`: `j = k/2, k/4, ..., 1` (from `j`).
pub open spec fn stage_run(k: nat, j: nat, n: nat) -> Seq<SortStageParams>
    decreases j,
{
    if j == 0 {
        seq![]
    } else {
        seq![SortStageParams { k: k as u32, j: j as u32, n: n as u32, pad: 0 }] + stage_run(k, j / 2, n)
    }
}

/// How far `k` is from exceeding `n`.
pub open spec fn room(k: nat, n: nat) -> nat {
    if k > n {
        0
    } else {
        (n - k + 1) as nat
    }
}

/// The bitonic network for padded length `n`, from merge size `k` on:
/// for `k = 2, 4, ..., <= n`, every `j` from `k/2` down to `1`.
pub open spec fn stages_from(k: nat, n: nat) -> Seq<SortStageParams>
    decreases room(k, n),
{
    if k == 0 || k > n {
        seq![]
    } else {
        stage_run(k, k / 2, n) + stages_from(2 * k, n)
    }
}

/// `0 + 1 + ... + m`.
pub open spec fn triangle(m: nat) -> nat {
    m * (m + 1) / 2
}

proof fn lemma_stage_run_len(k: nat, e: nat, n: nat)
    ensures
        stage_run(k, pow2(e), n).len() == e + 1,
    decreases e,
{
    lemma_pow2_pos(e);
    if e > 0 {
        lemma_pow2_unfold(e);
        lemma_stage_run_len(k, (e - 1) as nat, n);
        assert(pow2(e) / 2 == pow2((e - 1) as nat));
    } else {
        lemma2_to64();
        assert(stage_run(k, 0, n).len() == 0);
        assert(stage_run(k, 1, n).len() == 1 + stage_run(k, 0, n).len());
    }
}

proof fn lemma_stages_from_len(i: nat, m: nat)
    requires
        1 <= i <= m + 1,
    ensures
        stages_from(pow2(i), pow2(m)).len() + triangle((i - 1) as nat) == triangle(m),
    decreases m + 1 - i,
{
    lemma_pow2_pos(i);
    if i == m + 1 {
        lemma_pow2_strictly_increases(m, i);
    } else {
        lemma_pow2_unfold(i + 1);
        lemma_pow2_unfold(i);
        if i < m {
            lemma_pow2_strictly_increases(i, m);
        }
        lemma_stages_from_len(i + 1, m);
        lemma_stage_run_len(pow2(i), (i - 1) as nat, pow2(m));
        assert(pow2(i) / 2 == pow2((i - 1) as nat));
        assert(2 * pow2(i) == pow2(i + 1));
        assert(triangle(i) == triangle((i - 1) as nat) + i) by (nonlinear_arith)
            requires
                i >= 1,
        ;
    }
}

/// For a padded length `2^m` the bitonic network has `m (m + 1) / 2` stages.
pub proof fn lemma_stage_count(m: nat)
    ensures
        stages_from(2, pow2(m)).len() == triangle(m),
{
    lemma2_to64();
    lemma_stages_from_len(1, m);
}

/// Precompute the bitonic `(k, j)` stages for a padded length `n`.
pub fn sort_stages(n: u32) -> (s: Vec<SortStageParams>)
    requires
        n < 0x8000_0000,
    ensures
        s@ == stages_from(2, n as nat),
{
    let mut stages: Vec<SortStageParams> = Vec::new();
    let mut k: u32 = 2;
    while k <= n
        invariant
            2 <= k,
            n < 0x8000_0000,
            stages@ + stages_from(k as nat, n as nat) == stages_from(2, n as nat),
        decreases 0x1_0000_0000 - k,
    {
        let ghost before = stages@;
        let mut j = k >> 1;
        assert(k >> 1 == k / 2) by (bit_vector);
        while j > 0
            invariant
                k <= n,
                stages@ + stage_run(k as nat, j as nat, n as nat) == before + stage_run(k as nat, (k / 2) as nat, n as nat),
            decreases j,
        {
            let ghost s0 = stages@;
            stages.push(SortStageParams { k, j, n, pad: 0 });
            assert(j >> 1 == j / 2) by (bit_vector);
            assert(stages@ + stage_run(k as nat, (j / 2) as nat, n as nat)
                =~= s0 + stage_run(k as nat, j as nat, n as nat));
            j >>= 1;
        }
        assert(stage_run(k as nat, j as nat, n as nat) == Seq::<SortStageParams>::empty());
        assert(stages@ =~= before + stage_run(k as nat, (k / 2) as nat, n as nat));
        assert(stages_from(k as nat, n as nat) == stage_run(k as nat, (k / 2) as nat, n as nat)
            + stages_from(2 * k as nat, n as nat));
        assert(before + stages_from(k as nat, n as nat) =~= stages@ + stages_from(2 * k as nat, n as nat));
        assert(k << 1 == k * 2) by (bit_vector)
            requires
                k < 0x8000_0000u32,
        ;
        k <<= 1;
    }
    assert(stages_from(k as nat, n as nat) == Seq::<SortStageParams>::empty());
    assert(stages@ =~= stages@ + stages_from(k as nat, n as nat));
    stages
}

/// The shared stage uniform buffer: stage `s`'s 16 bytes at byte
/// `s * SORT_STAGE_STRIDE`, zeros elsewhere.
pub fn sort_stage_image(stages: &[SortStageParams]) -> (img: Vec<u8>)
    requires
        stages@.len() * 256 <= usize::MAX,
    ensures
        img@.len() == stages@.len() * 256,
        forall|s: int| 0 <= s < stages@.len() ==> native_image(
            (#[trigger] stages@[s]).words(),
            img@.subrange(s * 256, s * 256 + 16),
        ),
        forall|b: int| 0 <= b < img@.len() && b % 256 >= 16 ==> #[trigger] img@[b] == 0,
{
    let total = stages.len() * (SORT_STAGE_STRIDE as usize);
    let mut img: Vec<u8> = Vec::new();
    let mut z: usize = 0;
    while z < total
        invariant
            z <= total,
            total == stages@.len() * 256,
            img@.len() == z,
            forall|b: int| 0 <= b < z ==> #[trigger] img@[b] == 0,
        decreases total - z,
    {
        img.push(0);
        z = z + 1;
    }
    let mut s: usize = 0;
    while s < stages.len()
        invariant
            s <= stages@.len(),
            total == stages@.len() * 256,
            img@.len() == total,
            forall|t: int| 0 <= t < s ==> native_image(
                (#[trigger] stages@[t]).words(),
                img@.subrange(t * 256, t * 256 + 16),
            ),
            forall|b: int| 0 <= b < img@.len() && (b % 256 >= 16 || b >= s * 256) ==> #[trigger] img@[b] == 0,
        decreases stages@.len() - s,
    {
        let bytes = stages[s].to_bytes();
        let off = s * 256;
        assert(off + 256 <= total) by (nonlinear_arith)
            requires
                s < stages@.len(),
                off == s * 256,
                total == stages@.len() * 256,
        ;
        let ghost img0 = img@;
        let mut b: usize = 0;
        while b < 16
            invariant
                b <= 16,
                off + 256 <= total,
                off == s * 256,
                img@.len() == total,
                bytes@.len() == 16,
                forall|q: int| 0 <= q < b ==> #[trigger] img@[off + q] == bytes@[q],
                forall|q: int| 0 <= q < img@.len() && !(off <= q < off + b) ==> #[trigger] img@[q] == img0[q],
            decreases 16 - b,
        {
            img.set(off + b, bytes[b]);
            b = b + 1;
        }
        proof {
            assert forall|q: int| 0 <= q < 16 implies #[trigger] img@.subrange(off as int, off + 16)[q] == bytes@[q] by {
                assert(img@[off + q] == bytes@[q]);
            }
            assert(img@.subrange(off as int, off + 16) =~= bytes@);
            assert forall|t: int| 0 <= t < s implies native_image(
                (#[trigger] stages@[t]).words(),
                img@.subrange(t * 256, t * 256 + 16),
            ) by {
                assert(t * 256 + 256 <= off) by (nonlinear_arith)
                    requires
                        t < s,
                        off == s * 256,
                ;
                assert(img@.subrange(t * 256, t * 256 + 16) =~= img0.subrange(t * 256, t * 256 + 16));
            }
            assert forall|q: int| 0 <= q < img@.len() && (q % 256 >= 16 || q >= (s + 1) * 256) implies #[trigger] img@[q] == 0 by {
                if off <= q < off + 16 {
                    assert((q - off) % 256 == q % 256 - 0) by (nonlinear_arith)
                        requires
                            off == s * 256,
                            off <= q < off + 16,
                    ;
                    assert(false);
                }
                assert(img@[q] == img0[q]);
            }
        }
        s = s + 1;
    }
    img
}

/// A draw-order index buffer of `n` slots, initialised to identity
/// (`order[i] == i`).
pub fn order_image(n: u32) -> (img: Vec<u8>)
    ensures
        native_image(Seq::new(n as nat, |i: int| i as u32), img@),
        img@.len() == 4 * n,
{
    let mut indices: Vec<u32> = Vec::new();
    let mut i: u32 = 0;
    while i < n
        invariant
            i <= n,
            indices@ == Seq::new(i as nat, |q: int| q as u32),
        decreases n - i,
    {
        indices.push(i);
        i = i + 1;
        assert(indices@ =~= Seq::new(i as nat, |q: int| q as u32));
    }
    words_to_bytes(indices.as_slice())
}

/// The IEEE-754 half-precision bits of a single-precision value (given by
/// its bits): exponent rebiased, mantissa rounded to ten bits (to nearest,
/// ties to even), overflow (and infinity / NaN) to the largest finite half,
/// underflow into the subnormal range flushed to a signed zero.
pub open spec fn half_bits(bits: u32) -> u16 {
    let sign: int = if bits >= 0x8000_0000 { 0x8000 } else { 0 };
    let exp: int = (bits as int / 0x80_0000) % 256 - 127 + 15;
    let mantissa: int = bits as int % 0x80_0000;
    let kept: int = mantissa / 0x2000;
    let dropped: int = mantissa % 0x2000;
    let round_up: bool = dropped > 0x1000 || (dropped == 0x1000 && kept % 2 == 1);
    let magnitude: int = exp * 1024 + kept + if round_up { 1int } else { 0int };
    if exp >= 0x1f {
        (sign + 0x7bff) as u16
    } else if exp <= 0 {
        sign as u16
    } else if magnitude >= 0x7c00 {
        (sign + 0x7bff) as u16
    } else {
        (sign + magnitude) as u16
    }
}

/// Encode an `f32` (by its bits) as an IEEE-754 half-precision `u16`, with
/// round-to-nearest and flush-to-zero on underflow.
pub fn f32_to_f16(value: F32Bits) -> (h: u16)
    ensures
        h == half_bits(value.0),
{
    let bits = value.0;
    let sign = ((bits >> 16) & 0x8000) as u16;
    assert((bits >> 23) & 0xff <= 255) by (bit_vector);
    let exp = ((bits >> 23) & 0xff) as i32 - 127 + 15;
    let mantissa = bits & 0x7f_ffff;
    assert(((bits >> 16) & 0x8000) == if bits >= 0x8000_0000 { 0x8000u32 } else { 0u32 }) by (bit_vector);
    assert((bits >> 23) & 0xff == (bits / 0x80_0000) % 256) by (bit_vector);
    assert(bits & 0x7f_ffff == bits % 0x80_0000) by (bit_vector);
    if exp >= 0x1f {
        assert(sign | 0x7bff == sign + 0x7bff) by (bit_vector)
            requires
                sign == 0 || sign == 0x8000u16,
        ;
        return sign | 0x7bff;
    }
    if exp <= 0 {
        return sign;
    }
    let kept = mantissa >> 13;
    let dropped = mantissa & 0x1fff;
    assert(mantissa >> 13 == mantissa / 0x2000) by (bit_vector);
    assert(mantissa & 0x1fff == mantissa % 0x2000) by (bit_vector);
    let round_up = dropped > 0x1000 || (dropped == 0x1000 && kept % 2 == 1);
    let e = exp as u32;
    let magnitude = e * 1024 + kept + if round_up { 1u32 } else { 0u32 };
    if magnitude >= 0x7c00 {
        assert(sign | 0x7bff == sign + 0x7bff) by (bit_vector)
            requires
                sign == 0 || sign == 0x8000u16,
        ;
        return sign | 0x7bff;
    }
    let m = magnitude as u16;
    assert(sign | m == sign + m) by (bit_vector)
        requires
            sign == 0 || sign == 0x8000u16,
            m < 0x7c00,
    ;
    sign | m
}

/// A lifetime-ramp sample: colour multiplier and size multiplier at one age.
#[derive(Clone, Copy, Debug, PartialEq, Eq)]
pub struct RampSample {
    pub colour: [F32Bits; 3],
    pub size: F32Bits,
}

/// The lookup texels of a ramp: four halves per sample, `rgb` = colour,
/// `a` = size.
pub fn ramp_texels(samples: &[RampSample]) -> (t: Vec<u16>)
    requires
        samples@.len() * 4 <= usize::MAX,
    ensures
        t@.len() == 4 * samples@.len(),
        forall|i: int| 0 <= i < samples@.len() ==> {
            &&& t@[4 * i] == half_bits((#[trigger] samples@[i]).colour@[0].0)
            &&& t@[4 * i + 1] == half_bits(samples@[i].colour@[1].0)
            &&& t@[4 * i + 2] == half_bits(samples@[i].colour@[2].0)
            &&& t@[4 * i + 3] == half_bits(samples@[i].size.0)
        },
{
    let mut t: Vec<u16> = Vec::new();
    let mut i: usize = 0;
    while i < samples.len()
        invariant
            i <= samples@.len(),
            t@.len() == 4 * i,
            forall|q: int| 0 <= q < i ==> {
                &&& t@[4 * q] == half_bits((#[trigger] samples@[q]).colour@[0].0)
                &&& t@[4 * q + 1] == half_bits(samples@[q].colour@[1].0)
                &&& t@[4 * q + 2] == half_bits(samples@[q].colour@[2].0)
                &&& t@[4 * q + 3] == half_bits(samples@[q].size.0)
            },
        decreases samples@.len() - i,
    {
        let s = samples[i];
        t.push(f32_to_f16(s.colour[0]));
        t.push(f32_to_f16(s.colour[1]));
        t.push(f32_to_f16(s.colour[2]));
        t.push(f32_to_f16(s.size));
        i = i + 1;
    }
    t
}

} // verus!

verus! {

/// The biased exponent field of an `f32` bit pattern.
pub open spec fn f32_exponent(bits: u32) -> int {
    (bits as int / 0x80_0000) % 256
}

/// The 23-bit mantissa field of an `f32` bit pattern.
pub open spec fn f32_mantissa(bits: u32) -> int {
    bits as int % 0x80_0000
}

/// A half keeps the value of the `f32` it encodes: for a finite `f32` whose
/// magnitude lies in the normal half range `[2^-14, 65504]`, the half has
/// the same sign and differs from it by at most half a half-ulp. Scaled by
/// the `f32`'s power of two, the `f32` is `2^23 + mantissa` and the half is
/// `(2^10 + half mantissa) * 2^13` at the same exponent, or `2^24` one
/// exponent up when rounding carries. A value exactly representable as a
/// half keeps its exponent and mantissa bits.
pub proof fn lemma_half_rounds_to_nearest(bits: u32)
    requires
        113 <= f32_exponent(bits) <= 142,
        f32_exponent(bits) < 142 || f32_mantissa(bits) <= 0x7f_e000,
    ensures
        half_bits(bits) as int / 0x8000 == bits as int / 0x8000_0000,
        ({
            let e = f32_exponent(bits) - 112;
            let m = f32_mantissa(bits);
            let he = (half_bits(bits) as int % 0x8000) / 1024;
            let hm = half_bits(bits) as int % 1024;
            ||| he == e && -4096 <= (1024 + hm) * 8192 - (0x80_0000 + m) <= 4096
            ||| he == e + 1 && hm == 0 && 0x100_0000 - (0x80_0000 + m) <= 4096
        }),
        f32_mantissa(bits) % 8192 == 0 ==> {
            &&& (half_bits(bits) as int % 0x8000) / 1024 == f32_exponent(bits) - 112
            &&& half_bits(bits) as int % 1024 == f32_mantissa(bits) / 8192
        },
{
    let e = f32_exponent(bits) - 112;
    let m = f32_mantissa(bits);
    let kept = m / 0x2000;
    let dropped = m % 0x2000;
    assert(m == kept * 0x2000 + dropped);
    assert(0 <= kept < 1024);
    let round_up: bool = dropped > 0x1000 || (dropped == 0x1000 && kept % 2 == 1);
    let magnitude = e * 1024 + kept + if round_up { 1int } else { 0int };
    assert(magnitude < 0x7c00) by {
        if e == 30 && kept == 1023 {
            assert(dropped == 0);
        }
    }
    let sign: int = if bits >= 0x8000_0000 { 0x8000 } else { 0 };
    assert(half_bits(bits) as int == sign + magnitude);
    assert(bits as int / 0x8000_0000 == if bits >= 0x8000_0000 { 1int } else { 0int });
    assert((sign + magnitude) / 0x8000 == sign / 0x8000);
    assert((sign + magnitude) % 0x8000 == magnitude);
    if kept + (if round_up { 1int } else { 0int }) < 1024 {
        assert(magnitude / 1024 == e);
        assert(magnitude % 1024 == kept + if round_up { 1int } else { 0int });
    } else {
        assert(magnitude == (e + 1) * 1024);
        assert(magnitude / 1024 == e + 1);
        assert(magnitude % 1024 == 0);
    }
}

/// Below the normal half range (an `f32` exponent under `2^-14`) a value
/// flushes to zero of the same sign.
pub proof fn lemma_half_flushes_underflow(bits: u32)
    requires
        f32_exponent(bits) <= 112,
    ensures
        half_bits(bits) as int == (bits as int / 0x8000_0000) * 0x8000,
{
}

} // verus!
