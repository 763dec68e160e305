//! What the plugin does for one effect: the GPU layout it builds the first
//! time the effect is simulated, and the uploads and dispatches of each
//! frame after that.
//!
//! The host encodes exactly what these plans say; it owns the buffers, the
//! pipelines and the floating-point frame arithmetic (the time step, the
//! per-second spawn accumulator).

use vstd::prelude::*;

use crate::effect::{EffectAsset, F32Bits, ParticleBlend, ParticleRender};
use crate::params::{
    build_emit_params, build_sim_params, draw_params, draw_params_of, emit_params_match,
    gen_params_match, history_params, history_params_of, sim_params_match, sort_init_match,
    DrawParams, EmitParamsGpu, GenParams, HistoryParams, PickUniform, SimParamsGpu, SortInitParams,
};
use crate::params::{clamp_u32, HISTORY_LEN};
use crate::plugin::{
    frame_seed, is_order_len, next_pow2, rng_seed, route_vertex_count, sort_stages, stages_from,
    workgroup_count, workgroups, Driver, SortStageParams,
};

verus! {

/// How an effect's GPU state is laid out when it is first simulated.
#[derive(Clone, Debug)]
pub struct EffectLayout {
    /// Length of the draw order buffer: the capacity padded to a power of two.
    pub order_len: u32,
    /// The per-effect draw parameters.
    pub draw: DrawParams,
    /// Whether the effect runs its own generated kernels (it has a program)
    /// rather than the shared fixed-function ones.
    pub generated: bool,
    /// Whether the effect keeps a trail history ring.
    pub trail: bool,
    /// The bitonic stages of the effect's depth sort, for effects whose draw
    /// order is sorted back-to-front.
    pub sort_stages: Option<Vec<SortStageParams>>,
}

/// Lay out an effect's GPU state. The padded length must fit in a `u32`,
/// and for a sorted effect the sort network's stage counter too.
pub fn effect_layout(asset: &EffectAsset) -> (l: EffectLayout)
    requires
        asset.capacity <= 0x8000_0000,
        asset.blend != ParticleBlend::Additive ==> asset.capacity <= 0x4000_0000,
    ensures
        is_order_len(l.order_len as int, asset.capacity as int),
        l.draw == draw_params_of(asset.render),
        l.generated == asset.program is Some,
        l.trail == asset.render is Trail,
        match l.sort_stages {
            Some(s) => asset.blend != ParticleBlend::Additive && s@ == stages_from(2, l.order_len as nat),
            None => asset.blend == ParticleBlend::Additive,
        },
{
    let order_len = next_pow2(asset.capacity);
    let sorted = asset.needs_depth_sort();
    let stages = if sorted {
        assert(order_len < 0x8000_0000) by {
            if order_len != 1 {
                assert(order_len / 2 < 0x4000_0001);
            }
        }
        Some(sort_stages(order_len))
    } else {
        None
    };
    let trail = match asset.render {
        ParticleRender::Trail { .. } => true,
        _ => false,
    };
    EffectLayout {
        order_len,
        draw: draw_params(asset.render),
        generated: asset.program.is_some(),
        trail,
        sort_stages: stages,
    }
}

/// The simulation passes of an effect in a frame.
#[derive(Clone, Debug)]
pub enum SimPass {
    /// The shared fixed-function kernels: emit and simulate parameters.
    Fixed { emit: EmitParamsGpu, sim: SimParamsGpu },
    /// The effect's own generated kernels: one parameter block for both.
    Generated(GenParams),
}

/// The uploads and dispatch size of one effect's frame.
#[derive(Clone, Debug)]
pub struct EffectFrame {
    /// The driving instance's pick id, for the pick pass.
    pub pick: PickUniform,
    /// The emit and simulate passes.
    pub pass: SimPass,
    /// Workgroups of every per-particle dispatch.
    pub groups: u32,
    /// The trail history parameters, for an effect with a trail.
    pub history: Option<HistoryParams>,
    /// The depth-sort setup parameters, when this effect is sorted this frame.
    pub sort: Option<SortInitParams>,
}

/// Plan effect `effect_index`'s frame: the driving instance supplies the
/// origin and pick id, `spawn_count` particles are emitted with time step
/// `dt`, and the draw order is sorted back-to-front from `eye` when the
/// frame asks for sorting and the blend is order-dependent.
pub fn plan_effect_frame(
    asset: &EffectAsset,
    effect_index: usize,
    driver: Driver,
    spawn_count: u32,
    dt: F32Bits,
    frame_index: u64,
    eye: [F32Bits; 3],
    sort_transparent: bool,
) -> (f: EffectFrame)
    requires
        asset.capacity <= 0x8000_0000,
    ensures
        f.pick.id == driver.pick_id,
        f.pick.pad@ == seq![0u32, 0, 0],
        f.groups == workgroups(asset.capacity),
        match f.pass {
            SimPass::Fixed { emit, sim } => {
                &&& asset.program is None
                &&& emit_params_match(
                    emit,
                    asset.emitter,
                    driver.position,
                    asset.capacity,
                    spawn_count,
                    frame_seed(frame_index, effect_index) as u32,
                )
                &&& sim_params_match(sim, asset.forces@, dt)
            },
            SimPass::Generated(g) => {
                &&& asset.program is Some
                &&& gen_params_match(
                    g,
                    driver.position,
                    dt,
                    spawn_count,
                    asset.capacity,
                    frame_seed(frame_index, effect_index) as u32,
                )
            },
        },
        f.history == if asset.render is Trail {
            Some(history_params_of(frame_index, asset.capacity))
        } else {
            None::<HistoryParams>
        },
        f.sort is Some <==> sort_transparent && asset.blend != ParticleBlend::Additive,
        f.sort matches Some(s) ==> {
            &&& sort_init_match(s, eye, asset.capacity, s.n)
            &&& is_order_len(s.n as int, asset.capacity as int)
        },
{
    let capacity = asset.capacity;
    let seed = rng_seed(frame_index, effect_index);
    let pass = match &asset.program {
        None => SimPass::Fixed {
            emit: build_emit_params(&asset.emitter, driver.position, capacity, spawn_count, seed),
            sim: build_sim_params(asset.forces.as_slice(), dt),
        },
        Some(_) => SimPass::Generated(GenParams::new(driver.position, dt, spawn_count, capacity, seed)),
    };
    let history = match asset.render {
        ParticleRender::Trail { .. } => Some(history_params(frame_index, capacity)),
        _ => None,
    };
    let sort = if sort_transparent && asset.needs_depth_sort() {
        Some(SortInitParams::new(eye, capacity, next_pow2(capacity)))
    } else {
        None
    };
    EffectFrame { pick: PickUniform::new(driver.pick_id), pass, groups: workgroup_count(capacity), history, sort }
}

/// The pipeline family an effect draws with.
#[derive(Clone, Copy, Debug, PartialEq, Eq, Structural)]
pub enum DrawRoute {
    /// Camera-facing quads.
    Billboard,
    /// Instanced meshes, drawn indexed.
    Mesh,
    /// Ribbons swept through the history ring.
    Trail,
}

/// One effect's draw in the scene pass: the pipeline (route and blend), and
/// the vertices (or, indexed, the mesh indices) per instance, one instance
/// per particle slot.
#[derive(Clone, Copy, Debug, PartialEq, Eq)]
pub struct DrawCall {
    pub route: DrawRoute,
    pub additive: bool,
    pub indexed: bool,
    pub count: u32,
    pub instances: u32,
}

/// Plan an effect's scene draw. A mesh effect draws only once its mesh is
/// uploaded (`mesh_index_count` is its index count).
pub fn plan_draw(asset: &EffectAsset, mesh_index_count: Option<u32>) -> (d: Option<DrawCall>)
    ensures
        d == match asset.render {
            ParticleRender::Billboard { .. } => Some(DrawCall {
                route: DrawRoute::Billboard,
                additive: asset.blend == ParticleBlend::Additive,
                indexed: false,
                count: 6,
                instances: asset.capacity,
            }),
            ParticleRender::Mesh { .. } => match mesh_index_count {
                Some(c) => Some(DrawCall {
                    route: DrawRoute::Mesh,
                    additive: asset.blend == ParticleBlend::Additive,
                    indexed: true,
                    count: c,
                    instances: asset.capacity,
                }),
                None => None,
            },
            ParticleRender::Trail { segments, .. } => Some(DrawCall {
                route: DrawRoute::Trail,
                additive: asset.blend == ParticleBlend::Additive,
                indexed: false,
                count: (clamp_u32(segments, 1, (HISTORY_LEN - 1) as u32) * 6) as u32,
                instances: asset.capacity,
            }),
        },
{
    let additive = !asset.needs_depth_sort();
    match asset.render {
        ParticleRender::Billboard { .. } => Some(DrawCall {
            route: DrawRoute::Billboard,
            additive,
            indexed: false,
            count: 6,
            instances: asset.capacity,
        }),
        ParticleRender::Mesh { .. } => match mesh_index_count {
            Some(c) => Some(DrawCall {
                route: DrawRoute::Mesh,
                additive,
                indexed: true,
                count: c,
                instances: asset.capacity,
            }),
            None => None,
        },
        ParticleRender::Trail { .. } => Some(DrawCall {
            route: DrawRoute::Trail,
            additive,
            indexed: false,
            count: route_vertex_count(asset.render).unwrap(),
            instances: asset.capacity,
        }),
    }
}

} // verus!
