//! GPU particle and VFX system: the verified core.
//!
//! Effects are authored either as a fixed-function emitter plus forces, or as
//! an expression graph ([`Module`], [`Expr`]) with init and update modifiers
//! that the codegen pass lowers to per-effect WGSL emit and simulate kernels.
//! This crate holds the graph, the code generator, the GPU parameter layouts
//! and the per-frame scheduling decisions, each with a contract proved by
//! Verus. Floating-point values are carried as their IEEE-754 bit patterns
//! (or, for WGSL literals, as their source spelling), since the library only
//! moves them, never computes with them.

use vstd::prelude::*;

pub mod bytes;
pub mod codegen;
pub mod effect;
pub mod expr;
pub mod frame;
pub mod params;
pub mod plugin;

pub use effect::{
    Attribute, ColourKey, EffectAsset, EffectId, EffectProgram, Emitter, F32Bits, Flipbook,
    ForceModifier, Gradient, LiteralRange, MeshAlign, ParticleBlend, ParticleMeshId, ParticleRender,
    ParticleTextureId, PropertyDecl, PropertyValue, SetAttribute, SizeKey, SpawnRate, SpawnShape,
    TextureMode, UpdateOp, VelocityDist,
};
pub use expr::{Expr, ExprHandle, Module};
pub use plugin::{ItemFlags, ParticleItem, ParticleItems};

verus! {

/// Catalogue version of the host renderer's shared WGSL this crate's shaders
/// are written against.
pub const VIEWPORT_LIB_WGSL_VERSION: u32 = 6;

} // verus!
