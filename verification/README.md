# viewport_lib_particles

A GPU particle and VFX system for `viewport-lib`, with its decision-making
core verified by Verus.

## Layout

- `src/` — the verified library.
  - `expr.rs`: the expression graph (`Module`, `Expr`) and the reachability
    walk that finds the nodes a set of roots depends on.
  - `codegen.rs`: lowering of an `EffectProgram` to WGSL emit and simulate
    kernels; the kernel text is specified exactly.
  - `effect.rs`: effect assets, emitters, forces, render routes and their
    builders. Floats are carried as IEEE-754 bit patterns (`F32Bits`) or,
    inside the expression graph, as WGSL literal text.
  - `params.rs`: the GPU uniform layouts and how effect data packs into them.
  - `plugin.rs`: per-frame scheduling (which instance drives an effect, spawn
    bursts, seeds, workgroup counts), the bitonic sort network, draw orders
    and half-float ramp texels.
  - `frame.rs`: the per-effect plans the host follows: the GPU layout built on
    first use, each frame's uploads and dispatches, and the scene draw.
  - `bytes.rs`: byte images of word buffers (through `bytemuck`).
- `app/` — the host side: the `viewport-lib` `ItemTypePlugin` and `GpuPlugin`
  implementations that own the wgpu objects, and the `f32` conveniences
  (literal formatting, ramp interpolation, the per-second spawn accumulator).
  The WGSL shader sources it embeds (`app/shaders/*.wgsl`) are not part of
  this tree.
- `tests/` — executable tests of the library.
