# rotex_wgpu

The bookkeeping and decision logic of a wgpu rendering backend, verified
with Verus.

The library (`src/`) checks resource descriptors, keeps track of the
resources, shader modules, render pipelines and compute bind groups that
exist, and turns each command of a frame into the GPU work to perform:
buffers and textures to create and fill, shaders and pipelines to build,
render passes and bundles to record, submissions and presents. Every
operation is stated in its contract over a mathematical model of the
backend state, and `src/laws.rs` proves properties that span operations
(cache hits, what a refused resource leaves behind, what a frame command
keeps).

`app/` holds the device, the surface and the wgpu objects. It asks the
library what to do and does it, one action at a time.

Layout of `src/`:

- `error.rs`: errors, and their form on the backend interface.
- `types.rs`: descriptors, ids and commands.
- `buffers.rs`, `vertex.rs`, `mesh.rs`, `texture.rs`: sizes, layouts and uploads.
- `bindings.rs`, `shader.rs`, `compute.rs`, `pipeline.rs`: bind group layouts,
  shader modules, compute pipelines and dispatches, render pipeline keys.
- `resources.rs`, `bridge.rs`: creating and updating resources, one at a time
  and in batches.
- `render.rs`: running the commands of a frame.
- `laws.rs`: properties across operations.
