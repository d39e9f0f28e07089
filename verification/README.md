# ceangal

A runtime that drives wgpu through integer handles, with its bookkeeping
proved by Verus.

- `src/model.rs` — the abstract state (`RuntimeState`): what each handle
  stands for, the bind group builder, the data stream, and the conditions
  under which wgpu accepts a buffer or a queue write.
- `src/runtime.rs` — `GpuRuntime` and its operations, each specified as a
  step on `RuntimeState`.
- `src/gpu_calls.rs` — the calls into wgpu and std, trusted, each with the
  contract it is believed to meet. Each wgpu object is kept with a record
  of the call that made it; calls whose failure depends on shader code run
  under error scopes, and the runtime adds an object only when no scope
  caught an error. The device logs the writes and submissions its queue was
  handed; the runtime's state shows that log.
- `src/scene.rs` — the scene the app draws: its buffers, pipelines and bind
  groups, set up from shader text and the item table.
- `src/laws.rs` — properties that span several operations.
- `src/tween.rs` — the integer decisions of the tween engine.
- `app/` — the window, the event loop, creating the surface and acquiring
  the adapter, presenting each drawn frame, the item table (floats, handed over as bit patterns) and the
  floating-point tween engine.

The app reads its WGSL shader from `shader.wgsl` in the working directory.
