# deterministic_ball_sim

A GPU bitonic merge sort of random keys, with a window around it.

- `src/` is the verified library: the pass schedule of the sort
  (`schedule`), the random key block (`noise`), the greyscale picture of a
  key buffer (`picture`) and the decisions of the window's event loop
  (`window`).
- `app/` records and submits the GPU work with `wgpu`, runs the window's
  event loop and writes the pictures to disk, taking every decision from the
  library. It expects the compute shaders `bitonic_merge_sort.wgsl` and
  `ball_sim.wgsl` beside `app/gpu.rs`, and the window uses `winit` 0.29,
  which `Cargo.toml` does not list.
- `tests/` runs the library on concrete values.
