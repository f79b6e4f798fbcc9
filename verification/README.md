# projectrigor

A robotics and animation engine for Apple Silicon (Metal rendering, Rapier
physics, `hecs` ECS), split into a verified library and the program around it.

- `src/` — the library, verified with Verus:
  - `perf` — frame statistics over a rolling window of 60 frames: timings,
    GPU allocations and frees, live memory, averages and extremes, with the
    laws that relate them;
  - `input` — the input state machine of the application: held camera keys,
    mouse drags, the camera moves of each frame and the periodic report;
  - `raytrace` — the depth control of the recursive ray tracer;
  - `mesh` — expansion of indexed meshes into one vertex per index;
  - `render_mode` — the rendering mode selected by the command-line flags;
  - `ecs` — the shape enum and the static/dynamic tags.
- `app/` — the program: window and events (`winit`), Metal renderer, camera
  and transforms (`glam`), physics (`rapier3d`), scenes (`hecs`), the CPU ray
  tracer, and the floating-point figures and printout of the frame statistics.
- `tests/` — tests of the library.
