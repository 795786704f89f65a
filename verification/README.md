# ball_demo

The verified core of a small WebGPU + rapier3d demo that runs in the browser:
a ball rolls in a box of cuboid walls while the page shows its position.

- `src/assets.rs` — where assets live (`assets/…`) and how their absolute
  URLs are formed from the page origin (URL resolution by `reqwest::Url`).
- `src/surface.rs` — the surface's configured size, when it is configured
  again after the canvas changes, what each frame does with the texture the
  surface hands out, and which surface format is chosen.
- `src/instance.rs` — the layout of the per-instance model matrix in the
  instance vertex buffer.
- `src/mesh.rs` — splitting an OBJ mesh's flat arrays into vertices, the
  material a mesh is drawn with, and its index count.
- `app/` — the browser program around the library: wgpu setup and drawing,
  the rapier3d world, fetching assets, the fixed-step ticker (floating point).
- `tests/` — tests of the library on concrete values.
