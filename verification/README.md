# egone

An orbital-camera viewer for a sky rendered around a black hole or wormhole.

- `src/` is the verified library (Verus):
  - `drag`: the orbit-drag state machine over opaque pointer positions;
  - `hdr`: RGBA16F sky textures, packing of decoded channels and
    nearest-neighbour resampling in chunks of rows;
  - `loader`: status, error and queue bookkeeping of the two background
    sky loaders, and the panel they produce;
  - `frame`: the render loop's scheduling decisions and surface extents;
  - `settings`: integer limits of the integrator settings.
- `app/` is the program around it: window and input (winit), GPU (wgpu),
  UI (egui), image decoding (image, half), process statistics (sysinfo),
  and everything computed in floating point (camera, tone mapping, physics
  parameters).
- `tests/` exercises the library on concrete values.
