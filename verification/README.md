# egui_screensaver_matrix

A "digital rain" screensaver background for egui, drawn on the GPU through
`egui_glow`.

Layout:

- `src/` — the verified library (Verus): font atlas metadata, the exact
  decimal defaults and named presets with their laws, the ping-pong buffer
  bookkeeping and render-target format fallback, the quad-grid vertex
  layout, the per-frame tick and rebuild decisions, PNG decoding
  through the `image` crate and the vertical row flip of decoded images.
- `app/` — ordinary Rust around it: the GL passes (`glow`), the egui paint
  callback, and the floating-point math (HSL conversion, camera matrices,
  palette interpolation, time binning).
- `tests/` — tests of the library.

The GPU side embeds its shaders from `app/shaders/*.glsl` and its PNG
assets from `assets/fonts/` and `assets/textures/`; those files must be
present to build `app/`.
