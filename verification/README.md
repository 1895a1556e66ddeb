# bevy_pieces

Pieces of a game engine's math, asset and rendering code, written in Verus with their
contracts proved.

- `src/primitives.rs`: 3D primitives (segments, triangles, tetrahedra, cuboids, polylines,
  planes) over `glam` vectors; the library places and swaps vectors and hands arithmetic to
  `glam`, whose results it names.
- `src/page_exports.rs`: the FNV-1a hash and the export names of page-function relays, and
  the check that relayed functions answer asynchronously.
- `src/bindings.rs`: numbering of bind group entries.
- `src/loader.rs`: the image loader's formats, extensions, format guessing and texture
  decisions.
- `src/gpu.rs`: whether and how an image is uploaded to the GPU.
- `src/pipeline.rs`: where the render app is, and the pacing of frames in flight.
- `src/workers.rs`: the web workers the engine starts from a page.
- `app/`: what needs floating point, token streams, channels or serde: measurements of the
  primitives, the page-function attribute's token handling, the render app's channels, the
  loader's serializable types, and the shells that drive the verified planners (image
  loading, GPU upload, worker start, frame pacing).
