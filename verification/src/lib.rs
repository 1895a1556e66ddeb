//! Verified building blocks of a game engine: 3D primitives, the hash that names
//! page-function exports, bind group numbering, image loading decisions, GPU upload
//! planning, the bookkeeping of pipelined rendering and the plan of its web workers.

pub mod primitives;
pub mod bindings;
pub mod page_exports;
pub mod loader;
pub mod gpu;
pub mod pipeline;
pub mod workers;
