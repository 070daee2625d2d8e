//! Software video decoding: a registry of video streams, the per-codec
//! decoder state machines that drive the codec engines, and the pixel
//! pipeline that turns decoded planes into cropped RGBA frames. Beside it,
//! the decisions behind the script object `Function` and its prototype.
//!
//! The bitstream work and the colour conversion are done by codec engines
//! outside this library, and the bitmaps are the renderer's. A decoder
//! here decides what the engine is to do next, and what becomes of its
//! answer; a stream decides what the renderer is to do with a frame, and
//! what becomes of its answer. See [`codec`] and [`software`] for how they
//! talk.

pub mod error;
pub mod frame;
pub mod pixels;
pub mod planes;
pub mod codec;
pub mod vp6;
pub mod h263;
pub mod arena;
pub mod software;
pub mod function;
