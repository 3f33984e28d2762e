//! Streaming access to block-compressed game data.
//!
//! The core is [`oodle::OodleDecoder`], the bookkeeping half of a streaming
//! block decoder: it owns the staging buffer for compressed bytes and the
//! sliding window of decoded bytes, and decides after every event what its
//! driver has to do next. The driver owns the byte source and the
//! decompression engine, and does as it is told.
//!
//! - [`oodle`]: the decoder, its steps, and [`oodle::Session`], the
//!   mathematical picture that the steps are specified over.
//! - [`laws`]: what every single step keeps true.
//! - [`stream`]: what every sequence of steps keeps true: no byte is lost,
//!   doubled or moved out of order.
//! - [`bytes`]: the byte-range moves the decoder is built from.
//! - [`bnd4`]: entries cut out of an archive's bytes.
//! - [`accessor`]: one attribute walked through a buffer of vertices.

pub mod accessor;
pub mod bnd4;
pub mod bytes;
pub mod laws;
pub mod oodle;
pub mod stream;
