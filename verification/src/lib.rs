//! Tangent-frame vertex encodings and a draw-cost benchmark core.
//!
//! A renderer stores, for every vertex, an encoding of its tangent-space
//! basis.  This crate defines the closed set of encodings (rotation-matrix
//! columns, rotor, motor, and their reduced logarithmic forms), the packed
//! record and GPU attribute layout of each, the scene bookkeeping around the
//! mesh pipeline, and the statistics of the draw-time benchmark.  Scalars
//! that the GPU reads as 32-bit floats are carried here as their IEEE-754
//! bit patterns (`u32`), so the structural contracts - field order, record
//! size, sign handling - are exact; floating-point arithmetic itself stays
//! with the host program.

pub mod bench;
pub mod codec;
pub mod imvec;
pub mod input;
pub mod report;
pub mod scene;
pub mod text;
pub mod utils;
pub mod vertices;
pub mod widgets;
