//! Core of a display driver that receives the tiles of a rendered image,
//! assembles them, prepares them for a denoiser and hands the result to an
//! encoder for a high-dynamic-range image file.
//!
//! Samples are IEEE 754 binary32 values. The library carries every sample
//! as its 32-bit pattern and never computes with it: the three arithmetic
//! steps it needs are handed in by the caller as functions on bit patterns.

pub mod channels;
pub mod driver;
pub mod encoder;
pub mod encoding;
pub mod error;
pub mod image;
pub mod params;
pub mod pixels;
pub mod postprocess;
pub mod sample;

