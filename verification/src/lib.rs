//! A safe layer over a C codec library that exposes streaming hashers and
//! streaming decoders.
//!
//! The layer owns the codec's opaque state, carries byte ranges and stream
//! positions to and from the codec, and turns the codec's status strings into
//! a structured result. The calls into the codec itself are made by the code
//! that uses this library; everything that is decided before and after such a
//! call is decided here.

pub mod boxed;
pub mod buf;
pub mod compression;
pub mod hash;
pub mod slice;
pub mod status;
