//! Marshalling layer between a host-side value model of storage
//! configuration (dimensions, pixel scale, chunking/sharding/multiscale
//! parameters, capability flags) and the fixed-layout structs of a native
//! storage ABI.
//!
//! The value model ([`storage`]) holds freely constructible, owned data.
//! The foreign layout ([`foreign`]) mirrors the native structs with owned
//! buffers in place of raw pointers, so that the buffer-lifetime and
//! length-consistency obligations of the real ABI become provable
//! invariants.  The conversions ([`convert`]) move data losslessly in both
//! directions, failing with a typed [`errors::ConversionError`] instead of
//! crashing.

pub mod convert;
pub mod errors;
pub mod foreign;
pub mod storage;
pub mod text;
