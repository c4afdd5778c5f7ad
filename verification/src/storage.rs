//! The value model: host-owned, freely constructible configuration types.
//!
//! Instances are created with default values, mutated by ordinary field
//! access, and destroyed by scope exit; no foreign resource is attached
//! while a value exists in this form.  Pixel scales are 64-bit floats in
//! the native ABI; this layer never does arithmetic on them, only copies
//! them, so it holds them as their IEEE-754 bit patterns, for which
//! round-tripping is exact equality.

use vstd::prelude::*;

verus! {

/// IEEE-754 bit pattern of the 64-bit float `1.0`, the default pixel
/// scale in micrometers (square pixels).
pub const PIXEL_SCALE_ONE_BITS: u64 = 0x3FF0_0000_0000_0000;

/// The (x, y) pixel scale in micrometers, each coordinate held as the
/// IEEE-754 bit pattern of a 64-bit float.
#[derive(Debug, Clone, Copy, PartialEq, Eq, Structural)]
pub struct PixelScale {
    pub x: u64,
    pub y: u64,
}

/// The kind of an acquisition dimension: a closed enum, bidirectionally
/// mapped to the matching foreign enum by exact value correspondence.
#[derive(Debug, Clone, Copy, PartialEq, Eq, Structural)]
pub enum DimensionType {
    Space,
    Channel,
    Time,
    Other,
}

impl Default for DimensionType {
    /// The default dimension kind is `Space`.
    fn default() -> (r: Self)
        ensures
            r == DimensionType::Space,
    {
        DimensionType::Space
    }
}

/// One acquisition dimension: an optional human-readable name, a kind,
/// and three unsigned 32-bit extents.  `chunk_size_px` and
/// `shard_size_chunks` are independent fields with no enforced ordering
/// relative to `array_size_px`: range and consistency validation is the
/// native engine's responsibility, not this layer's.
#[derive(Debug, Clone)]
pub struct StorageDimension {
    pub name: Option<String>,
    pub kind: DimensionType,
    pub array_size_px: u32,
    pub chunk_size_px: u32,
    pub shard_size_chunks: u32,
}

impl Default for StorageDimension {
    /// A fresh dimension is unnamed, of kind `Space`, with zero extents.
    fn default() -> (r: Self)
        ensures
            r.name is None,
            r.kind == DimensionType::Space,
            r.array_size_px == 0,
            r.chunk_size_px == 0,
            r.shard_size_chunks == 0,
    {
        StorageDimension {
            name: None,
            kind: DimensionType::Space,
            array_size_px: 0,
            chunk_size_px: 0,
            shard_size_chunks: 0,
        }
    }
}

/// The full storage configuration: optional filename, optional external
/// metadata payload (free-form text), a reserved `first_frame_id` that
/// must round-trip unchanged, the pixel scale as an (x, y) pair of
/// 64-bit-float bit patterns, an exclusively owned ordered sequence of
/// dimensions, and the multiscale flag.
#[derive(Debug, Clone)]
pub struct StorageProperties {
    pub filename: Option<String>,
    pub external_metadata_json: Option<String>,
    /// Reserved for future file rollover; currently inert.
    pub first_frame_id: u32,
    /// IEEE-754 bit patterns of the (x, y) scale in micrometers.
    pub pixel_scale_um: PixelScale,
    pub acquisition_dimensions: Vec<StorageDimension>,
    pub enable_multiscale: bool,
}

impl Default for StorageProperties {
    /// A fresh configuration has no filename, no metadata, frame id 0, a
    /// pixel scale of (1.0, 1.0), no dimensions, and multiscale off.
    fn default() -> (r: Self)
        ensures
            r.filename is None,
            r.external_metadata_json is None,
            r.first_frame_id == 0,
            r.pixel_scale_um == (PixelScale { x: PIXEL_SCALE_ONE_BITS, y: PIXEL_SCALE_ONE_BITS }),
            r.acquisition_dimensions@.len() == 0,
            r.enable_multiscale == false,
    {
        StorageProperties {
            filename: None,
            external_metadata_json: None,
            first_frame_id: 0,
            pixel_scale_um: PixelScale { x: PIXEL_SCALE_ONE_BITS, y: PIXEL_SCALE_ONE_BITS },
            acquisition_dimensions: Vec::new(),
            enable_multiscale: false,
        }
    }
}

/// A capability report: three independent read-only flags, populated
/// only from native metadata queries, never host-constructed to request
/// configuration.
#[derive(Debug, Clone, Copy, PartialEq, Eq, Structural)]
pub struct StorageCapabilities {
    pub chunking_is_supported: bool,
    pub sharding_is_supported: bool,
    pub multiscale_is_supported: bool,
}

impl Default for StorageCapabilities {
    /// A fresh report claims no capability.
    fn default() -> (r: Self)
        ensures
            r.chunking_is_supported == false,
            r.sharding_is_supported == false,
            r.multiscale_is_supported == false,
    {
        StorageCapabilities {
            chunking_is_supported: false,
            sharding_is_supported: false,
            multiscale_is_supported: false,
        }
    }
}

} // verus!
