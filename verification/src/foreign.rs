//! The foreign layout: owned stand-ins for the native ABI structs, and
//! models of the native entry points that populate them.
//!
//! The real ABI works with raw pointers, fixed-size buffers and
//! non-owning string views.  Here each pointer/length pair is replaced by
//! the owned buffer it designates, so that the ABI's manual obligations
//! (NUL termination, length consistency, buffer lifetime across a native
//! call) become stated invariants.  Ownership of a string buffer is moved
//! into the entry point that the ABI documents as copying it, which
//! discharges the rule that the buffer must outlive that call.

use vstd::pervasive::VecAdditionalExecFns;
use vstd::prelude::*;

verus! {

/// A foreign string view: `data` owns the bytes the view's pointer would
/// designate, `nbytes` counts them with the terminator included, and
/// `is_ref` mirrors the ABI flag saying whether the view borrows caller
/// storage or owns a copy.  A zero `nbytes` means no text is present,
/// which is distinct from present-but-empty text (`nbytes == 1`).
#[derive(Debug, Clone)]
pub struct ForeignString {
    pub data: Vec<u8>,
    pub nbytes: usize,
    pub is_ref: bool,
}

impl ForeignString {
    /// Well-formed views count their buffer exactly and close any
    /// present text with a NUL terminator.
    pub open spec fn wf(self) -> bool {
        &&& self.nbytes as int == self.data@.len()
        &&& (self.nbytes > 0 ==> self.data@[self.nbytes as int - 1] == 0)
    }
}

impl Default for ForeignString {
    /// The default view is absent text: no buffer, zero length.
    fn default() -> (r: Self)
        ensures
            r.nbytes == 0,
            r.data@.len() == 0,
            r.is_ref == false,
            r.wf(),
    {
        ForeignString { data: Vec::new(), nbytes: 0, is_ref: false }
    }
}

/// The foreign pixel scale: an (x, y) pair of 64-bit floats, held as
/// their IEEE-754 bit patterns.
#[derive(Debug, Clone, Copy, PartialEq, Eq, Structural)]
pub struct ForeignPixelScale {
    pub x: u64,
    pub y: u64,
}

impl Default for ForeignPixelScale {
    /// The default foreign scale is zeroed, the bit pattern of 0.0.
    fn default() -> (r: Self)
        ensures
            r.x == 0,
            r.y == 0,
    {
        ForeignPixelScale { x: 0, y: 0 }
    }
}

/// One foreign dimension slot: a string view for the name, the foreign
/// kind enum as its integer value, and the three extents.
#[derive(Debug, Clone)]
pub struct ForeignDimension {
    pub name: ForeignString,
    pub kind: u32,
    pub array_size_px: u32,
    pub chunk_size_px: u32,
    pub shard_size_chunks: u32,
}

impl ForeignDimension {
    pub open spec fn wf(self) -> bool {
        self.name.wf()
    }

    /// A slot as the native initialization leaves it: absent name, kind
    /// zero, zero extents.
    pub open spec fn is_zeroed(self) -> bool {
        &&& self.name.nbytes == 0
        &&& self.name.data@.len() == 0
        &&& self.kind == 0
        &&& self.array_size_px == 0
        &&& self.chunk_size_px == 0
        &&& self.shard_size_chunks == 0
    }
}

impl Default for ForeignDimension {
    /// The default slot is zeroed.
    fn default() -> (r: Self)
        ensures
            r.is_zeroed(),
            r.wf(),
    {
        ForeignDimension {
            name: ForeignString::default(),
            kind: 0,
            array_size_px: 0,
            chunk_size_px: 0,
            shard_size_chunks: 0,
        }
    }
}

/// The foreign dimension array: a buffer of slots and the slot count the
/// native side allocated, which must agree with the buffer.
#[derive(Debug, Clone)]
pub struct ForeignDimensionArray {
    pub data: Vec<ForeignDimension>,
    pub size: u32,
}

impl ForeignDimensionArray {
    pub open spec fn wf(self) -> bool {
        &&& self.size as int == self.data@.len()
        &&& (forall|i: int| 0 <= i < self.data@.len() ==> (#[trigger] self.data@[i]).wf())
    }
}

impl Default for ForeignDimensionArray {
    /// The default array holds no slots.
    fn default() -> (r: Self)
        ensures
            r.data@.len() == 0,
            r.size == 0,
            r.wf(),
    {
        ForeignDimensionArray { data: Vec::new(), size: 0 }
    }
}

/// The foreign storage-properties struct, assembled by the native entry
/// points below exactly as the ABI documents.
#[derive(Debug, Clone)]
pub struct ForeignStorageProperties {
    pub filename: ForeignString,
    pub first_frame_id: u32,
    pub external_metadata_json: ForeignString,
    pub pixel_scale_um: ForeignPixelScale,
    pub acquisition_dimensions: ForeignDimensionArray,
    pub enable_multiscale: u8,
}

impl ForeignStorageProperties {
    pub open spec fn wf(self) -> bool {
        &&& self.filename.wf()
        &&& self.external_metadata_json.wf()
        &&& self.acquisition_dimensions.wf()
    }
}

impl Default for ForeignStorageProperties {
    /// The default struct is zeroed: absent strings, no dimensions,
    /// multiscale off.
    fn default() -> (r: Self)
        ensures
            r.filename.nbytes == 0,
            r.external_metadata_json.nbytes == 0,
            r.first_frame_id == 0,
            r.pixel_scale_um == (ForeignPixelScale { x: 0, y: 0 }),
            r.acquisition_dimensions.data@.len() == 0,
            r.acquisition_dimensions.size == 0,
            r.enable_multiscale == 0,
            r.wf(),
    {
        ForeignStorageProperties {
            filename: ForeignString::default(),
            first_frame_id: 0,
            external_metadata_json: ForeignString::default(),
            pixel_scale_um: ForeignPixelScale::default(),
            acquisition_dimensions: ForeignDimensionArray::default(),
            enable_multiscale: 0,
        }
    }
}

/// The foreign capability report: three flags under the 0/1 convention.
#[derive(Debug, Clone, Copy, PartialEq, Eq, Structural)]
pub struct ForeignStoragePropertyMetadata {
    pub chunking_is_supported: u8,
    pub sharding_is_supported: u8,
    pub multiscale_is_supported: u8,
}

impl Default for ForeignStoragePropertyMetadata {
    /// The default report claims no capability.
    fn default() -> (r: Self)
        ensures
            r.chunking_is_supported == 0,
            r.sharding_is_supported == 0,
            r.multiscale_is_supported == 0,
    {
        ForeignStoragePropertyMetadata {
            chunking_is_supported: 0,
            sharding_is_supported: 0,
            multiscale_is_supported: 0,
        }
    }
}

/// Model of the native `storage_properties_init` entry point: records the
/// frame id and pixel scale, takes ownership of the two string buffers
/// (the real call copies their bytes into native-owned storage before it
/// returns, which the move models), allocates exactly `dimension_count`
/// zeroed dimension slots, and clears the multiscale flag.  Returns 1,
/// the native success status.
pub fn storage_properties_init(
    out: &mut ForeignStorageProperties,
    first_frame_id: u32,
    filename: ForeignString,
    external_metadata_json: ForeignString,
    pixel_scale_um: ForeignPixelScale,
    dimension_count: u8,
) -> (status: u32)
    ensures
        status == 1,
        final(out).filename == filename,
        final(out).external_metadata_json == external_metadata_json,
        final(out).first_frame_id == first_frame_id,
        final(out).pixel_scale_um == pixel_scale_um,
        final(out).enable_multiscale == 0,
        final(out).acquisition_dimensions.size == dimension_count as u32,
        final(out).acquisition_dimensions.data@.len() == dimension_count as int,
        forall|i: int|
            0 <= i < dimension_count as int
                ==> (#[trigger] final(out).acquisition_dimensions.data@[i]).is_zeroed(),
{
    let mut slots: Vec<ForeignDimension> = Vec::new();
    let mut i: usize = 0;
    while i < dimension_count as usize
        invariant
            i <= dimension_count as usize,
            slots@.len() == i as int,
            forall|j: int| 0 <= j < i as int ==> (#[trigger] slots@[j]).is_zeroed(),
        decreases dimension_count as int - i as int,
    {
        slots.push(ForeignDimension::default());
        i = i + 1;
    }
    *out = ForeignStorageProperties {
        filename,
        first_frame_id,
        external_metadata_json,
        pixel_scale_um,
        acquisition_dimensions: ForeignDimensionArray { data: slots, size: dimension_count as u32 },
        enable_multiscale: 0,
    };
    1
}

/// Model of the native `storage_properties_set_enable_multiscale` entry
/// point: stores the flag, leaves every other field alone, returns 1.
pub fn storage_properties_set_enable_multiscale(
    out: &mut ForeignStorageProperties,
    enable: u8,
) -> (status: u32)
    ensures
        status == 1,
        final(out).enable_multiscale == enable,
        final(out).filename == old(out).filename,
        final(out).external_metadata_json == old(out).external_metadata_json,
        final(out).first_frame_id == old(out).first_frame_id,
        final(out).pixel_scale_um == old(out).pixel_scale_um,
        final(out).acquisition_dimensions == old(out).acquisition_dimensions,
{
    out.enable_multiscale = enable;
    1
}

/// Model of the native `storage_properties_set_dimension` entry point:
/// fills the slot at `index` with the given name buffer (copied by the
/// real call, so ownership moves in), kind and extents, and returns 1.
/// An index at or past the allocated count is undefined behavior in the
/// native library; the model reports failure (status 0) and leaves the
/// struct alone, so callers must still derive indices from the count.
pub fn storage_properties_set_dimension(
    out: &mut ForeignStorageProperties,
    index: u32,
    name: ForeignString,
    kind: u32,
    array_size_px: u32,
    chunk_size_px: u32,
    shard_size_chunks: u32,
) -> (status: u32)
    ensures
        (index as int) < old(out).acquisition_dimensions.data@.len() ==> {
            &&& status == 1
            &&& final(out).acquisition_dimensions.data@ == old(
                out,
            ).acquisition_dimensions.data@.update(
                index as int,
                (ForeignDimension { name, kind, array_size_px, chunk_size_px, shard_size_chunks }),
            )
            &&& final(out).acquisition_dimensions.size == old(out).acquisition_dimensions.size
        },
        (index as int) >= old(out).acquisition_dimensions.data@.len() ==> {
            &&& status == 0
            &&& *final(out) == *old(out)
        },
        final(out).filename == old(out).filename,
        final(out).external_metadata_json == old(out).external_metadata_json,
        final(out).first_frame_id == old(out).first_frame_id,
        final(out).pixel_scale_um == old(out).pixel_scale_um,
        final(out).enable_multiscale == old(out).enable_multiscale,
{
    let i = index as usize;
    if i < out.acquisition_dimensions.data.len() {
        out.acquisition_dimensions.data.set(
            i,
            ForeignDimension { name, kind, array_size_px, chunk_size_px, shard_size_chunks },
        );
        1
    } else {
        0
    }
}

} // verus!
