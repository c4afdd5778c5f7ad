//! The marshalling layer: bidirectional, fallible conversions between
//! the value model and the foreign layout.
//!
//! Every conversion propagates the first sub-failure and exposes no
//! partial object.  The to-foreign direction follows the native
//! protocol: initialize with the declared dimension count (always the
//! actual sequence length), configure multiscale, then fill each
//! dimension slot in order, checking every native status.

use crate::errors::ConversionError;
use crate::foreign::{
    ForeignDimension, ForeignPixelScale, ForeignStorageProperties, ForeignStoragePropertyMetadata,
    storage_properties_init, storage_properties_set_dimension,
    storage_properties_set_enable_multiscale,
};
use crate::storage::{
    DimensionType, PixelScale, StorageCapabilities, StorageDimension, StorageProperties,
};
use crate::text::{
    lemma_text_round_trip, opt_text_view, text_decodable, text_decoded, text_encodes,
    text_from_foreign, text_has_nul, text_to_foreign,
};
use vstd::prelude::*;

verus! {

// ---------------------------------------------------------------------
// Dimension-kind bridge
// ---------------------------------------------------------------------

/// The foreign integer for each dimension kind; total in this direction.
pub open spec fn kind_to_foreign_spec(k: DimensionType) -> u32 {
    match k {
        DimensionType::Space => 0,
        DimensionType::Channel => 1,
        DimensionType::Time => 2,
        DimensionType::Other => 3,
    }
}

/// The host kind for a foreign integer; partial, every unmapped value
/// fails with `UnknownEnumValue`.
pub open spec fn kind_from_foreign_spec(v: u32) -> Result<DimensionType, ConversionError> {
    if v == 0 {
        Ok(DimensionType::Space)
    } else if v == 1 {
        Ok(DimensionType::Channel)
    } else if v == 2 {
        Ok(DimensionType::Time)
    } else if v == 3 {
        Ok(DimensionType::Other)
    } else {
        Err(ConversionError::UnknownEnumValue)
    }
}

impl DimensionType {
    /// To-foreign direction of the kind bridge: a total mapping.
    pub fn to_foreign(&self) -> (r: u32)
        ensures
            r == kind_to_foreign_spec(*self),
    {
        match self {
            DimensionType::Space => 0,
            DimensionType::Channel => 1,
            DimensionType::Time => 2,
            DimensionType::Other => 3,
        }
    }

    /// From-foreign direction of the kind bridge: unmapped integers fail.
    pub fn from_foreign(v: u32) -> (r: Result<DimensionType, ConversionError>)
        ensures
            r == kind_from_foreign_spec(v),
    {
        if v == 0 {
            Ok(DimensionType::Space)
        } else if v == 1 {
            Ok(DimensionType::Channel)
        } else if v == 2 {
            Ok(DimensionType::Time)
        } else if v == 3 {
            Ok(DimensionType::Other)
        } else {
            Err(ConversionError::UnknownEnumValue)
        }
    }
}

/// Law: the kind bridge is lossless — every variant survives the round
/// trip through its foreign value.
pub proof fn lemma_dimension_type_round_trip(k: DimensionType)
    ensures
        kind_from_foreign_spec(kind_to_foreign_spec(k)) == Ok::<DimensionType, ConversionError>(k),
{
}

/// Law: a foreign integer that no variant maps to is rejected with
/// `UnknownEnumValue`.
pub proof fn lemma_dimension_type_unmapped(v: u32)
    requires
        forall|k: DimensionType| kind_to_foreign_spec(k) != v,
    ensures
        kind_from_foreign_spec(v) == Err::<DimensionType, ConversionError>(
            ConversionError::UnknownEnumValue,
        ),
{
    assert(kind_to_foreign_spec(DimensionType::Space) != v);
    assert(kind_to_foreign_spec(DimensionType::Channel) != v);
    assert(kind_to_foreign_spec(DimensionType::Time) != v);
    assert(kind_to_foreign_spec(DimensionType::Other) != v);
}

// ---------------------------------------------------------------------
// Boolean convention
// ---------------------------------------------------------------------

/// Decode a foreign flag under the exact 0/1 convention: only the value
/// 1 means true; 0 and every other value mean false.
pub fn bool_from_foreign(v: u8) -> (r: bool)
    ensures
        r == (v == 1),
{
    v == 1
}

/// Encode a host flag as a foreign 0/1 value.
pub fn bool_to_foreign(b: bool) -> (r: u8)
    ensures
        r == (if b {
            1u8
        } else {
            0u8
        }),
{
    if b {
        1
    } else {
        0
    }
}

// ---------------------------------------------------------------------
// Dimension conversion
// ---------------------------------------------------------------------

/// `fd` is the faithful foreign encoding of the value dimension `d`.
pub open spec fn dimension_encodes(d: StorageDimension, fd: ForeignDimension) -> bool {
    &&& text_encodes(opt_text_view(d.name), fd.name)
    &&& fd.kind == kind_to_foreign_spec(d.kind)
    &&& fd.array_size_px == d.array_size_px
    &&& fd.chunk_size_px == d.chunk_size_px
    &&& fd.shard_size_chunks == d.shard_size_chunks
}

/// The value dimension `d` is what decoding the foreign slot `fd`
/// yields: name via the string bridge, kind via the kind bridge, the
/// three extents copied verbatim.
pub open spec fn dimension_decoded(fd: ForeignDimension, d: StorageDimension) -> bool {
    &&& text_decoded(fd.name, opt_text_view(d.name))
    &&& kind_from_foreign_spec(fd.kind) == Ok::<DimensionType, ConversionError>(d.kind)
    &&& d.array_size_px == fd.array_size_px
    &&& d.chunk_size_px == fd.chunk_size_px
    &&& d.shard_size_chunks == fd.shard_size_chunks
}

/// Decoding `fd` succeeds: its name decodes and its kind is mapped.
pub open spec fn dimension_decodable(fd: ForeignDimension) -> bool {
    text_decodable(fd.name) && kind_from_foreign_spec(fd.kind) is Ok
}

/// The error decoding `fd` gives when it fails: the name is decoded
/// first, the kind second.
pub open spec fn dimension_decode_error(fd: ForeignDimension) -> ConversionError {
    if !text_decodable(fd.name) {
        ConversionError::InvalidEncoding
    } else {
        ConversionError::UnknownEnumValue
    }
}

impl StorageDimension {
    /// From-foreign conversion of one dimension: decode the name, then
    /// the kind, copy the three extents verbatim.  Any sub-failure
    /// aborts the whole dimension; no partial dimension is produced.
    pub fn from_foreign(fd: &ForeignDimension) -> (r: Result<StorageDimension, ConversionError>)
        requires
            fd.wf(),
        ensures
            match r {
                Ok(d) => dimension_decoded(*fd, d),
                Err(e) => e == dimension_decode_error(*fd),
            },
            r is Ok <==> dimension_decodable(*fd),
    {
        let name = match text_from_foreign(&fd.name) {
            Ok(o) => o,
            Err(e) => {
                return Err(e);
            },
        };
        let kind = match DimensionType::from_foreign(fd.kind) {
            Ok(k) => k,
            Err(e) => {
                return Err(e);
            },
        };
        Ok(
            StorageDimension {
                name,
                kind,
                array_size_px: fd.array_size_px,
                chunk_size_px: fd.chunk_size_px,
                shard_size_chunks: fd.shard_size_chunks,
            },
        )
    }
}

/// Law: a dimension that was encoded to a foreign slot decodes back to
/// the same dimension, field by field.
pub proof fn lemma_dimension_round_trip(
    d: StorageDimension,
    fd: ForeignDimension,
    d2: StorageDimension,
)
    requires
        dimension_encodes(d, fd),
        dimension_decoded(fd, d2),
    ensures
        dimension_view_eq(d, d2),
{
    lemma_text_round_trip(opt_text_view(d.name), fd.name, opt_text_view(d2.name));
    lemma_dimension_type_round_trip(d.kind);
}

/// Field-by-field equality of two value dimensions, text compared by
/// view.
pub open spec fn dimension_view_eq(a: StorageDimension, b: StorageDimension) -> bool {
    &&& opt_text_view(a.name) == opt_text_view(b.name)
    &&& a.kind == b.kind
    &&& a.array_size_px == b.array_size_px
    &&& a.chunk_size_px == b.chunk_size_px
    &&& a.shard_size_chunks == b.shard_size_chunks
}

// ---------------------------------------------------------------------
// StorageProperties conversion
// ---------------------------------------------------------------------

/// `f` is the faithful foreign encoding of the value configuration `p`:
/// both strings encoded, frame id and pixel-scale bits copied, the
/// declared dimension count equal to the actual sequence length, every
/// slot encoded in order, and the multiscale flag under the 0/1
/// convention.
pub open spec fn properties_encode(p: StorageProperties, f: ForeignStorageProperties) -> bool {
    &&& text_encodes(opt_text_view(p.filename), f.filename)
    &&& text_encodes(opt_text_view(p.external_metadata_json), f.external_metadata_json)
    &&& f.first_frame_id == p.first_frame_id
    &&& f.pixel_scale_um.x == p.pixel_scale_um.x
    &&& f.pixel_scale_um.y == p.pixel_scale_um.y
    &&& f.acquisition_dimensions.size as int == p.acquisition_dimensions@.len()
    &&& f.acquisition_dimensions.data@.len() == p.acquisition_dimensions@.len()
    &&& (forall|i: int|
        0 <= i < p.acquisition_dimensions@.len() ==> dimension_encodes(
            p.acquisition_dimensions@[i],
            #[trigger] f.acquisition_dimensions.data@[i],
        ))
    &&& f.enable_multiscale == (if p.enable_multiscale {
        1u8
    } else {
        0u8
    })
}

/// The value configuration `p` is what decoding the foreign struct `f`
/// yields.
pub open spec fn properties_decoded(f: ForeignStorageProperties, p: StorageProperties) -> bool {
    &&& text_decoded(f.filename, opt_text_view(p.filename))
    &&& text_decoded(f.external_metadata_json, opt_text_view(p.external_metadata_json))
    &&& p.first_frame_id == f.first_frame_id
    &&& p.pixel_scale_um.x == f.pixel_scale_um.x
    &&& p.pixel_scale_um.y == f.pixel_scale_um.y
    &&& p.acquisition_dimensions@.len() == f.acquisition_dimensions.data@.len()
    &&& (forall|i: int|
        0 <= i < f.acquisition_dimensions.data@.len() ==> dimension_decoded(
            f.acquisition_dimensions.data@[i],
            #[trigger] p.acquisition_dimensions@[i],
        ))
    &&& p.enable_multiscale == (f.enable_multiscale == 1)
}

/// Decoding `f` succeeds: both strings decode and every slot decodes.
pub open spec fn properties_decodable(f: ForeignStorageProperties) -> bool {
    &&& text_decodable(f.filename)
    &&& text_decodable(f.external_metadata_json)
    &&& (forall|i: int|
        0 <= i < f.acquisition_dimensions.data@.len() ==> dimension_decodable(
            #[trigger] f.acquisition_dimensions.data@[i],
        ))
}

/// Encoding `p` succeeds: no text field carries an embedded NUL.
pub open spec fn properties_encodable(p: StorageProperties) -> bool {
    &&& !text_has_nul(opt_text_view(p.filename))
    &&& !text_has_nul(opt_text_view(p.external_metadata_json))
    &&& (forall|i: int|
        0 <= i < p.acquisition_dimensions@.len() ==> !text_has_nul(
            opt_text_view(#[trigger] p.acquisition_dimensions@[i].name),
        ))
}

impl StorageProperties {
    /// From-foreign conversion of the whole configuration: decode
    /// filename and metadata via the string bridge, copy frame id and
    /// pixel-scale bits verbatim, decode the dimension sequence in
    /// order, and decode the multiscale flag under the exact 0/1
    /// convention.  The first sub-failure aborts the whole conversion.
    pub fn from_foreign(f: &ForeignStorageProperties) -> (r: Result<
        StorageProperties,
        ConversionError,
    >)
        requires
            f.wf(),
        ensures
            match r {
                Ok(p) => properties_decoded(*f, p),
                Err(e) => {
                    ||| (!text_decodable(f.filename) && e == ConversionError::InvalidEncoding)
                    ||| (text_decodable(f.filename) && !text_decodable(f.external_metadata_json)
                        && e == ConversionError::InvalidEncoding)
                    ||| (text_decodable(f.filename) && text_decodable(f.external_metadata_json)
                        && (exists|k: int|
                        {
                            &&& 0 <= k < f.acquisition_dimensions.data@.len()
                            &&& !dimension_decodable(#[trigger] f.acquisition_dimensions.data@[k])
                            &&& (forall|j: int|
                                0 <= j < k ==> dimension_decodable(
                                    #[trigger] f.acquisition_dimensions.data@[j],
                                ))
                            &&& e == dimension_decode_error(f.acquisition_dimensions.data@[k])
                        }))
                },
            },
            r is Ok <==> properties_decodable(*f),
    {
        let filename = match text_from_foreign(&f.filename) {
            Ok(o) => o,
            Err(e) => {
                return Err(e);
            },
        };
        let external_metadata_json = match text_from_foreign(&f.external_metadata_json) {
            Ok(o) => o,
            Err(e) => {
                return Err(e);
            },
        };
        let n = f.acquisition_dimensions.data.len();
        let mut acquisition_dimensions: Vec<StorageDimension> = Vec::new();
        let mut i: usize = 0;
        while i < n
            invariant
                f.wf(),
                text_decodable(f.filename),
                text_decodable(f.external_metadata_json),
                n == f.acquisition_dimensions.data@.len(),
                i <= n,
                acquisition_dimensions@.len() == i as int,
                forall|j: int|
                    0 <= j < i as int ==> dimension_decoded(
                        f.acquisition_dimensions.data@[j],
                        #[trigger] acquisition_dimensions@[j],
                    ),
                forall|j: int|
                    0 <= j < i as int ==> dimension_decodable(
                        #[trigger] f.acquisition_dimensions.data@[j],
                    ),
            decreases n - i as int,
        {
            let d = match StorageDimension::from_foreign(&f.acquisition_dimensions.data[i]) {
                Ok(d) => d,
                Err(e) => {
                    return Err(e);
                },
            };
            acquisition_dimensions.push(d);
            i = i + 1;
        }
        let enable_multiscale = bool_from_foreign(f.enable_multiscale);
        Ok(
            StorageProperties {
                filename,
                external_metadata_json,
                first_frame_id: f.first_frame_id,
                pixel_scale_um: PixelScale { x: f.pixel_scale_um.x, y: f.pixel_scale_um.y },
                acquisition_dimensions,
                enable_multiscale,
            },
        )
    }

    /// To-foreign conversion of the whole configuration, the direction
    /// that owns buffer lifetime.  The ordered protocol: encode both
    /// strings (their buffers live until the native initialization that
    /// copies them), initialize with the dimension count derived from
    /// the actual sequence length, configure multiscale, then fill each
    /// slot in order.  Every native status is checked; the first failure
    /// aborts the whole conversion, and a failing dimension reports its
    /// exact index.
    pub fn to_foreign(&self) -> (r: Result<ForeignStorageProperties, ConversionError>)
        requires
            self.acquisition_dimensions@.len() <= 255,
        ensures
            match r {
                Ok(f) => f.wf() && properties_encode(*self, f),
                Err(e) => {
                    ||| (text_has_nul(opt_text_view(self.filename)) && e
                        == ConversionError::InvalidContent)
                    ||| (!text_has_nul(opt_text_view(self.filename)) && text_has_nul(
                        opt_text_view(self.external_metadata_json),
                    ) && e == ConversionError::InvalidContent)
                    ||| (!text_has_nul(opt_text_view(self.filename)) && !text_has_nul(
                        opt_text_view(self.external_metadata_json),
                    ) && (exists|k: usize|
                        {
                            &&& (k as int) < self.acquisition_dimensions@.len()
                            &&& text_has_nul(
                                opt_text_view(
                                    #[trigger] self.acquisition_dimensions@[k as int].name,
                                ),
                            )
                            &&& (forall|j: int|
                                0 <= j < k as int ==> !text_has_nul(
                                    opt_text_view(#[trigger] self.acquisition_dimensions@[j].name),
                                ))
                            &&& e == (ConversionError::NativeDimensionFailed { index: k })
                        }))
                },
            },
            r is Ok <==> properties_encodable(*self),
    {
        let filename = match text_to_foreign(&self.filename) {
            Ok(fs) => fs,
            Err(e) => {
                return Err(e);
            },
        };
        let external_metadata_json = match text_to_foreign(&self.external_metadata_json) {
            Ok(fs) => fs,
            Err(e) => {
                return Err(e);
            },
        };
        let count = self.acquisition_dimensions.len() as u8;
        let mut out = ForeignStorageProperties::default();
        let status = storage_properties_init(
            &mut out,
            self.first_frame_id,
            filename,
            external_metadata_json,
            ForeignPixelScale { x: self.pixel_scale_um.x, y: self.pixel_scale_um.y },
            count,
        );
        if status != 1 {
            return Err(ConversionError::NativeInitFailed);
        }
        let status = storage_properties_set_enable_multiscale(
            &mut out,
            bool_to_foreign(self.enable_multiscale),
        );
        if status != 1 {
            return Err(ConversionError::NativeConfigFailed);
        }
        let n = self.acquisition_dimensions.len();
        let mut i: usize = 0;
        while i < n
            invariant
                n == self.acquisition_dimensions@.len(),
                n <= 255,
                i <= n,
                text_encodes(opt_text_view(self.filename), out.filename),
                out.filename.wf(),
                text_encodes(opt_text_view(self.external_metadata_json), out.external_metadata_json),
                out.external_metadata_json.wf(),
                out.first_frame_id == self.first_frame_id,
                out.pixel_scale_um.x == self.pixel_scale_um.x,
                out.pixel_scale_um.y == self.pixel_scale_um.y,
                out.enable_multiscale == (if self.enable_multiscale {
                    1u8
                } else {
                    0u8
                }),
                out.acquisition_dimensions.size as int == n as int,
                out.acquisition_dimensions.data@.len() == n as int,
                forall|j: int|
                    0 <= j < i as int ==> dimension_encodes(
                        self.acquisition_dimensions@[j],
                        #[trigger] out.acquisition_dimensions.data@[j],
                    ),
                forall|j: int|
                    0 <= j < i as int ==> !text_has_nul(
                        opt_text_view(#[trigger] self.acquisition_dimensions@[j].name),
                    ),
                forall|j: int|
                    0 <= j < n as int ==> (#[trigger] out.acquisition_dimensions.data@[j]).wf(),
            decreases n - i as int,
        {
            let dim = &self.acquisition_dimensions[i];
            let name = match text_to_foreign(&dim.name) {
                Ok(fs) => fs,
                Err(_e) => {
                    return Err(ConversionError::NativeDimensionFailed { index: i });
                },
            };
            let kind = dim.kind.to_foreign();
            let status = storage_properties_set_dimension(
                &mut out,
                i as u32,
                name,
                kind,
                dim.array_size_px,
                dim.chunk_size_px,
                dim.shard_size_chunks,
            );
            if status != 1 {
                return Err(ConversionError::NativeDimensionFailed { index: i });
            }
            i = i + 1;
        }
        Ok(out)
    }
}

/// Field-by-field equality of two value configurations, text compared
/// by view and pixel scales by exact bit equality.
pub open spec fn properties_view_eq(a: StorageProperties, b: StorageProperties) -> bool {
    &&& opt_text_view(a.filename) == opt_text_view(b.filename)
    &&& opt_text_view(a.external_metadata_json) == opt_text_view(b.external_metadata_json)
    &&& a.first_frame_id == b.first_frame_id
    &&& a.pixel_scale_um == b.pixel_scale_um
    &&& a.acquisition_dimensions@.len() == b.acquisition_dimensions@.len()
    &&& (forall|i: int|
        0 <= i < a.acquisition_dimensions@.len() ==> dimension_view_eq(
            a.acquisition_dimensions@[i],
            #[trigger] b.acquisition_dimensions@[i],
        ))
    &&& a.enable_multiscale == b.enable_multiscale
}

/// Law: a configuration that was encoded to the foreign layout decodes
/// back to an equal configuration, field by field.  Configurations
/// whose text would need an embedded NUL have no foreign encoding, so
/// the `properties_encode` hypothesis excludes exactly those.
pub proof fn lemma_properties_round_trip(
    p: StorageProperties,
    f: ForeignStorageProperties,
    q: StorageProperties,
)
    requires
        properties_encode(p, f),
        properties_decoded(f, q),
    ensures
        properties_view_eq(p, q),
{
    lemma_text_round_trip(opt_text_view(p.filename), f.filename, opt_text_view(q.filename));
    lemma_text_round_trip(
        opt_text_view(p.external_metadata_json),
        f.external_metadata_json,
        opt_text_view(q.external_metadata_json),
    );
    assert forall|i: int| 0 <= i < p.acquisition_dimensions@.len() implies dimension_view_eq(
        p.acquisition_dimensions@[i],
        #[trigger] q.acquisition_dimensions@[i],
    ) by {
        lemma_dimension_round_trip(
            p.acquisition_dimensions@[i],
            f.acquisition_dimensions.data@[i],
            q.acquisition_dimensions@[i],
        );
    }
}

// ---------------------------------------------------------------------
// StorageCapabilities conversion
// ---------------------------------------------------------------------

impl StorageCapabilities {
    /// From-foreign conversion of the capability report: each flag is
    /// decoded under the exact 0/1 convention.  Capabilities are
    /// read-only reports, so no to-foreign direction exists.
    pub fn from_foreign(f: &ForeignStoragePropertyMetadata) -> (r: Result<
        StorageCapabilities,
        ConversionError,
    >)
        ensures
            r matches Ok(c) && c.chunking_is_supported == (f.chunking_is_supported == 1)
                && c.sharding_is_supported == (f.sharding_is_supported == 1)
                && c.multiscale_is_supported == (f.multiscale_is_supported == 1),
    {
        Ok(
            StorageCapabilities {
                chunking_is_supported: bool_from_foreign(f.chunking_is_supported),
                sharding_is_supported: bool_from_foreign(f.sharding_is_supported),
                multiscale_is_supported: bool_from_foreign(f.multiscale_is_supported),
            },
        )
    }
}

} // verus!
