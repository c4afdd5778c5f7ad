use storage_bridge::convert::bool_from_foreign;
use storage_bridge::errors::ConversionError;
use storage_bridge::foreign::{
    ForeignDimension, ForeignStoragePropertyMetadata, ForeignStorageProperties, ForeignString,
};
use storage_bridge::storage::{
    DimensionType, PixelScale, StorageCapabilities, StorageDimension, StorageProperties,
    PIXEL_SCALE_ONE_BITS,
};

fn view(bytes: &[u8]) -> ForeignString {
    ForeignString {
        data: bytes.to_vec(),
        nbytes: bytes.len(),
        is_ref: false,
    }
}

fn dimension(name: Option<&str>, kind: DimensionType, sizes: (u32, u32, u32)) -> StorageDimension {
    StorageDimension {
        name: name.map(|s| s.to_string()),
        kind,
        array_size_px: sizes.0,
        chunk_size_px: sizes.1,
        shard_size_chunks: sizes.2,
    }
}

#[test]
fn default_properties_are_fresh() {
    let p = StorageProperties::default();
    assert_eq!(p.filename, None);
    assert_eq!(p.external_metadata_json, None);
    assert_eq!(p.first_frame_id, 0);
    assert_eq!(p.pixel_scale_um.x, 1.0f64.to_bits());
    assert_eq!(p.pixel_scale_um.y, 1.0f64.to_bits());
    assert_eq!(PIXEL_SCALE_ONE_BITS, 1.0f64.to_bits());
    assert_eq!(p.acquisition_dimensions.len(), 0);
    assert!(!p.enable_multiscale);
}

#[test]
fn default_dimension_is_fresh() {
    let d = StorageDimension::default();
    assert_eq!(d.name, None);
    assert_eq!(d.kind, DimensionType::Space);
    assert_eq!(d.array_size_px, 0);
    assert_eq!(d.chunk_size_px, 0);
    assert_eq!(d.shard_size_chunks, 0);
}

#[test]
fn default_capabilities_claim_nothing() {
    let c = StorageCapabilities::default();
    assert!(!c.chunking_is_supported);
    assert!(!c.sharding_is_supported);
    assert!(!c.multiscale_is_supported);
}

#[test]
fn dimension_type_round_trips_every_variant() {
    for kind in [
        DimensionType::Space,
        DimensionType::Channel,
        DimensionType::Time,
        DimensionType::Other,
    ] {
        let foreign = kind.to_foreign();
        assert_eq!(DimensionType::from_foreign(foreign), Ok(kind));
    }
}

#[test]
fn dimension_type_rejects_unmapped_values() {
    for v in [4u32, 99, u32::MAX] {
        assert_eq!(
            DimensionType::from_foreign(v),
            Err(ConversionError::UnknownEnumValue)
        );
    }
}

#[test]
fn boolean_convention_is_exactly_one() {
    assert!(!bool_from_foreign(0));
    assert!(bool_from_foreign(1));
    assert!(!bool_from_foreign(2));
    assert!(!bool_from_foreign(255));
}

#[test]
fn multiscale_flag_decodes_by_exact_comparison() {
    for (value, expected) in [(0u8, false), (1, true), (2, false), (255, false)] {
        let mut f = ForeignStorageProperties::default();
        f.enable_multiscale = value;
        let p = StorageProperties::from_foreign(&f).unwrap();
        assert_eq!(p.enable_multiscale, expected);
    }
}

#[test]
fn capabilities_decode_by_exact_comparison() {
    let f = ForeignStoragePropertyMetadata {
        chunking_is_supported: 1,
        sharding_is_supported: 0,
        multiscale_is_supported: 255,
    };
    let c = StorageCapabilities::from_foreign(&f).unwrap();
    assert!(c.chunking_is_supported);
    assert!(!c.sharding_is_supported);
    assert!(!c.multiscale_is_supported);
}

#[test]
fn absent_filename_becomes_zero_length_view_and_back() {
    let p = StorageProperties::default();
    let f = p.to_foreign().unwrap();
    assert_eq!(f.filename.nbytes, 0);
    assert_eq!(f.filename.data.len(), 0);
    let q = StorageProperties::from_foreign(&f).unwrap();
    assert_eq!(q.filename, None);
}

#[test]
fn empty_filename_stays_present() {
    let mut p = StorageProperties::default();
    p.filename = Some(String::new());
    let f = p.to_foreign().unwrap();
    assert_eq!(f.filename.nbytes, 1);
    assert_eq!(f.filename.data, vec![0u8]);
    let q = StorageProperties::from_foreign(&f).unwrap();
    assert_eq!(q.filename, Some(String::new()));
}

#[test]
fn non_ascii_filename_round_trips() {
    let mut p = StorageProperties::default();
    p.filename = Some("µm".to_string());
    let f = p.to_foreign().unwrap();
    assert_eq!(f.filename.nbytes, "µm".len() + 1);
    let q = StorageProperties::from_foreign(&f).unwrap();
    assert_eq!(q.filename.as_deref(), Some("µm"));
}

#[test]
fn end_to_end_round_trip() {
    let p = StorageProperties {
        filename: Some("out.store".to_string()),
        external_metadata_json: None,
        first_frame_id: 0,
        pixel_scale_um: PixelScale {
            x: 0.5f64.to_bits(),
            y: 0.5f64.to_bits(),
        },
        acquisition_dimensions: vec![dimension(Some("x"), DimensionType::Space, (100, 10, 2))],
        enable_multiscale: true,
    };
    let f = p.to_foreign().unwrap();
    // the native initialization observed a declared count of exactly 1
    assert_eq!(f.acquisition_dimensions.size, 1);
    assert_eq!(f.acquisition_dimensions.data.len(), 1);
    let q = StorageProperties::from_foreign(&f).unwrap();
    assert_eq!(q.filename.as_deref(), Some("out.store"));
    assert_eq!(q.external_metadata_json, None);
    assert_eq!(q.first_frame_id, 0);
    assert_eq!(q.pixel_scale_um.x, 0.5f64.to_bits());
    assert_eq!(q.pixel_scale_um.y, 0.5f64.to_bits());
    assert_eq!(q.acquisition_dimensions.len(), 1);
    let d = &q.acquisition_dimensions[0];
    assert_eq!(d.name.as_deref(), Some("x"));
    assert_eq!(d.kind, DimensionType::Space);
    assert_eq!(d.array_size_px, 100);
    assert_eq!(d.chunk_size_px, 10);
    assert_eq!(d.shard_size_chunks, 2);
    assert!(q.enable_multiscale);
}

#[test]
fn every_field_round_trips() {
    let p = StorageProperties {
        filename: Some("data.zarr".to_string()),
        external_metadata_json: Some("{\"a\": 1}".to_string()),
        first_frame_id: 42,
        pixel_scale_um: PixelScale {
            x: 0.25f64.to_bits(),
            y: 2.0f64.to_bits(),
        },
        acquisition_dimensions: vec![
            dimension(Some("x"), DimensionType::Space, (1920, 960, 2)),
            dimension(None, DimensionType::Channel, (3, 1, 1)),
            dimension(Some("t"), DimensionType::Time, (0, 100, 10)),
        ],
        enable_multiscale: false,
    };
    let f = p.to_foreign().unwrap();
    assert_eq!(f.acquisition_dimensions.size, 3);
    let q = StorageProperties::from_foreign(&f).unwrap();
    assert_eq!(q.filename, p.filename);
    assert_eq!(q.external_metadata_json, p.external_metadata_json);
    assert_eq!(q.first_frame_id, 42);
    assert_eq!(q.pixel_scale_um, p.pixel_scale_um);
    assert_eq!(q.acquisition_dimensions.len(), 3);
    for (a, b) in p.acquisition_dimensions.iter().zip(q.acquisition_dimensions.iter()) {
        assert_eq!(a.name, b.name);
        assert_eq!(a.kind, b.kind);
        assert_eq!(a.array_size_px, b.array_size_px);
        assert_eq!(a.chunk_size_px, b.chunk_size_px);
        assert_eq!(a.shard_size_chunks, b.shard_size_chunks);
    }
    assert_eq!(q.enable_multiscale, false);
}

#[test]
fn filename_with_embedded_nul_is_invalid_content() {
    let mut p = StorageProperties::default();
    p.filename = Some("bad\0name".to_string());
    assert_eq!(p.to_foreign().unwrap_err(), ConversionError::InvalidContent);
}

#[test]
fn metadata_with_embedded_nul_is_invalid_content() {
    let mut p = StorageProperties::default();
    p.external_metadata_json = Some("{\"k\": \"v\0\"}".to_string());
    assert_eq!(p.to_foreign().unwrap_err(), ConversionError::InvalidContent);
}

#[test]
fn filename_nul_reported_before_dimension_nul() {
    let mut p = StorageProperties::default();
    p.filename = Some("a\0".to_string());
    p.acquisition_dimensions = vec![dimension(Some("b\0"), DimensionType::Space, (1, 1, 1))];
    assert_eq!(p.to_foreign().unwrap_err(), ConversionError::InvalidContent);
}

#[test]
fn dimension_nul_reports_its_exact_index() {
    let mut p = StorageProperties::default();
    p.acquisition_dimensions = vec![
        dimension(Some("ok"), DimensionType::Space, (1, 1, 1)),
        dimension(Some("no\0pe"), DimensionType::Time, (2, 2, 2)),
        dimension(Some("later"), DimensionType::Other, (3, 3, 3)),
    ];
    assert_eq!(
        p.to_foreign().unwrap_err(),
        ConversionError::NativeDimensionFailed { index: 1 }
    );
}

#[test]
fn declared_count_always_equals_sequence_length() {
    for n in [0usize, 1, 5, 17] {
        let mut p = StorageProperties::default();
        p.acquisition_dimensions = (0..n)
            .map(|i| dimension(None, DimensionType::Space, (i as u32, 1, 1)))
            .collect();
        let f = p.to_foreign().unwrap();
        assert_eq!(f.acquisition_dimensions.size as usize, n);
        assert_eq!(f.acquisition_dimensions.data.len(), n);
    }
}

#[test]
fn invalid_utf8_filename_is_invalid_encoding() {
    let mut f = ForeignStorageProperties::default();
    f.filename = view(&[0xFF, 0xFE, 0]);
    assert_eq!(
        StorageProperties::from_foreign(&f).unwrap_err(),
        ConversionError::InvalidEncoding
    );
}

#[test]
fn invalid_utf8_dimension_name_is_invalid_encoding() {
    let mut f = ForeignStorageProperties::default();
    f.acquisition_dimensions.data.push(ForeignDimension {
        name: view(&[0xC0, 0x80, 0]),
        kind: 0,
        array_size_px: 1,
        chunk_size_px: 1,
        shard_size_chunks: 1,
    });
    f.acquisition_dimensions.size = 1;
    assert_eq!(
        StorageProperties::from_foreign(&f).unwrap_err(),
        ConversionError::InvalidEncoding
    );
}

#[test]
fn unknown_foreign_kind_fails_the_whole_properties() {
    let mut f = ForeignStorageProperties::default();
    f.acquisition_dimensions.data.push(ForeignDimension {
        name: ForeignString::default(),
        kind: 7,
        array_size_px: 1,
        chunk_size_px: 1,
        shard_size_chunks: 1,
    });
    f.acquisition_dimensions.size = 1;
    assert_eq!(
        StorageProperties::from_foreign(&f).unwrap_err(),
        ConversionError::UnknownEnumValue
    );
}

#[test]
fn c_string_read_stops_at_first_nul() {
    let mut f = ForeignStorageProperties::default();
    f.filename = view(b"ab\0cd\0");
    let p = StorageProperties::from_foreign(&f).unwrap();
    assert_eq!(p.filename.as_deref(), Some("ab"));
}

#[test]
fn single_dimension_from_foreign() {
    let fd = ForeignDimension {
        name: view(b"z\0"),
        kind: 1,
        array_size_px: 11,
        chunk_size_px: 7,
        shard_size_chunks: 3,
    };
    let d = StorageDimension::from_foreign(&fd).unwrap();
    assert_eq!(d.name.as_deref(), Some("z"));
    assert_eq!(d.kind, DimensionType::Channel);
    assert_eq!(d.array_size_px, 11);
    assert_eq!(d.chunk_size_px, 7);
    assert_eq!(d.shard_size_chunks, 3);
}

#[test]
fn first_frame_id_is_inert_and_round_trips() {
    let mut p = StorageProperties::default();
    p.first_frame_id = 7;
    let f = p.to_foreign().unwrap();
    assert_eq!(f.first_frame_id, 7);
    let q = StorageProperties::from_foreign(&f).unwrap();
    assert_eq!(q.first_frame_id, 7);
}
