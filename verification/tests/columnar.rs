//! The columnar format, on concrete batches.
use afterburner_wasi::columnar::{
    decode_batch, encode_batch, ColumnDtype, ColumnRef, ColumnarBatch, BATCH_HEADER_BYTES,
    COLUMN_HEADER_BYTES,
};

fn dummy_validity_for(row_count: u32) -> Vec<u8> {
    // Every row valid: all bits set up to row_count, padding bits 0.
    let bytes = (row_count as usize).div_ceil(8);
    let full = vec![0xffu8; bytes];
    if row_count % 8 != 0 {
        let mut v = full.clone();
        let last = bytes - 1;
        let bits = (row_count % 8) as u8;
        v[last] = (1u8 << bits) - 1;
        v
    } else {
        full
    }
}

#[test]
fn dtype_size_bytes_fixed_width() {
    assert_eq!(ColumnDtype::Bool.size_bytes().unwrap(), 1);
    assert_eq!(ColumnDtype::Int8.size_bytes().unwrap(), 1);
    assert_eq!(ColumnDtype::Int16.size_bytes().unwrap(), 2);
    assert_eq!(ColumnDtype::Int32.size_bytes().unwrap(), 4);
    assert_eq!(ColumnDtype::Int64.size_bytes().unwrap(), 8);
    assert_eq!(ColumnDtype::Float32.size_bytes().unwrap(), 4);
    assert_eq!(ColumnDtype::Float64.size_bytes().unwrap(), 8);
    assert_eq!(ColumnDtype::Date32.size_bytes().unwrap(), 4);
    assert_eq!(ColumnDtype::Timestamp.size_bytes().unwrap(), 8);
    assert_eq!(ColumnDtype::Decimal128.size_bytes().unwrap(), 16);
    assert_eq!(ColumnDtype::Uuid.size_bytes().unwrap(), 16);
    assert_eq!(ColumnDtype::Interval.size_bytes().unwrap(), 16);
}

#[test]
fn dtype_size_bytes_variable_width_errors() {
    assert!(ColumnDtype::Utf8.size_bytes().is_err());
    assert!(ColumnDtype::Bytea.size_bytes().is_err());
    assert!(ColumnDtype::Jsonb.size_bytes().is_err());
}

#[test]
fn dtype_phase1_supported_matches_expectation() {
    // Numbers, booleans, dates and timestamps are supported.
    for d in [
        ColumnDtype::Bool,
        ColumnDtype::Int8,
        ColumnDtype::Int16,
        ColumnDtype::Int32,
        ColumnDtype::Int64,
        ColumnDtype::UInt8,
        ColumnDtype::UInt16,
        ColumnDtype::UInt32,
        ColumnDtype::UInt64,
        ColumnDtype::Float32,
        ColumnDtype::Float64,
        ColumnDtype::Date32,
        ColumnDtype::Timestamp,
    ] {
        assert!(d.is_phase1_supported(), "{:?} should be phase-1", d);
    }
    // Variable-width and sixteen-byte types are reserved.
    for d in [
        ColumnDtype::Utf8,
        ColumnDtype::Bytea,
        ColumnDtype::Jsonb,
        ColumnDtype::Decimal128,
        ColumnDtype::Uuid,
        ColumnDtype::Interval,
    ] {
        assert!(!d.is_phase1_supported(), "{:?} should be deferred", d);
    }
}

#[test]
fn from_u8_roundtrips_every_known_tag() {
    for tag in 1u8..=19 {
        let d = ColumnDtype::from_u8(tag).unwrap();
        assert_eq!(d.tag(), tag, "tag {tag} round-trips to itself");
    }
}

#[test]
fn from_u8_unknown_tag_is_err() {
    assert!(ColumnDtype::from_u8(0).is_err());
    assert!(ColumnDtype::from_u8(99).is_err());
    assert!(ColumnDtype::from_u8(255).is_err());
}

#[test]
fn encode_decode_roundtrip_two_int32_columns_no_validity() {
    // 4 rows × 2 Int32 columns: c0 = [1,2,3,4], c1 = [10,20,30,40].
    let c0_data: Vec<u8> = [1i32, 2, 3, 4]
        .iter()
        .flat_map(|v| v.to_le_bytes())
        .collect();
    let c1_data: Vec<u8> = [10i32, 20, 30, 40]
        .iter()
        .flat_map(|v| v.to_le_bytes())
        .collect();
    let mut batch = ColumnarBatch::new(4);
    batch.push(ColumnRef {
        name: "c0",
        dtype: ColumnDtype::Int32,
        data: &c0_data,
        validity: None,
    });
    batch.push(ColumnRef {
        name: "c1",
        dtype: ColumnDtype::Int32,
        data: &c1_data,
        validity: None,
    });

    let encoded = encode_batch(&batch).unwrap();
    // Decode through the same path the host uses for the reply
    // (the wire format is symmetric in/out).
    let decoded = decode_batch(&encoded.bytes).unwrap();

    assert_eq!(decoded.row_count, 4);
    assert_eq!(decoded.columns.len(), 2);
    assert_eq!(decoded.columns[0].name, "c0");
    assert_eq!(decoded.columns[0].dtype, ColumnDtype::Int32);
    assert_eq!(decoded.columns[0].data, c0_data);
    assert!(decoded.columns[0].validity.is_none());
    assert_eq!(decoded.columns[1].name, "c1");
    assert_eq!(decoded.columns[1].data, c1_data);
}

#[test]
fn encode_decode_roundtrip_with_validity() {
    let data: Vec<u8> = [100i64, 200, 300]
        .iter()
        .flat_map(|v| v.to_le_bytes())
        .collect();
    let validity = dummy_validity_for(3);
    let mut batch = ColumnarBatch::new(3);
    batch.push(ColumnRef {
        name: "with_validity",
        dtype: ColumnDtype::Int64,
        data: &data,
        validity: Some(&validity),
    });

    let encoded = encode_batch(&batch).unwrap();
    let decoded = decode_batch(&encoded.bytes).unwrap();
    assert_eq!(decoded.row_count, 3);
    assert_eq!(decoded.columns[0].dtype, ColumnDtype::Int64);
    assert_eq!(decoded.columns[0].data, data);
    let v = decoded.columns[0].validity.as_ref().unwrap();
    // Bits 0..3 set, the rest are padding.
    assert_eq!(v[0] & 0b111, 0b111);
}

#[test]
fn encode_rejects_data_length_mismatch() {
    // Int32 column with 4 rows but only 12 bytes (3 elements).
    let data = vec![0u8; 12];
    let mut batch = ColumnarBatch::new(4);
    batch.push(ColumnRef {
        name: "bad",
        dtype: ColumnDtype::Int32,
        data: &data,
        validity: None,
    });
    let err = encode_batch(&batch).unwrap_err();
    let msg = format!("{err:?}");
    assert!(msg.contains("data.len()"), "got {msg}");
}

#[test]
fn encode_rejects_phase1_unsupported_dtype() {
    let data = vec![0u8; 16]; // 1 row × 16 bytes (decimal128 width)
    let mut batch = ColumnarBatch::new(1);
    batch.push(ColumnRef {
        name: "amount",
        dtype: ColumnDtype::Decimal128,
        data: &data,
        validity: None,
    });
    let err = encode_batch(&batch).unwrap_err();
    let msg = format!("{err:?}");
    assert!(msg.contains("Decimal128"), "got {msg}");
    assert!(
        msg.contains("not yet implemented"),
        "got {msg}",
    );
}

#[test]
fn encode_rejects_validity_too_short() {
    let data = vec![0u8; 4];
    let bm = vec![]; // 0 bytes
    let mut batch = ColumnarBatch::new(4);
    batch.push(ColumnRef {
        name: "c",
        dtype: ColumnDtype::Int8,
        data: &data,
        validity: Some(&bm),
    });
    let err = encode_batch(&batch).unwrap_err();
    let msg = format!("{err:?}");
    assert!(msg.contains("validity"), "got {msg}");
}

#[test]
fn decode_rejects_short_blob() {
    let err = decode_batch(&[0u8; 8]).unwrap_err();
    let msg = format!("{err:?}");
    assert!(msg.contains("too short"), "got {msg}");
}

#[test]
fn decode_rejects_unknown_dtype_tag() {
    // Build a minimal valid blob then corrupt the dtype byte.
    let data: Vec<u8> = 1u32.to_le_bytes().to_vec();
    let mut batch = ColumnarBatch::new(1);
    batch.push(ColumnRef {
        name: "x",
        dtype: ColumnDtype::Int32,
        data: &data,
        validity: None,
    });
    let mut encoded = encode_batch(&batch).unwrap();
    let h_off = BATCH_HEADER_BYTES; // first column header
    encoded.bytes[h_off] = 0xFE; // bogus tag
    let err = decode_batch(&encoded.bytes).unwrap_err();
    let msg = format!("{err:?}");
    assert!(msg.contains("unknown ColumnDtype"), "got {msg}");
}

#[test]
fn encoded_offsets_are_eight_byte_aligned() {
    // Cache-friendly access pattern requires 8-aligned starts so
    // the JS-side `new Float64Array(buf, off, len)` doesn't throw.
    let f64_data: Vec<u8> = [1.0f64, 2.0, 3.0]
        .iter()
        .flat_map(|v| v.to_le_bytes())
        .collect();
    let mut batch = ColumnarBatch::new(3);
    batch.push(ColumnRef {
        name: "f",
        dtype: ColumnDtype::Float64,
        data: &f64_data,
        validity: None,
    });
    let encoded = encode_batch(&batch).unwrap();
    for off in &encoded.column_data_offsets {
        assert_eq!(*off as usize % 8, 0, "column data offset {} must be 8-aligned", off);
    }
}

#[test]
fn encode_zero_rows_produces_header_only_blob() {
    let mut batch = ColumnarBatch::new(0);
    batch.push(ColumnRef {
        name: "empty",
        dtype: ColumnDtype::Int64,
        data: &[],
        validity: None,
    });
    let encoded = encode_batch(&batch).unwrap();
    let decoded = decode_batch(&encoded.bytes).unwrap();
    assert_eq!(decoded.row_count, 0);
    assert_eq!(decoded.columns.len(), 1);
    assert!(decoded.columns[0].data.is_empty());
}

#[test]
fn encode_zero_columns_is_legal() {
    let batch = ColumnarBatch::new(2048);
    let encoded = encode_batch(&batch).unwrap();
    let decoded = decode_batch(&encoded.bytes).unwrap();
    assert_eq!(decoded.row_count, 2048);
    assert_eq!(decoded.columns.len(), 0);
}

#[test]
fn encode_max_columns_typical_workload() {
    // 32 columns × 2048 rows × Float64 — the user's billion-row
    // bench shape. Confirm the encoder handles it cleanly and
    // the resulting blob is within the per-Store linmem budget
    // (1 GiB default).
    let row_count = 2048u32;
    let col_count = 32usize;
    let buf: Vec<u8> = (0..(row_count as usize)).flat_map(|i| (i as f64).to_le_bytes()).collect();
    let mut batch = ColumnarBatch::new(row_count);
    let names: Vec<String> = (0..col_count).map(|i| format!("c{i}")).collect();
    for n in &names {
        batch.push(ColumnRef {
            name: n.as_str(),
            dtype: ColumnDtype::Float64,
            data: &buf,
            validity: None,
        });
    }
    let encoded = encode_batch(&batch).unwrap();
    // Expected: 16 header + 32 × 24 col headers + 32 × (2048×8 +
    // padding + name) ≈ 528 KB. Well under any reasonable cap.
    assert!(encoded.bytes.len() < 1024 * 1024, "{} bytes", encoded.bytes.len());
    let decoded = decode_batch(&encoded.bytes).unwrap();
    assert_eq!(decoded.row_count, row_count);
    assert_eq!(decoded.columns.len(), col_count);
    for (i, col) in decoded.columns.iter().enumerate() {
        assert_eq!(col.name, format!("c{i}"));
        assert_eq!(col.dtype, ColumnDtype::Float64);
        assert_eq!(col.data, buf);
    }
}

#[test]
fn header_struct_sizes_match_constants() {
    assert_eq!(BATCH_HEADER_BYTES, 16, "BatchHeader must be exactly 16 bytes");
    assert_eq!(COLUMN_HEADER_BYTES, 20, "ColumnHeader must be exactly 20 bytes");
}
