//! Small hand-built schemas exercising the generic codec: layout sizes,
//! padding, explicit discriminants, trimming and tolerant decoding.

use liquidcan::codec::FieldValue;
use liquidcan::codec::VariantInstance;
use liquidcan::schema::FieldDescriptor;
use liquidcan::schema::FieldKind;
use liquidcan::schema::Schema;
use liquidcan::schema::VariantDescriptor;

/// A three-variant protocol of 5-byte frames: `Move { dist: u32 }`,
/// `Jump { height: u8 }` (3 pad bytes) and `Stop` (4 pad bytes).
fn my_proto_schema() -> Schema {
    Schema::new(
        vec![
            VariantDescriptor {
                name: "Move",
                discriminant: 0,
                fields: vec![FieldDescriptor { name: "dist", kind: FieldKind::Uint { width: 4 } }],
                pad: 0,
            },
            VariantDescriptor {
                name: "Jump",
                discriminant: 1,
                fields: vec![FieldDescriptor {
                    name: "height",
                    kind: FieldKind::Uint { width: 1 },
                }],
                pad: 3,
            },
            VariantDescriptor { name: "Stop", discriminant: 2, fields: vec![], pad: 4 },
        ],
        5,
    )
    .unwrap()
}

fn move_instance(dist: u32) -> VariantInstance {
    VariantInstance { discriminant: 0, fields: vec![FieldValue::Uint(dist as u64)] }
}

fn jump_instance(height: u8) -> VariantInstance {
    VariantInstance { discriminant: 1, fields: vec![FieldValue::Uint(height as u64)] }
}

fn stop_instance() -> VariantInstance {
    VariantInstance { discriminant: 2, fields: vec![] }
}

#[test]
fn test_layout_size() {
    let schema = my_proto_schema();
    assert_eq!(schema.total_size(), 5);
}

#[test]
fn test_move_variant() {
    let schema = my_proto_schema();
    let original = move_instance(0xAABBCCDD);
    let bytes = schema.encode(&original);

    // Check bytes: Tag (0) + u32 (DD CC BB AA) in little endian
    assert_eq!(bytes[0], 0);
    assert_eq!(&bytes[1..5], &[0xDD, 0xCC, 0xBB, 0xAA]);

    // Round trip
    let back = schema.decode(&bytes).unwrap();
    assert_eq!(original, back);
}

#[test]
fn test_jump_variant_padding() {
    let schema = my_proto_schema();
    let original = jump_instance(0xFF);
    let bytes = schema.encode(&original);

    // Tag=1, Data=FF, Pad=00 00 00
    assert_eq!(bytes[0], 1);
    assert_eq!(bytes[1], 0xFF);
    assert_eq!(bytes[2], 0x00); // Pad must be zero
    assert_eq!(bytes[3], 0x00);
    assert_eq!(bytes[4], 0x00);

    // Round trip
    let back = schema.decode(&bytes).unwrap();
    assert_eq!(original, back);
}

#[test]
fn test_stop_variant_padding() {
    let schema = my_proto_schema();
    let original = stop_instance();
    let bytes = schema.encode(&original);

    // Tag=2, Pad=00 00 00 00
    assert_eq!(bytes[0], 2);
    assert_eq!(bytes[1..5], [0, 0, 0, 0]);

    // Round trip
    let back = schema.decode(&bytes).unwrap();
    assert_eq!(original, back);
}

// A protocol whose discriminants come from named constants.
const CMD_PING: u8 = 10;
const CMD_PONG: u8 = 20;
const CMD_DATA: u8 = 30;

fn const_discriminant_schema() -> Schema {
    Schema::new(
        vec![
            VariantDescriptor { name: "Ping", discriminant: CMD_PING, fields: vec![], pad: 4 },
            VariantDescriptor { name: "Pong", discriminant: CMD_PONG, fields: vec![], pad: 4 },
            VariantDescriptor {
                name: "Data",
                discriminant: CMD_DATA,
                fields: vec![FieldDescriptor { name: "value", kind: FieldKind::Uint { width: 4 } }],
                pad: 0,
            },
        ],
        5,
    )
    .unwrap()
}

fn data_instance(value: u32) -> VariantInstance {
    VariantInstance { discriminant: CMD_DATA, fields: vec![FieldValue::Uint(value as u64)] }
}

#[test]
fn test_constant_discriminants() {
    let schema = const_discriminant_schema();

    let ping = VariantInstance { discriminant: CMD_PING, fields: vec![] };
    let bytes = schema.encode(&ping);
    assert_eq!(bytes[0], CMD_PING);

    let pong = VariantInstance { discriminant: CMD_PONG, fields: vec![] };
    let bytes = schema.encode(&pong);
    assert_eq!(bytes[0], CMD_PONG);

    let data = data_instance(0x12345678);
    let bytes = schema.encode(&data);
    assert_eq!(bytes[0], CMD_DATA);
    assert_eq!(&bytes[1..5], &[0x78, 0x56, 0x34, 0x12]); // little endian
}

#[test]
fn test_constant_discriminants_round_trip() {
    let schema = const_discriminant_schema();
    let original = data_instance(0xDEADBEEF);
    let bytes = schema.encode(&original);

    let back = schema.decode(&bytes).unwrap();
    assert_eq!(original, back);
}

#[test]
fn test_to_from_bytes_for_original() {
    let schema = my_proto_schema();
    let original = move_instance(0xA1B2C3D4);
    let bytes = schema.encode_trimmed(&original);
    // Tag(0) + dist(4) = 5. padding is 0.
    assert_eq!(bytes.len(), 5);
    assert_eq!(bytes[0], 0);
    assert_eq!(&bytes[1..5], &[0xD4, 0xC3, 0xB2, 0xA1]);

    let recovered = schema.decode(&bytes).unwrap();
    assert_eq!(original, recovered);

    // Test padding logic
    let jump = jump_instance(0x77);
    let bytes_jump = schema.encode_trimmed(&jump);
    // Tag(1) + height(1) + pad(3) = 5.
    // Stripped bytes = 5 - 3 = 2.
    assert_eq!(bytes_jump.len(), 2);
    assert_eq!(bytes_jump, vec![1, 0x77]);

    let recovered_jump = schema.decode(&bytes_jump).unwrap();
    assert_eq!(jump, recovered_jump);

    // Test undersized input
    let incomplete = vec![1, 0x77]; // implicit padding
    let recovered = schema.decode(&incomplete).unwrap();
    assert_eq!(jump, recovered);

    // Test empty input (should be padded with 0 -> Tag=0 -> Move{val:0})
    let empty: Vec<u8> = vec![];
    let recovered_empty = schema.decode(&empty).unwrap();
    assert_eq!(recovered_empty.discriminant, 0);
    match recovered_empty.fields.as_slice() {
        [FieldValue::Uint(dist)] => assert_eq!(*dist, 0),
        _ => panic!("Expected Move(0)"),
    }
}
