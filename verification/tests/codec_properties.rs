//! Concrete checks of the codec's stated properties: discriminant
//! stability, tolerant input sizing, rejection of malformed frames, the
//! schema self-check, and the header-word bit packing.

use liquidcan::can_message::can_catalog;
use liquidcan::codec::DecodeError;
use liquidcan::codec::FieldValue;
use liquidcan::codec::VariantInstance;
use liquidcan::payloads::CanDataType;
use liquidcan::payloads::FieldStatus;
use liquidcan::payloads::HeartbeatPayload;
use liquidcan::payloads::NodeInfoResPayload;
use liquidcan::payloads::ParameterLockStatus;
use liquidcan::payloads::ParameterSetStatus;
use liquidcan::raw_can_message::CanMessagePriority;
use liquidcan::schema::FieldDescriptor;
use liquidcan::schema::FieldKind;
use liquidcan::schema::Schema;
use liquidcan::schema::SchemaError;
use liquidcan::schema::VariantDescriptor;
use liquidcan::CanMessage;
use liquidcan::CanMessageId;

#[test]
fn peek_discriminant_matches_declared() {
    let messages = vec![
        CanMessage::NodeInfoReq,
        CanMessage::HeartbeatReq { payload: HeartbeatPayload { counter: 3 } },
        CanMessage::FieldGetReq { payload: liquidcan::payloads::FieldGetReqPayload {
            field_id: 1,
        } },
    ];
    for msg in messages {
        let frame = msg.to_frame();
        assert_eq!(frame.peek_discriminant(), msg.discriminant());
    }
}

#[test]
fn heartbeat_frame_exact_bytes() {
    let msg = CanMessage::HeartbeatReq { payload: HeartbeatPayload { counter: 0x11223344 } };
    let frame = msg.to_frame();
    assert_eq!(frame.message_type, 40);
    assert_eq!(&frame.data[0..4], &[0x44, 0x33, 0x22, 0x11]);
    for i in 4..63 {
        assert_eq!(frame.data[i], 0);
    }
}

#[test]
fn node_info_frame_exact_bytes() {
    let payload = NodeInfoResPayload {
        tel_count: 2,
        par_count: 3,
        firmware_hash: 0x01020304,
        liquid_hash: 0xA0B0C0D0,
        device_name: [0x41; 53],
    };
    let frame = CanMessage::NodeInfoAnnouncement { payload }.to_frame();
    assert_eq!(frame.message_type, 1);
    assert_eq!(frame.data[0], 2);
    assert_eq!(frame.data[1], 3);
    assert_eq!(&frame.data[2..6], &[0x04, 0x03, 0x02, 0x01]);
    assert_eq!(&frame.data[6..10], &[0xD0, 0xC0, 0xB0, 0xA0]);
    assert_eq!(&frame.data[10..63], &[0x41; 53]);
}

#[test]
fn undersized_input_reads_as_zero_padded() {
    let schema = can_catalog();
    let short = schema.decode(&[40, 17]).unwrap();
    let mut full = [0u8; 64];
    full[0] = 40;
    full[1] = 17;
    let padded = schema.decode(&full).unwrap();
    assert_eq!(short, padded);
    assert_eq!(
        short,
        VariantInstance { discriminant: 40, fields: vec![FieldValue::Uint(17)] }
    );
}

#[test]
fn oversized_input_is_truncated() {
    let schema = can_catalog();
    let mut long = vec![0u8; 80];
    long[0] = 60; // FieldGetReq
    long[1] = 9; // field_id
    for i in 64..80 {
        long[i] = 0xEE; // excess that must be ignored
    }
    let truncated = schema.decode(&long[0..64]).unwrap();
    let whole = schema.decode(&long).unwrap();
    assert_eq!(whole, truncated);
}

#[test]
fn unknown_discriminant_is_rejected() {
    let schema = can_catalog();
    let mut frame = [0u8; 64];
    frame[0] = 255;
    assert_eq!(
        schema.decode(&frame).unwrap_err(),
        DecodeError::UnknownDiscriminant(255)
    );
}

#[test]
fn invalid_nested_enumeration_is_rejected() {
    let schema = can_catalog();
    let mut frame = [0u8; 64];
    frame[0] = 20; // field registration
    frame[1] = 5; // field_id
    frame[2] = 255; // outside the 0-7 case range of the data type
    assert_eq!(
        schema.decode(&frame).unwrap_err(),
        DecodeError::InvalidFieldValue("field_type", 255)
    );
}

#[test]
fn empty_input_decodes_to_discriminant_zero() {
    let schema = can_catalog();
    let inst = schema.decode(&[]).unwrap();
    assert_eq!(inst, VariantInstance { discriminant: 0, fields: vec![] });
    let msg = CanMessage::from_instance(&inst);
    assert_eq!(msg, CanMessage::NodeInfoReq);
}

#[test]
fn trimmed_catalog_frame_round_trips() {
    let schema = can_catalog();
    let msg = CanMessage::FieldGetReq { payload: liquidcan::payloads::FieldGetReqPayload {
        field_id: 9,
    } };
    let inst = msg.to_instance();
    let trimmed = schema.encode_trimmed(&inst);
    assert_eq!(trimmed, vec![60, 9]);
    let back = schema.decode(&trimmed).unwrap();
    assert_eq!(back, inst);
    assert_eq!(CanMessage::from_instance(&back), msg);
}

#[test]
fn schema_rejects_size_mismatch() {
    // One variant whose field bytes + pad miss the 4-byte payload: 2 + 3 != 4.
    let r = Schema::new(
        vec![VariantDescriptor {
            name: "Bad",
            discriminant: 0,
            fields: vec![FieldDescriptor { name: "x", kind: FieldKind::Uint { width: 2 } }],
            pad: 3,
        }],
        5,
    );
    assert_eq!(r.unwrap_err(), SchemaError::SizeMismatch { variant: "Bad" });
}

#[test]
fn schema_rejects_duplicate_discriminant() {
    let r = Schema::new(
        vec![
            VariantDescriptor { name: "A", discriminant: 7, fields: vec![], pad: 4 },
            VariantDescriptor { name: "B", discriminant: 7, fields: vec![], pad: 4 },
        ],
        5,
    );
    assert_eq!(r.unwrap_err(), SchemaError::DuplicateDiscriminant { discriminant: 7 });
}

#[test]
fn schema_rejects_zero_total_size() {
    let r = Schema::new(vec![], 0);
    assert_eq!(r.unwrap_err(), SchemaError::ZeroTotalSize);
}

#[test]
fn schema_rejects_invalid_field_kind() {
    let r = Schema::new(
        vec![VariantDescriptor {
            name: "Wide",
            discriminant: 0,
            fields: vec![FieldDescriptor { name: "x", kind: FieldKind::Uint { width: 9 } }],
            pad: 0,
        }],
        10,
    );
    assert_eq!(r.unwrap_err(), SchemaError::InvalidFieldKind { variant: "Wide" });

    let r = Schema::new(
        vec![VariantDescriptor {
            name: "Empty",
            discriminant: 0,
            fields: vec![FieldDescriptor {
                name: "e",
                kind: FieldKind::Enumerated { count: 0 },
            }],
            pad: 3,
        }],
        5,
    );
    assert_eq!(r.unwrap_err(), SchemaError::InvalidFieldKind { variant: "Empty" });
}

#[test]
fn schema_accepts_the_catalog() {
    let schema = can_catalog();
    assert_eq!(schema.total_size(), 64);
    assert_eq!(schema.variant_count(), 19);
}

#[test]
fn header_word_packs_at_fixed_offsets() {
    let id = CanMessageId::new(5, 9, CanMessagePriority::High);
    let word = id.to_word();
    // bits 0-4 = 5, bits 5-9 = 9, bit 10 = 1, bits 11-15 = 0
    assert_eq!(word, 5 + 9 * 32 + 1024);
    assert_eq!(word, 0b0000_0101_0010_0101);

    let low = CanMessageId::new(31, 0, CanMessagePriority::Low);
    assert_eq!(low.to_word(), 31);
}

#[test]
fn header_word_unpacks_and_ignores_reserved_bits() {
    let word: u16 = 5 + 9 * 32 + 1024;
    let id = CanMessageId::from_word(word);
    assert_eq!(id.receiver_id(), 5);
    assert_eq!(id.sender_id(), 9);
    assert_eq!(id.priority(), CanMessagePriority::High);

    // The same word with reserved bits set unpacks identically, and packing
    // it again clears them.
    let dirty = word | 0xF800;
    let id2 = CanMessageId::from_word(dirty);
    assert_eq!(id2, id);
    assert_eq!(id2.to_word(), word);
}

#[test]
fn header_word_setters_keep_other_fields() {
    let mut id = CanMessageId::new(1, 2, CanMessagePriority::Low);
    id.set_receiver_id(30);
    id.set_priority(CanMessagePriority::High);
    assert_eq!(id.receiver_id(), 30);
    assert_eq!(id.sender_id(), 2);
    assert_eq!(id.priority(), CanMessagePriority::High);
    id.set_sender_id(0);
    assert_eq!(id.to_word(), 30 + 1024);
}

#[test]
fn enumeration_bytes_validate_exactly() {
    assert_eq!(CanDataType::from_byte(0), Some(CanDataType::Float32));
    assert_eq!(CanDataType::from_byte(7), Some(CanDataType::Boolean));
    assert_eq!(CanDataType::from_byte(8), None);
    assert_eq!(CanDataType::UInt16.to_byte(), 5);

    assert_eq!(
        ParameterSetStatus::from_byte(3),
        Some(ParameterSetStatus::NodeToNodeModification)
    );
    assert_eq!(ParameterSetStatus::from_byte(4), None);
    assert_eq!(ParameterSetStatus::ParameterLocked.to_byte(), 2);

    assert_eq!(ParameterLockStatus::from_byte(1), Some(ParameterLockStatus::Locked));
    assert_eq!(ParameterLockStatus::from_byte(2), None);

    assert_eq!(FieldStatus::from_byte(0), Some(FieldStatus::Success));
    assert_eq!(FieldStatus::from_byte(1), None);
}

#[test]
fn message_trimmed_bytes_round_trip() {
    let msg = CanMessage::FieldGetReq { payload: liquidcan::payloads::FieldGetReqPayload {
        field_id: 9,
    } };
    let trimmed = msg.to_bytes();
    assert_eq!(trimmed, vec![60, 9]);
    assert_eq!(CanMessage::from_bytes(&trimmed).unwrap(), msg);

    let full = msg.to_frame();
    let mut full_bytes = vec![full.message_type];
    full_bytes.extend_from_slice(&full.data);
    assert_eq!(CanMessage::from_bytes(&full_bytes).unwrap(), msg);
}
