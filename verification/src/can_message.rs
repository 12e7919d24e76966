//! The message catalog: a concrete tagged-union schema of 19 variants
//! sharing 64-byte frames, and the conversions between [`CanMessage`]
//! values and generic [`VariantInstance`] values of that schema.

use crate::codec::instance_conforms;
use crate::codec::value_fits;
use crate::codec::views_of_values;
use crate::codec::FieldValue;
use crate::codec::SpecInstance;
use crate::codec::SpecValue;
use crate::codec::VariantInstance;
use crate::layout::pow256;
use crate::schema::fields_width;
use crate::schema::lemma_find_variant_at;
use crate::schema::schema_wf;
use crate::schema::spec_find_variant;
use crate::schema::variant_wf;
use crate::schema::views_of_fields;
use crate::schema::views_of_variants;
use crate::schema::FieldDescriptor;
use crate::schema::FieldKind;
use crate::schema::Schema;
use crate::schema::SpecField;
use crate::schema::SpecSchema;
use crate::schema::SpecVariant;
use crate::schema::VariantDescriptor;
use crate::payloads::CanDataType;
use crate::payloads::FieldGetReqPayload;
use crate::payloads::FieldGetResPayload;
use crate::payloads::FieldIDLookupReqPayload;
use crate::payloads::FieldIDLookupResPayload;
use crate::payloads::FieldRegistrationPayload;
use crate::payloads::FieldStatus;
use crate::payloads::HeartbeatPayload;
use crate::payloads::NodeInfoResPayload;
use crate::payloads::ParameterLockStatus;
use crate::payloads::ParameterSetConfirmationPayload;
use crate::payloads::ParameterSetLockConfirmationPayload;
use crate::payloads::ParameterSetLockPayload;
use crate::payloads::ParameterSetReqPayload;
use crate::payloads::ParameterSetStatus;
use crate::payloads::StatusPayload;
use crate::payloads::TelemetryGroupDefinitionPayload;
use crate::payloads::TelemetryGroupUpdatePayload;
use vstd::array::array_fill_for_copy_types;
use vstd::pervasive::unreached;
use vstd::prelude::*;
use vstd::slice::slice_index_get;
use vstd::slice::slice_to_vec;

verus! {

/// The fixed size in bytes of every frame of the catalog.
pub const CAN_FRAME_SIZE: usize = 64;

/// One message of the catalog: exactly one variant's field set.
#[derive(Clone, Copy, PartialEq, Eq, Debug)]
pub enum CanMessage {
    NodeInfoReq,
    NodeInfoAnnouncement { payload: NodeInfoResPayload },
    InfoStatus { payload: StatusPayload },
    WarningStatus { payload: StatusPayload },
    ErrorStatus { payload: StatusPayload },
    TelemetryValueRegistration { payload: FieldRegistrationPayload },
    ParameterRegistration { payload: FieldRegistrationPayload },
    TelemetryGroupDefinition { payload: TelemetryGroupDefinitionPayload },
    TelemetryGroupUpdate { payload: TelemetryGroupUpdatePayload },
    HeartbeatReq { payload: HeartbeatPayload },
    HeartbeatRes { payload: HeartbeatPayload },
    ParameterSetReq { payload: ParameterSetReqPayload },
    ParameterSetConfirmation { payload: ParameterSetConfirmationPayload },
    ParameterSetLockReq { payload: ParameterSetLockPayload },
    ParameterSetLockConfirmation { payload: ParameterSetLockConfirmationPayload },
    FieldGetReq { payload: FieldGetReqPayload },
    FieldGetRes { payload: FieldGetResPayload },
    FieldIDLookupReq { payload: FieldIDLookupReqPayload },
    FieldIDLookupRes { payload: FieldIDLookupResPayload },
}

/// The catalog descriptor of the `NodeInfoReq` variant.
pub open spec fn catalog_node_info_req() -> SpecVariant {
    SpecVariant { name: "NodeInfoReq"@, discriminant: 0, fields: node_info_req_layout(), pad: 63 }
}

/// The field layout of the `NodeInfoReq` variant: no fields.
pub open spec fn node_info_req_layout() -> Seq<SpecField> {
    Seq::empty()
}

/// The catalog descriptor of the `NodeInfoAnnouncement` variant.
pub open spec fn catalog_node_info_announcement() -> SpecVariant {
    SpecVariant { name: "NodeInfoAnnouncement"@, discriminant: 1, fields: node_info_announcement_layout(), pad: 0 }
}

/// The field layout of the `NodeInfoAnnouncement` variant.
pub open spec fn node_info_announcement_layout() -> Seq<SpecField> {
    seq![
        SpecField { name: "tel_count"@, kind: FieldKind::Uint { width: 1 } },
        SpecField { name: "par_count"@, kind: FieldKind::Uint { width: 1 } },
        SpecField { name: "firmware_hash"@, kind: FieldKind::Uint { width: 4 } },
        SpecField { name: "liquid_hash"@, kind: FieldKind::Uint { width: 4 } },
        SpecField { name: "device_name"@, kind: FieldKind::Bytes { len: 53 } },
    ]
}

/// The catalog descriptor of the `InfoStatus` variant.
pub open spec fn catalog_info_status() -> SpecVariant {
    SpecVariant { name: "InfoStatus"@, discriminant: 10, fields: info_status_layout(), pad: 0 }
}

/// The field layout of the `InfoStatus` variant.
pub open spec fn info_status_layout() -> Seq<SpecField> {
    seq![
        SpecField { name: "msg"@, kind: FieldKind::Bytes { len: 63 } },
    ]
}

/// The catalog descriptor of the `WarningStatus` variant.
pub open spec fn catalog_warning_status() -> SpecVariant {
    SpecVariant { name: "WarningStatus"@, discriminant: 11, fields: warning_status_layout(), pad: 0 }
}

/// The field layout of the `WarningStatus` variant.
pub open spec fn warning_status_layout() -> Seq<SpecField> {
    seq![
        SpecField { name: "msg"@, kind: FieldKind::Bytes { len: 63 } },
    ]
}

/// The catalog descriptor of the `ErrorStatus` variant.
pub open spec fn catalog_error_status() -> SpecVariant {
    SpecVariant { name: "ErrorStatus"@, discriminant: 12, fields: error_status_layout(), pad: 0 }
}

/// The field layout of the `ErrorStatus` variant.
pub open spec fn error_status_layout() -> Seq<SpecField> {
    seq![
        SpecField { name: "msg"@, kind: FieldKind::Bytes { len: 63 } },
    ]
}

/// The catalog descriptor of the `TelemetryValueRegistration` variant.
pub open spec fn catalog_telemetry_value_registration() -> SpecVariant {
    SpecVariant { name: "TelemetryValueRegistration"@, discriminant: 20, fields: telemetry_value_registration_layout(), pad: 0 }
}

/// The field layout of the `TelemetryValueRegistration` variant.
pub open spec fn telemetry_value_registration_layout() -> Seq<SpecField> {
    seq![
        SpecField { name: "field_id"@, kind: FieldKind::Uint { width: 1 } },
        SpecField { name: "field_type"@, kind: FieldKind::Enumerated { count: 8 } },
        SpecField { name: "field_name"@, kind: FieldKind::Bytes { len: 61 } },
    ]
}

/// The catalog descriptor of the `ParameterRegistration` variant.
pub open spec fn catalog_parameter_registration() -> SpecVariant {
    SpecVariant { name: "ParameterRegistration"@, discriminant: 21, fields: parameter_registration_layout(), pad: 0 }
}

/// The field layout of the `ParameterRegistration` variant.
pub open spec fn parameter_registration_layout() -> Seq<SpecField> {
    seq![
        SpecField { name: "field_id"@, kind: FieldKind::Uint { width: 1 } },
        SpecField { name: "field_type"@, kind: FieldKind::Enumerated { count: 8 } },
        SpecField { name: "field_name"@, kind: FieldKind::Bytes { len: 61 } },
    ]
}

/// The catalog descriptor of the `TelemetryGroupDefinition` variant.
pub open spec fn catalog_telemetry_group_definition() -> SpecVariant {
    SpecVariant { name: "TelemetryGroupDefinition"@, discriminant: 30, fields: telemetry_group_definition_layout(), pad: 0 }
}

/// The field layout of the `TelemetryGroupDefinition` variant.
pub open spec fn telemetry_group_definition_layout() -> Seq<SpecField> {
    seq![
        SpecField { name: "group_id"@, kind: FieldKind::Uint { width: 1 } },
        SpecField { name: "field_ids"@, kind: FieldKind::Bytes { len: 62 } },
    ]
}

/// The catalog descriptor of the `TelemetryGroupUpdate` variant.
pub open spec fn catalog_telemetry_group_update() -> SpecVariant {
    SpecVariant { name: "TelemetryGroupUpdate"@, discriminant: 31, fields: telemetry_group_update_layout(), pad: 0 }
}

/// The field layout of the `TelemetryGroupUpdate` variant.
pub open spec fn telemetry_group_update_layout() -> Seq<SpecField> {
    seq![
        SpecField { name: "group_id"@, kind: FieldKind::Uint { width: 1 } },
        SpecField { name: "values"@, kind: FieldKind::Bytes { len: 62 } },
    ]
}

/// The catalog descriptor of the `HeartbeatReq` variant.
pub open spec fn catalog_heartbeat_req() -> SpecVariant {
    SpecVariant { name: "HeartbeatReq"@, discriminant: 40, fields: heartbeat_req_layout(), pad: 59 }
}

/// The field layout of the `HeartbeatReq` variant.
pub open spec fn heartbeat_req_layout() -> Seq<SpecField> {
    seq![
        SpecField { name: "counter"@, kind: FieldKind::Uint { width: 4 } },
    ]
}

/// The catalog descriptor of the `HeartbeatRes` variant.
pub open spec fn catalog_heartbeat_res() -> SpecVariant {
    SpecVariant { name: "HeartbeatRes"@, discriminant: 41, fields: heartbeat_res_layout(), pad: 59 }
}

/// The field layout of the `HeartbeatRes` variant.
pub open spec fn heartbeat_res_layout() -> Seq<SpecField> {
    seq![
        SpecField { name: "counter"@, kind: FieldKind::Uint { width: 4 } },
    ]
}

/// The catalog descriptor of the `ParameterSetReq` variant.
pub open spec fn catalog_parameter_set_req() -> SpecVariant {
    SpecVariant { name: "ParameterSetReq"@, discriminant: 50, fields: parameter_set_req_layout(), pad: 1 }
}

/// The field layout of the `ParameterSetReq` variant.
pub open spec fn parameter_set_req_layout() -> Seq<SpecField> {
    seq![
        SpecField { name: "parameter_id"@, kind: FieldKind::Uint { width: 1 } },
        SpecField { name: "value"@, kind: FieldKind::Bytes { len: 61 } },
    ]
}

/// The catalog descriptor of the `ParameterSetConfirmation` variant.
pub open spec fn catalog_parameter_set_confirmation() -> SpecVariant {
    SpecVariant { name: "ParameterSetConfirmation"@, discriminant: 51, fields: parameter_set_confirmation_layout(), pad: 0 }
}

/// The field layout of the `ParameterSetConfirmation` variant.
pub open spec fn parameter_set_confirmation_layout() -> Seq<SpecField> {
    seq![
        SpecField { name: "parameter_id"@, kind: FieldKind::Uint { width: 1 } },
        SpecField { name: "status"@, kind: FieldKind::Enumerated { count: 4 } },
        SpecField { name: "value"@, kind: FieldKind::Bytes { len: 61 } },
    ]
}

/// The catalog descriptor of the `ParameterSetLockReq` variant.
pub open spec fn catalog_parameter_set_lock_req() -> SpecVariant {
    SpecVariant { name: "ParameterSetLockReq"@, discriminant: 52, fields: parameter_set_lock_req_layout(), pad: 61 }
}

/// The field layout of the `ParameterSetLockReq` variant.
pub open spec fn parameter_set_lock_req_layout() -> Seq<SpecField> {
    seq![
        SpecField { name: "parameter_id"@, kind: FieldKind::Uint { width: 1 } },
        SpecField { name: "parameter_lock"@, kind: FieldKind::Enumerated { count: 2 } },
    ]
}

/// The catalog descriptor of the `ParameterSetLockConfirmation` variant.
pub open spec fn catalog_parameter_set_lock_confirmation() -> SpecVariant {
    SpecVariant { name: "ParameterSetLockConfirmation"@, discriminant: 53, fields: parameter_set_lock_confirmation_layout(), pad: 60 }
}

/// The field layout of the `ParameterSetLockConfirmation` variant.
pub open spec fn parameter_set_lock_confirmation_layout() -> Seq<SpecField> {
    seq![
        SpecField { name: "parameter_id"@, kind: FieldKind::Uint { width: 1 } },
        SpecField { name: "parameter_lock"@, kind: FieldKind::Enumerated { count: 2 } },
        SpecField { name: "field_status"@, kind: FieldKind::Enumerated { count: 1 } },
    ]
}

/// The catalog descriptor of the `FieldGetReq` variant.
pub open spec fn catalog_field_get_req() -> SpecVariant {
    SpecVariant { name: "FieldGetReq"@, discriminant: 60, fields: field_get_req_layout(), pad: 62 }
}

/// The field layout of the `FieldGetReq` variant.
pub open spec fn field_get_req_layout() -> Seq<SpecField> {
    seq![
        SpecField { name: "field_id"@, kind: FieldKind::Uint { width: 1 } },
    ]
}

/// The catalog descriptor of the `FieldGetRes` variant.
pub open spec fn catalog_field_get_res() -> SpecVariant {
    SpecVariant { name: "FieldGetRes"@, discriminant: 61, fields: field_get_res_layout(), pad: 0 }
}

/// The field layout of the `FieldGetRes` variant.
pub open spec fn field_get_res_layout() -> Seq<SpecField> {
    seq![
        SpecField { name: "field_id"@, kind: FieldKind::Uint { width: 1 } },
        SpecField { name: "field_status"@, kind: FieldKind::Enumerated { count: 1 } },
        SpecField { name: "value"@, kind: FieldKind::Bytes { len: 61 } },
    ]
}

/// The catalog descriptor of the `FieldIDLookupReq` variant.
pub open spec fn catalog_field_id_lookup_req() -> SpecVariant {
    SpecVariant { name: "FieldIDLookupReq"@, discriminant: 62, fields: field_id_lookup_req_layout(), pad: 2 }
}

/// The field layout of the `FieldIDLookupReq` variant.
pub open spec fn field_id_lookup_req_layout() -> Seq<SpecField> {
    seq![
        SpecField { name: "field_name"@, kind: FieldKind::Bytes { len: 61 } },
    ]
}

/// The catalog descriptor of the `FieldIDLookupRes` variant.
pub open spec fn catalog_field_id_lookup_res() -> SpecVariant {
    SpecVariant { name: "FieldIDLookupRes"@, discriminant: 63, fields: field_id_lookup_res_layout(), pad: 60 }
}

/// The field layout of the `FieldIDLookupRes` variant.
pub open spec fn field_id_lookup_res_layout() -> Seq<SpecField> {
    seq![
        SpecField { name: "field_id"@, kind: FieldKind::Uint { width: 1 } },
        SpecField { name: "field_status"@, kind: FieldKind::Enumerated { count: 1 } },
        SpecField { name: "field_type"@, kind: FieldKind::Enumerated { count: 8 } },
    ]
}

/// The catalog schema as ghost data: every variant's name, discriminant,
/// field layout and padding. Kept opaque; proofs reveal it where they need
/// the table itself.
#[verifier::opaque]
pub open spec fn spec_catalog() -> SpecSchema {
    SpecSchema {
        variants: seq![
            catalog_node_info_req(),
            catalog_node_info_announcement(),
            catalog_info_status(),
            catalog_warning_status(),
            catalog_error_status(),
            catalog_telemetry_value_registration(),
            catalog_parameter_registration(),
            catalog_telemetry_group_definition(),
            catalog_telemetry_group_update(),
            catalog_heartbeat_req(),
            catalog_heartbeat_res(),
            catalog_parameter_set_req(),
            catalog_parameter_set_confirmation(),
            catalog_parameter_set_lock_req(),
            catalog_parameter_set_lock_confirmation(),
            catalog_field_get_req(),
            catalog_field_get_res(),
            catalog_field_id_lookup_req(),
            catalog_field_id_lookup_res(),
        ],
        total_size: 64,
    }
}

/// The catalog passes the schema self-check: every variant fills the
/// 64-byte frame exactly and no discriminant repeats.
#[verifier::rlimit(100)]
pub proof fn lemma_catalog_wf()
    ensures
        schema_wf(spec_catalog()),
{
    reveal(spec_catalog);
    reveal_with_fuel(fields_width, 8);
    let vs = spec_catalog().variants;
    assert(vs.len() == 19);
    assert forall|i: int| 0 <= i < vs.len() implies variant_wf(#[trigger] vs[i], 64) by {
        reveal_with_fuel(fields_width, 8);
        if i == 0 {
            assert(variant_wf(catalog_node_info_req(), 64));
        } else if i == 1 {
            assert(variant_wf(catalog_node_info_announcement(), 64));
        } else if i == 2 {
            assert(variant_wf(catalog_info_status(), 64));
        } else if i == 3 {
            assert(variant_wf(catalog_warning_status(), 64));
        } else if i == 4 {
            assert(variant_wf(catalog_error_status(), 64));
        } else if i == 5 {
            assert(variant_wf(catalog_telemetry_value_registration(), 64));
        } else if i == 6 {
            assert(variant_wf(catalog_parameter_registration(), 64));
        } else if i == 7 {
            assert(variant_wf(catalog_telemetry_group_definition(), 64));
        } else if i == 8 {
            assert(variant_wf(catalog_telemetry_group_update(), 64));
        } else if i == 9 {
            assert(variant_wf(catalog_heartbeat_req(), 64));
        } else if i == 10 {
            assert(variant_wf(catalog_heartbeat_res(), 64));
        } else if i == 11 {
            assert(variant_wf(catalog_parameter_set_req(), 64));
        } else if i == 12 {
            assert(variant_wf(catalog_parameter_set_confirmation(), 64));
        } else if i == 13 {
            assert(variant_wf(catalog_parameter_set_lock_req(), 64));
        } else if i == 14 {
            assert(variant_wf(catalog_parameter_set_lock_confirmation(), 64));
        } else if i == 15 {
            assert(variant_wf(catalog_field_get_req(), 64));
        } else if i == 16 {
            assert(variant_wf(catalog_field_get_res(), 64));
        } else if i == 17 {
            assert(variant_wf(catalog_field_id_lookup_req(), 64));
        } else if i == 18 {
            assert(variant_wf(catalog_field_id_lookup_res(), 64));
        }
    }
    assert forall|k: int| 0 <= k < vs.len() - 1 implies (#[trigger] vs[k].discriminant) < vs[
        k + 1
    ].discriminant by {
        if k == 0 {
            assert(vs[0].discriminant < vs[1].discriminant);
        } else if k == 1 {
            assert(vs[1].discriminant < vs[2].discriminant);
        } else if k == 2 {
            assert(vs[2].discriminant < vs[3].discriminant);
        } else if k == 3 {
            assert(vs[3].discriminant < vs[4].discriminant);
        } else if k == 4 {
            assert(vs[4].discriminant < vs[5].discriminant);
        } else if k == 5 {
            assert(vs[5].discriminant < vs[6].discriminant);
        } else if k == 6 {
            assert(vs[6].discriminant < vs[7].discriminant);
        } else if k == 7 {
            assert(vs[7].discriminant < vs[8].discriminant);
        } else if k == 8 {
            assert(vs[8].discriminant < vs[9].discriminant);
        } else if k == 9 {
            assert(vs[9].discriminant < vs[10].discriminant);
        } else if k == 10 {
            assert(vs[10].discriminant < vs[11].discriminant);
        } else if k == 11 {
            assert(vs[11].discriminant < vs[12].discriminant);
        } else if k == 12 {
            assert(vs[12].discriminant < vs[13].discriminant);
        } else if k == 13 {
            assert(vs[13].discriminant < vs[14].discriminant);
        } else if k == 14 {
            assert(vs[14].discriminant < vs[15].discriminant);
        } else if k == 15 {
            assert(vs[15].discriminant < vs[16].discriminant);
        } else if k == 16 {
            assert(vs[16].discriminant < vs[17].discriminant);
        } else if k == 17 {
            assert(vs[17].discriminant < vs[18].discriminant);
        }
    }
    assert forall|i: int, j: int| 0 <= i < j < vs.len() implies vs[i].discriminant != vs[
        j
    ].discriminant by {
        lemma_discs_increase(vs, i, j);
    }
}

/// In a table whose adjacent discriminants increase, any earlier variant's
/// discriminant is below any later one's.
proof fn lemma_discs_increase(vs: Seq<SpecVariant>, i: int, j: int)
    requires
        0 <= i < j < vs.len(),
        forall|k: int| 0 <= k < vs.len() - 1 ==> (#[trigger] vs[k].discriminant) < vs[k + 1].discriminant,
    ensures
        vs[i].discriminant < vs[j].discriminant,
    decreases j - i,
{
    if i + 1 < j {
        lemma_discs_increase(vs, i, j - 1);
    }
}

/// Builds the catalog schema and runs it through the validator; the
/// self-check provably succeeds.
pub fn can_catalog() -> (r: Schema)
    ensures
        r@ == spec_catalog(),
        schema_wf(r@),
{
    let mut variants: Vec<VariantDescriptor> = Vec::new();
    let mut fs0: Vec<FieldDescriptor> = Vec::new();
    assert(views_of_fields(fs0@) =~= node_info_req_layout());
    variants.push(VariantDescriptor { name: "NodeInfoReq", discriminant: 0, fields: fs0, pad: 63 });
    let mut fs1: Vec<FieldDescriptor> = Vec::new();
    fs1.push(FieldDescriptor { name: "tel_count", kind: FieldKind::Uint { width: 1 } });
    fs1.push(FieldDescriptor { name: "par_count", kind: FieldKind::Uint { width: 1 } });
    fs1.push(FieldDescriptor { name: "firmware_hash", kind: FieldKind::Uint { width: 4 } });
    fs1.push(FieldDescriptor { name: "liquid_hash", kind: FieldKind::Uint { width: 4 } });
    fs1.push(FieldDescriptor { name: "device_name", kind: FieldKind::Bytes { len: 53 } });
    assert(views_of_fields(fs1@) =~= node_info_announcement_layout());
    variants.push(VariantDescriptor { name: "NodeInfoAnnouncement", discriminant: 1, fields: fs1, pad: 0 });
    let mut fs2: Vec<FieldDescriptor> = Vec::new();
    fs2.push(FieldDescriptor { name: "msg", kind: FieldKind::Bytes { len: 63 } });
    assert(views_of_fields(fs2@) =~= info_status_layout());
    variants.push(VariantDescriptor { name: "InfoStatus", discriminant: 10, fields: fs2, pad: 0 });
    let mut fs3: Vec<FieldDescriptor> = Vec::new();
    fs3.push(FieldDescriptor { name: "msg", kind: FieldKind::Bytes { len: 63 } });
    assert(views_of_fields(fs3@) =~= warning_status_layout());
    variants.push(VariantDescriptor { name: "WarningStatus", discriminant: 11, fields: fs3, pad: 0 });
    let mut fs4: Vec<FieldDescriptor> = Vec::new();
    fs4.push(FieldDescriptor { name: "msg", kind: FieldKind::Bytes { len: 63 } });
    assert(views_of_fields(fs4@) =~= error_status_layout());
    variants.push(VariantDescriptor { name: "ErrorStatus", discriminant: 12, fields: fs4, pad: 0 });
    let mut fs5: Vec<FieldDescriptor> = Vec::new();
    fs5.push(FieldDescriptor { name: "field_id", kind: FieldKind::Uint { width: 1 } });
    fs5.push(FieldDescriptor { name: "field_type", kind: FieldKind::Enumerated { count: 8 } });
    fs5.push(FieldDescriptor { name: "field_name", kind: FieldKind::Bytes { len: 61 } });
    assert(views_of_fields(fs5@) =~= telemetry_value_registration_layout());
    variants.push(VariantDescriptor { name: "TelemetryValueRegistration", discriminant: 20, fields: fs5, pad: 0 });
    let mut fs6: Vec<FieldDescriptor> = Vec::new();
    fs6.push(FieldDescriptor { name: "field_id", kind: FieldKind::Uint { width: 1 } });
    fs6.push(FieldDescriptor { name: "field_type", kind: FieldKind::Enumerated { count: 8 } });
    fs6.push(FieldDescriptor { name: "field_name", kind: FieldKind::Bytes { len: 61 } });
    assert(views_of_fields(fs6@) =~= parameter_registration_layout());
    variants.push(VariantDescriptor { name: "ParameterRegistration", discriminant: 21, fields: fs6, pad: 0 });
    let mut fs7: Vec<FieldDescriptor> = Vec::new();
    fs7.push(FieldDescriptor { name: "group_id", kind: FieldKind::Uint { width: 1 } });
    fs7.push(FieldDescriptor { name: "field_ids", kind: FieldKind::Bytes { len: 62 } });
    assert(views_of_fields(fs7@) =~= telemetry_group_definition_layout());
    variants.push(VariantDescriptor { name: "TelemetryGroupDefinition", discriminant: 30, fields: fs7, pad: 0 });
    let mut fs8: Vec<FieldDescriptor> = Vec::new();
    fs8.push(FieldDescriptor { name: "group_id", kind: FieldKind::Uint { width: 1 } });
    fs8.push(FieldDescriptor { name: "values", kind: FieldKind::Bytes { len: 62 } });
    assert(views_of_fields(fs8@) =~= telemetry_group_update_layout());
    variants.push(VariantDescriptor { name: "TelemetryGroupUpdate", discriminant: 31, fields: fs8, pad: 0 });
    let mut fs9: Vec<FieldDescriptor> = Vec::new();
    fs9.push(FieldDescriptor { name: "counter", kind: FieldKind::Uint { width: 4 } });
    assert(views_of_fields(fs9@) =~= heartbeat_req_layout());
    variants.push(VariantDescriptor { name: "HeartbeatReq", discriminant: 40, fields: fs9, pad: 59 });
    let mut fs10: Vec<FieldDescriptor> = Vec::new();
    fs10.push(FieldDescriptor { name: "counter", kind: FieldKind::Uint { width: 4 } });
    assert(views_of_fields(fs10@) =~= heartbeat_res_layout());
    variants.push(VariantDescriptor { name: "HeartbeatRes", discriminant: 41, fields: fs10, pad: 59 });
    let mut fs11: Vec<FieldDescriptor> = Vec::new();
    fs11.push(FieldDescriptor { name: "parameter_id", kind: FieldKind::Uint { width: 1 } });
    fs11.push(FieldDescriptor { name: "value", kind: FieldKind::Bytes { len: 61 } });
    assert(views_of_fields(fs11@) =~= parameter_set_req_layout());
    variants.push(VariantDescriptor { name: "ParameterSetReq", discriminant: 50, fields: fs11, pad: 1 });
    let mut fs12: Vec<FieldDescriptor> = Vec::new();
    fs12.push(FieldDescriptor { name: "parameter_id", kind: FieldKind::Uint { width: 1 } });
    fs12.push(FieldDescriptor { name: "status", kind: FieldKind::Enumerated { count: 4 } });
    fs12.push(FieldDescriptor { name: "value", kind: FieldKind::Bytes { len: 61 } });
    assert(views_of_fields(fs12@) =~= parameter_set_confirmation_layout());
    variants.push(VariantDescriptor { name: "ParameterSetConfirmation", discriminant: 51, fields: fs12, pad: 0 });
    let mut fs13: Vec<FieldDescriptor> = Vec::new();
    fs13.push(FieldDescriptor { name: "parameter_id", kind: FieldKind::Uint { width: 1 } });
    fs13.push(FieldDescriptor { name: "parameter_lock", kind: FieldKind::Enumerated { count: 2 } });
    assert(views_of_fields(fs13@) =~= parameter_set_lock_req_layout());
    variants.push(VariantDescriptor { name: "ParameterSetLockReq", discriminant: 52, fields: fs13, pad: 61 });
    let mut fs14: Vec<FieldDescriptor> = Vec::new();
    fs14.push(FieldDescriptor { name: "parameter_id", kind: FieldKind::Uint { width: 1 } });
    fs14.push(FieldDescriptor { name: "parameter_lock", kind: FieldKind::Enumerated { count: 2 } });
    fs14.push(FieldDescriptor { name: "field_status", kind: FieldKind::Enumerated { count: 1 } });
    assert(views_of_fields(fs14@) =~= parameter_set_lock_confirmation_layout());
    variants.push(VariantDescriptor { name: "ParameterSetLockConfirmation", discriminant: 53, fields: fs14, pad: 60 });
    let mut fs15: Vec<FieldDescriptor> = Vec::new();
    fs15.push(FieldDescriptor { name: "field_id", kind: FieldKind::Uint { width: 1 } });
    assert(views_of_fields(fs15@) =~= field_get_req_layout());
    variants.push(VariantDescriptor { name: "FieldGetReq", discriminant: 60, fields: fs15, pad: 62 });
    let mut fs16: Vec<FieldDescriptor> = Vec::new();
    fs16.push(FieldDescriptor { name: "field_id", kind: FieldKind::Uint { width: 1 } });
    fs16.push(FieldDescriptor { name: "field_status", kind: FieldKind::Enumerated { count: 1 } });
    fs16.push(FieldDescriptor { name: "value", kind: FieldKind::Bytes { len: 61 } });
    assert(views_of_fields(fs16@) =~= field_get_res_layout());
    variants.push(VariantDescriptor { name: "FieldGetRes", discriminant: 61, fields: fs16, pad: 0 });
    let mut fs17: Vec<FieldDescriptor> = Vec::new();
    fs17.push(FieldDescriptor { name: "field_name", kind: FieldKind::Bytes { len: 61 } });
    assert(views_of_fields(fs17@) =~= field_id_lookup_req_layout());
    variants.push(VariantDescriptor { name: "FieldIDLookupReq", discriminant: 62, fields: fs17, pad: 2 });
    let mut fs18: Vec<FieldDescriptor> = Vec::new();
    fs18.push(FieldDescriptor { name: "field_id", kind: FieldKind::Uint { width: 1 } });
    fs18.push(FieldDescriptor { name: "field_status", kind: FieldKind::Enumerated { count: 1 } });
    fs18.push(FieldDescriptor { name: "field_type", kind: FieldKind::Enumerated { count: 8 } });
    assert(views_of_fields(fs18@) =~= field_id_lookup_res_layout());
    variants.push(VariantDescriptor { name: "FieldIDLookupRes", discriminant: 63, fields: fs18, pad: 60 });
    proof {
        reveal(spec_catalog);
        assert(views_of_variants(variants@) =~~= spec_catalog().variants);
        lemma_catalog_wf();
    }
    match Schema::new(variants, CAN_FRAME_SIZE) {
        Ok(s) => s,
        Err(_) => unreached(),
    }
}

impl CanMessage {
    /// The declared wire discriminant of this message's variant.
    pub open spec fn spec_discriminant(self) -> u8 {
        match self {
            CanMessage::NodeInfoReq => 0,
            CanMessage::NodeInfoAnnouncement { payload: _ } => 1,
            CanMessage::InfoStatus { payload: _ } => 10,
            CanMessage::WarningStatus { payload: _ } => 11,
            CanMessage::ErrorStatus { payload: _ } => 12,
            CanMessage::TelemetryValueRegistration { payload: _ } => 20,
            CanMessage::ParameterRegistration { payload: _ } => 21,
            CanMessage::TelemetryGroupDefinition { payload: _ } => 30,
            CanMessage::TelemetryGroupUpdate { payload: _ } => 31,
            CanMessage::HeartbeatReq { payload: _ } => 40,
            CanMessage::HeartbeatRes { payload: _ } => 41,
            CanMessage::ParameterSetReq { payload: _ } => 50,
            CanMessage::ParameterSetConfirmation { payload: _ } => 51,
            CanMessage::ParameterSetLockReq { payload: _ } => 52,
            CanMessage::ParameterSetLockConfirmation { payload: _ } => 53,
            CanMessage::FieldGetReq { payload: _ } => 60,
            CanMessage::FieldGetRes { payload: _ } => 61,
            CanMessage::FieldIDLookupReq { payload: _ } => 62,
            CanMessage::FieldIDLookupRes { payload: _ } => 63,
        }
    }

    /// The discriminant of this message, read by variant match.
    pub fn discriminant(&self) -> (r: u8)
        ensures
            r == self.spec_discriminant(),
    {
        match self {
            CanMessage::NodeInfoReq => 0,
            CanMessage::NodeInfoAnnouncement { payload: _ } => 1,
            CanMessage::InfoStatus { payload: _ } => 10,
            CanMessage::WarningStatus { payload: _ } => 11,
            CanMessage::ErrorStatus { payload: _ } => 12,
            CanMessage::TelemetryValueRegistration { payload: _ } => 20,
            CanMessage::ParameterRegistration { payload: _ } => 21,
            CanMessage::TelemetryGroupDefinition { payload: _ } => 30,
            CanMessage::TelemetryGroupUpdate { payload: _ } => 31,
            CanMessage::HeartbeatReq { payload: _ } => 40,
            CanMessage::HeartbeatRes { payload: _ } => 41,
            CanMessage::ParameterSetReq { payload: _ } => 50,
            CanMessage::ParameterSetConfirmation { payload: _ } => 51,
            CanMessage::ParameterSetLockReq { payload: _ } => 52,
            CanMessage::ParameterSetLockConfirmation { payload: _ } => 53,
            CanMessage::FieldGetReq { payload: _ } => 60,
            CanMessage::FieldGetRes { payload: _ } => 61,
            CanMessage::FieldIDLookupReq { payload: _ } => 62,
            CanMessage::FieldIDLookupRes { payload: _ } => 63,
        }
    }
}

/// The field values a `NodeInfoAnnouncement` payload stands for.
pub open spec fn node_info_announcement_values(payload: NodeInfoResPayload) -> Seq<SpecValue> {
    seq![
        SpecValue::Uint(payload.tel_count as u64),
        SpecValue::Uint(payload.par_count as u64),
        SpecValue::Uint(payload.firmware_hash as u64),
        SpecValue::Uint(payload.liquid_hash as u64),
        SpecValue::Bytes(payload.device_name@),
    ]
}

/// The field values a `InfoStatus` payload stands for.
pub open spec fn info_status_values(payload: StatusPayload) -> Seq<SpecValue> {
    seq![
        SpecValue::Bytes(payload.msg@),
    ]
}

/// The field values a `WarningStatus` payload stands for.
pub open spec fn warning_status_values(payload: StatusPayload) -> Seq<SpecValue> {
    seq![
        SpecValue::Bytes(payload.msg@),
    ]
}

/// The field values a `ErrorStatus` payload stands for.
pub open spec fn error_status_values(payload: StatusPayload) -> Seq<SpecValue> {
    seq![
        SpecValue::Bytes(payload.msg@),
    ]
}

/// The field values a `TelemetryValueRegistration` payload stands for.
pub open spec fn telemetry_value_registration_values(payload: FieldRegistrationPayload) -> Seq<SpecValue> {
    seq![
        SpecValue::Uint(payload.field_id as u64),
        SpecValue::Enumerated(payload.field_type.spec_byte()),
        SpecValue::Bytes(payload.field_name@),
    ]
}

/// The field values a `ParameterRegistration` payload stands for.
pub open spec fn parameter_registration_values(payload: FieldRegistrationPayload) -> Seq<SpecValue> {
    seq![
        SpecValue::Uint(payload.field_id as u64),
        SpecValue::Enumerated(payload.field_type.spec_byte()),
        SpecValue::Bytes(payload.field_name@),
    ]
}

/// The field values a `TelemetryGroupDefinition` payload stands for.
pub open spec fn telemetry_group_definition_values(payload: TelemetryGroupDefinitionPayload) -> Seq<SpecValue> {
    seq![
        SpecValue::Uint(payload.group_id as u64),
        SpecValue::Bytes(payload.field_ids@),
    ]
}

/// The field values a `TelemetryGroupUpdate` payload stands for.
pub open spec fn telemetry_group_update_values(payload: TelemetryGroupUpdatePayload) -> Seq<SpecValue> {
    seq![
        SpecValue::Uint(payload.group_id as u64),
        SpecValue::Bytes(payload.values@),
    ]
}

/// The field values a `HeartbeatReq` payload stands for.
pub open spec fn heartbeat_req_values(payload: HeartbeatPayload) -> Seq<SpecValue> {
    seq![
        SpecValue::Uint(payload.counter as u64),
    ]
}

/// The field values a `HeartbeatRes` payload stands for.
pub open spec fn heartbeat_res_values(payload: HeartbeatPayload) -> Seq<SpecValue> {
    seq![
        SpecValue::Uint(payload.counter as u64),
    ]
}

/// The field values a `ParameterSetReq` payload stands for.
pub open spec fn parameter_set_req_values(payload: ParameterSetReqPayload) -> Seq<SpecValue> {
    seq![
        SpecValue::Uint(payload.parameter_id as u64),
        SpecValue::Bytes(payload.value@),
    ]
}

/// The field values a `ParameterSetConfirmation` payload stands for.
pub open spec fn parameter_set_confirmation_values(payload: ParameterSetConfirmationPayload) -> Seq<SpecValue> {
    seq![
        SpecValue::Uint(payload.parameter_id as u64),
        SpecValue::Enumerated(payload.status.spec_byte()),
        SpecValue::Bytes(payload.value@),
    ]
}

/// The field values a `ParameterSetLockReq` payload stands for.
pub open spec fn parameter_set_lock_req_values(payload: ParameterSetLockPayload) -> Seq<SpecValue> {
    seq![
        SpecValue::Uint(payload.parameter_id as u64),
        SpecValue::Enumerated(payload.parameter_lock.spec_byte()),
    ]
}

/// The field values a `ParameterSetLockConfirmation` payload stands for.
pub open spec fn parameter_set_lock_confirmation_values(payload: ParameterSetLockConfirmationPayload) -> Seq<SpecValue> {
    seq![
        SpecValue::Uint(payload.parameter_id as u64),
        SpecValue::Enumerated(payload.parameter_lock.spec_byte()),
        SpecValue::Enumerated(payload.field_status.spec_byte()),
    ]
}

/// The field values a `FieldGetReq` payload stands for.
pub open spec fn field_get_req_values(payload: FieldGetReqPayload) -> Seq<SpecValue> {
    seq![
        SpecValue::Uint(payload.field_id as u64),
    ]
}

/// The field values a `FieldGetRes` payload stands for.
pub open spec fn field_get_res_values(payload: FieldGetResPayload) -> Seq<SpecValue> {
    seq![
        SpecValue::Uint(payload.field_id as u64),
        SpecValue::Enumerated(payload.field_status.spec_byte()),
        SpecValue::Bytes(payload.value@),
    ]
}

/// The field values a `FieldIDLookupReq` payload stands for.
pub open spec fn field_id_lookup_req_values(payload: FieldIDLookupReqPayload) -> Seq<SpecValue> {
    seq![
        SpecValue::Bytes(payload.field_name@),
    ]
}

/// The field values a `FieldIDLookupRes` payload stands for.
pub open spec fn field_id_lookup_res_values(payload: FieldIDLookupResPayload) -> Seq<SpecValue> {
    seq![
        SpecValue::Uint(payload.field_id as u64),
        SpecValue::Enumerated(payload.field_status.spec_byte()),
        SpecValue::Enumerated(payload.field_type.spec_byte()),
    ]
}

/// The generic instance a message stands for: its discriminant and its
/// field values in declaration order.
pub open spec fn spec_instance_of(m: CanMessage) -> SpecInstance {
    match m {
        CanMessage::NodeInfoReq => SpecInstance { discriminant: 0, fields: Seq::empty() },
        CanMessage::NodeInfoAnnouncement { payload } => SpecInstance { discriminant: 1, fields: node_info_announcement_values(payload) },
        CanMessage::InfoStatus { payload } => SpecInstance { discriminant: 10, fields: info_status_values(payload) },
        CanMessage::WarningStatus { payload } => SpecInstance { discriminant: 11, fields: warning_status_values(payload) },
        CanMessage::ErrorStatus { payload } => SpecInstance { discriminant: 12, fields: error_status_values(payload) },
        CanMessage::TelemetryValueRegistration { payload } => SpecInstance { discriminant: 20, fields: telemetry_value_registration_values(payload) },
        CanMessage::ParameterRegistration { payload } => SpecInstance { discriminant: 21, fields: parameter_registration_values(payload) },
        CanMessage::TelemetryGroupDefinition { payload } => SpecInstance { discriminant: 30, fields: telemetry_group_definition_values(payload) },
        CanMessage::TelemetryGroupUpdate { payload } => SpecInstance { discriminant: 31, fields: telemetry_group_update_values(payload) },
        CanMessage::HeartbeatReq { payload } => SpecInstance { discriminant: 40, fields: heartbeat_req_values(payload) },
        CanMessage::HeartbeatRes { payload } => SpecInstance { discriminant: 41, fields: heartbeat_res_values(payload) },
        CanMessage::ParameterSetReq { payload } => SpecInstance { discriminant: 50, fields: parameter_set_req_values(payload) },
        CanMessage::ParameterSetConfirmation { payload } => SpecInstance { discriminant: 51, fields: parameter_set_confirmation_values(payload) },
        CanMessage::ParameterSetLockReq { payload } => SpecInstance { discriminant: 52, fields: parameter_set_lock_req_values(payload) },
        CanMessage::ParameterSetLockConfirmation { payload } => SpecInstance { discriminant: 53, fields: parameter_set_lock_confirmation_values(payload) },
        CanMessage::FieldGetReq { payload } => SpecInstance { discriminant: 60, fields: field_get_req_values(payload) },
        CanMessage::FieldGetRes { payload } => SpecInstance { discriminant: 61, fields: field_get_res_values(payload) },
        CanMessage::FieldIDLookupReq { payload } => SpecInstance { discriminant: 62, fields: field_id_lookup_req_values(payload) },
        CanMessage::FieldIDLookupRes { payload } => SpecInstance { discriminant: 63, fields: field_id_lookup_res_values(payload) },
    }
}

/// Every message's instance names a catalog variant and carries exactly
/// the fields that variant declares.
#[verifier::rlimit(100)]
pub proof fn lemma_instance_of_conforms(m: CanMessage)
    ensures
        spec_find_variant(spec_catalog().variants, spec_instance_of(m).discriminant) is Some,
        instance_conforms(
            spec_instance_of(m),
            spec_find_variant(spec_catalog().variants, spec_instance_of(m).discriminant)->Some_0,
        ),
{
    lemma_catalog_wf();
    reveal(spec_catalog);
    let vs = spec_catalog().variants;
    let inst = spec_instance_of(m);
    proof_pow_facts();
    match m {
        CanMessage::NodeInfoReq => {
            assert(vs[0] == catalog_node_info_req());
            lemma_find_variant_at(spec_catalog(), 0);
            assert(instance_conforms(inst, vs[0]));
        },
        CanMessage::NodeInfoAnnouncement { payload: _ } => {
            assert(vs[1] == catalog_node_info_announcement());
            lemma_find_variant_at(spec_catalog(), 1);
            assert(instance_conforms(inst, vs[1]));
        },
        CanMessage::InfoStatus { payload: _ } => {
            assert(vs[2] == catalog_info_status());
            lemma_find_variant_at(spec_catalog(), 2);
            assert(instance_conforms(inst, vs[2]));
        },
        CanMessage::WarningStatus { payload: _ } => {
            assert(vs[3] == catalog_warning_status());
            lemma_find_variant_at(spec_catalog(), 3);
            assert(instance_conforms(inst, vs[3]));
        },
        CanMessage::ErrorStatus { payload: _ } => {
            assert(vs[4] == catalog_error_status());
            lemma_find_variant_at(spec_catalog(), 4);
            assert(instance_conforms(inst, vs[4]));
        },
        CanMessage::TelemetryValueRegistration { payload: _ } => {
            assert(vs[5] == catalog_telemetry_value_registration());
            lemma_find_variant_at(spec_catalog(), 5);
            assert(instance_conforms(inst, vs[5]));
        },
        CanMessage::ParameterRegistration { payload: _ } => {
            assert(vs[6] == catalog_parameter_registration());
            lemma_find_variant_at(spec_catalog(), 6);
            assert(instance_conforms(inst, vs[6]));
        },
        CanMessage::TelemetryGroupDefinition { payload: _ } => {
            assert(vs[7] == catalog_telemetry_group_definition());
            lemma_find_variant_at(spec_catalog(), 7);
            assert(instance_conforms(inst, vs[7]));
        },
        CanMessage::TelemetryGroupUpdate { payload: _ } => {
            assert(vs[8] == catalog_telemetry_group_update());
            lemma_find_variant_at(spec_catalog(), 8);
            assert(instance_conforms(inst, vs[8]));
        },
        CanMessage::HeartbeatReq { payload: _ } => {
            assert(vs[9] == catalog_heartbeat_req());
            lemma_find_variant_at(spec_catalog(), 9);
            assert(instance_conforms(inst, vs[9]));
        },
        CanMessage::HeartbeatRes { payload: _ } => {
            assert(vs[10] == catalog_heartbeat_res());
            lemma_find_variant_at(spec_catalog(), 10);
            assert(instance_conforms(inst, vs[10]));
        },
        CanMessage::ParameterSetReq { payload: _ } => {
            assert(vs[11] == catalog_parameter_set_req());
            lemma_find_variant_at(spec_catalog(), 11);
            assert(instance_conforms(inst, vs[11]));
        },
        CanMessage::ParameterSetConfirmation { payload: _ } => {
            assert(vs[12] == catalog_parameter_set_confirmation());
            lemma_find_variant_at(spec_catalog(), 12);
            assert(instance_conforms(inst, vs[12]));
        },
        CanMessage::ParameterSetLockReq { payload: _ } => {
            assert(vs[13] == catalog_parameter_set_lock_req());
            lemma_find_variant_at(spec_catalog(), 13);
            assert(instance_conforms(inst, vs[13]));
        },
        CanMessage::ParameterSetLockConfirmation { payload: _ } => {
            assert(vs[14] == catalog_parameter_set_lock_confirmation());
            lemma_find_variant_at(spec_catalog(), 14);
            assert(instance_conforms(inst, vs[14]));
        },
        CanMessage::FieldGetReq { payload: _ } => {
            assert(vs[15] == catalog_field_get_req());
            lemma_find_variant_at(spec_catalog(), 15);
            assert(instance_conforms(inst, vs[15]));
        },
        CanMessage::FieldGetRes { payload: _ } => {
            assert(vs[16] == catalog_field_get_res());
            lemma_find_variant_at(spec_catalog(), 16);
            assert(instance_conforms(inst, vs[16]));
        },
        CanMessage::FieldIDLookupReq { payload: _ } => {
            assert(vs[17] == catalog_field_id_lookup_req());
            lemma_find_variant_at(spec_catalog(), 17);
            assert(instance_conforms(inst, vs[17]));
        },
        CanMessage::FieldIDLookupRes { payload: _ } => {
            assert(vs[18] == catalog_field_id_lookup_res());
            lemma_find_variant_at(spec_catalog(), 18);
            assert(instance_conforms(inst, vs[18]));
        },
    }
}

/// Concrete powers of 256 that the field-width arguments need.
proof fn proof_pow_facts()
    ensures
        pow256(1) == 0x100,
        pow256(4) == 0x100000000,
        pow256(8) == 0x10000000000000000,
{
    reveal_with_fuel(pow256, 9);
}


/// Copies a byte slice of the right length into a fixed-size array.
pub(crate) fn to_array<const N: usize>(v: &[u8]) -> (r: [u8; N])
    requires
        v@.len() == N,
    ensures
        r@ == v@,
{
    let mut r = array_fill_for_copy_types::<u8, N>(0u8);
    let mut i: usize = 0;
    while i < N
        invariant
            i <= N,
            v@.len() == N,
            forall|k: int| 0 <= k < i ==> r@[k] == v@[k],
        decreases N - i,
    {
        r[i] = *slice_index_get(v, i);
        i = i + 1;
    }
    assert(r@ =~= v@);
    r
}

/// The integer in a `Uint` field value.
fn take_uint(fv: &FieldValue) -> (r: u64)
    requires
        fv@ is Uint,
    ensures
        fv@ == SpecValue::Uint(r),
{
    match fv {
        FieldValue::Uint(x) => *x,
        _ => unreached(),
    }
}

/// The bytes in a `Bytes` field value, as a fixed-size array.
fn take_bytes<const N: usize>(fv: &FieldValue) -> (r: [u8; N])
    requires
        (fv@ matches SpecValue::Bytes(b) && b.len() == N),
    ensures
        fv@ == SpecValue::Bytes(r@),
{
    match fv {
        FieldValue::Bytes(b) => to_array(b.as_slice()),
        _ => unreached(),
    }
}

/// The case byte in an `Enumerated` field value.
fn take_enum_byte(fv: &FieldValue) -> (r: u8)
    requires
        fv@ is Enumerated,
    ensures
        fv@ == SpecValue::Enumerated(r),
{
    match fv {
        FieldValue::Enumerated(e) => *e,
        _ => unreached(),
    }
}

impl CanMessage {
    /// The generic instance this message stands for, ready for the codec.
    pub fn to_instance(&self) -> (r: VariantInstance)
        ensures
            r@ == spec_instance_of(*self),
    {
        match self {
            CanMessage::NodeInfoReq => {
                let fields: Vec<FieldValue> = Vec::new();
                let r = VariantInstance { discriminant: 0, fields };
                assert(r@.fields =~= Seq::<SpecValue>::empty());
                assert(r@ =~= spec_instance_of(*self));
                r
            },
            CanMessage::NodeInfoAnnouncement { payload } => {
                let mut fields: Vec<FieldValue> = Vec::new();
                fields.push(FieldValue::Uint(payload.tel_count as u64));
                fields.push(FieldValue::Uint(payload.par_count as u64));
                fields.push(FieldValue::Uint(payload.firmware_hash as u64));
                fields.push(FieldValue::Uint(payload.liquid_hash as u64));
                fields.push(FieldValue::Bytes(slice_to_vec(payload.device_name.as_slice())));
                let r = VariantInstance { discriminant: 1, fields };
                assert(r@.fields =~= node_info_announcement_values(*payload));
                assert(r@ =~= spec_instance_of(*self));
                r
            },
            CanMessage::InfoStatus { payload } => {
                let mut fields: Vec<FieldValue> = Vec::new();
                fields.push(FieldValue::Bytes(slice_to_vec(payload.msg.as_slice())));
                let r = VariantInstance { discriminant: 10, fields };
                assert(r@.fields =~= info_status_values(*payload));
                assert(r@ =~= spec_instance_of(*self));
                r
            },
            CanMessage::WarningStatus { payload } => {
                let mut fields: Vec<FieldValue> = Vec::new();
                fields.push(FieldValue::Bytes(slice_to_vec(payload.msg.as_slice())));
                let r = VariantInstance { discriminant: 11, fields };
                assert(r@.fields =~= warning_status_values(*payload));
                assert(r@ =~= spec_instance_of(*self));
                r
            },
            CanMessage::ErrorStatus { payload } => {
                let mut fields: Vec<FieldValue> = Vec::new();
                fields.push(FieldValue::Bytes(slice_to_vec(payload.msg.as_slice())));
                let r = VariantInstance { discriminant: 12, fields };
                assert(r@.fields =~= error_status_values(*payload));
                assert(r@ =~= spec_instance_of(*self));
                r
            },
            CanMessage::TelemetryValueRegistration { payload } => {
                let mut fields: Vec<FieldValue> = Vec::new();
                fields.push(FieldValue::Uint(payload.field_id as u64));
                fields.push(FieldValue::Enumerated(payload.field_type.to_byte()));
                fields.push(FieldValue::Bytes(slice_to_vec(payload.field_name.as_slice())));
                let r = VariantInstance { discriminant: 20, fields };
                assert(r@.fields =~= telemetry_value_registration_values(*payload));
                assert(r@ =~= spec_instance_of(*self));
                r
            },
            CanMessage::ParameterRegistration { payload } => {
                let mut fields: Vec<FieldValue> = Vec::new();
                fields.push(FieldValue::Uint(payload.field_id as u64));
                fields.push(FieldValue::Enumerated(payload.field_type.to_byte()));
                fields.push(FieldValue::Bytes(slice_to_vec(payload.field_name.as_slice())));
                let r = VariantInstance { discriminant: 21, fields };
                assert(r@.fields =~= parameter_registration_values(*payload));
                assert(r@ =~= spec_instance_of(*self));
                r
            },
            CanMessage::TelemetryGroupDefinition { payload } => {
                let mut fields: Vec<FieldValue> = Vec::new();
                fields.push(FieldValue::Uint(payload.group_id as u64));
                fields.push(FieldValue::Bytes(slice_to_vec(payload.field_ids.as_slice())));
                let r = VariantInstance { discriminant: 30, fields };
                assert(r@.fields =~= telemetry_group_definition_values(*payload));
                assert(r@ =~= spec_instance_of(*self));
                r
            },
            CanMessage::TelemetryGroupUpdate { payload } => {
                let mut fields: Vec<FieldValue> = Vec::new();
                fields.push(FieldValue::Uint(payload.group_id as u64));
                fields.push(FieldValue::Bytes(slice_to_vec(payload.values.as_slice())));
                let r = VariantInstance { discriminant: 31, fields };
                assert(r@.fields =~= telemetry_group_update_values(*payload));
                assert(r@ =~= spec_instance_of(*self));
                r
            },
            CanMessage::HeartbeatReq { payload } => {
                let mut fields: Vec<FieldValue> = Vec::new();
                fields.push(FieldValue::Uint(payload.counter as u64));
                let r = VariantInstance { discriminant: 40, fields };
                assert(r@.fields =~= heartbeat_req_values(*payload));
                assert(r@ =~= spec_instance_of(*self));
                r
            },
            CanMessage::HeartbeatRes { payload } => {
                let mut fields: Vec<FieldValue> = Vec::new();
                fields.push(FieldValue::Uint(payload.counter as u64));
                let r = VariantInstance { discriminant: 41, fields };
                assert(r@.fields =~= heartbeat_res_values(*payload));
                assert(r@ =~= spec_instance_of(*self));
                r
            },
            CanMessage::ParameterSetReq { payload } => {
                let mut fields: Vec<FieldValue> = Vec::new();
                fields.push(FieldValue::Uint(payload.parameter_id as u64));
                fields.push(FieldValue::Bytes(slice_to_vec(payload.value.as_slice())));
                let r = VariantInstance { discriminant: 50, fields };
                assert(r@.fields =~= parameter_set_req_values(*payload));
                assert(r@ =~= spec_instance_of(*self));
                r
            },
            CanMessage::ParameterSetConfirmation { payload } => {
                let mut fields: Vec<FieldValue> = Vec::new();
                fields.push(FieldValue::Uint(payload.parameter_id as u64));
                fields.push(FieldValue::Enumerated(payload.status.to_byte()));
                fields.push(FieldValue::Bytes(slice_to_vec(payload.value.as_slice())));
                let r = VariantInstance { discriminant: 51, fields };
                assert(r@.fields =~= parameter_set_confirmation_values(*payload));
                assert(r@ =~= spec_instance_of(*self));
                r
            },
            CanMessage::ParameterSetLockReq { payload } => {
                let mut fields: Vec<FieldValue> = Vec::new();
                fields.push(FieldValue::Uint(payload.parameter_id as u64));
                fields.push(FieldValue::Enumerated(payload.parameter_lock.to_byte()));
                let r = VariantInstance { discriminant: 52, fields };
                assert(r@.fields =~= parameter_set_lock_req_values(*payload));
                assert(r@ =~= spec_instance_of(*self));
                r
            },
            CanMessage::ParameterSetLockConfirmation { payload } => {
                let mut fields: Vec<FieldValue> = Vec::new();
                fields.push(FieldValue::Uint(payload.parameter_id as u64));
                fields.push(FieldValue::Enumerated(payload.parameter_lock.to_byte()));
                fields.push(FieldValue::Enumerated(payload.field_status.to_byte()));
                let r = VariantInstance { discriminant: 53, fields };
                assert(r@.fields =~= parameter_set_lock_confirmation_values(*payload));
                assert(r@ =~= spec_instance_of(*self));
                r
            },
            CanMessage::FieldGetReq { payload } => {
                let mut fields: Vec<FieldValue> = Vec::new();
                fields.push(FieldValue::Uint(payload.field_id as u64));
                let r = VariantInstance { discriminant: 60, fields };
                assert(r@.fields =~= field_get_req_values(*payload));
                assert(r@ =~= spec_instance_of(*self));
                r
            },
            CanMessage::FieldGetRes { payload } => {
                let mut fields: Vec<FieldValue> = Vec::new();
                fields.push(FieldValue::Uint(payload.field_id as u64));
                fields.push(FieldValue::Enumerated(payload.field_status.to_byte()));
                fields.push(FieldValue::Bytes(slice_to_vec(payload.value.as_slice())));
                let r = VariantInstance { discriminant: 61, fields };
                assert(r@.fields =~= field_get_res_values(*payload));
                assert(r@ =~= spec_instance_of(*self));
                r
            },
            CanMessage::FieldIDLookupReq { payload } => {
                let mut fields: Vec<FieldValue> = Vec::new();
                fields.push(FieldValue::Bytes(slice_to_vec(payload.field_name.as_slice())));
                let r = VariantInstance { discriminant: 62, fields };
                assert(r@.fields =~= field_id_lookup_req_values(*payload));
                assert(r@ =~= spec_instance_of(*self));
                r
            },
            CanMessage::FieldIDLookupRes { payload } => {
                let mut fields: Vec<FieldValue> = Vec::new();
                fields.push(FieldValue::Uint(payload.field_id as u64));
                fields.push(FieldValue::Enumerated(payload.field_status.to_byte()));
                fields.push(FieldValue::Enumerated(payload.field_type.to_byte()));
                let r = VariantInstance { discriminant: 63, fields };
                assert(r@.fields =~= field_id_lookup_res_values(*payload));
                assert(r@ =~= spec_instance_of(*self));
                r
            },
        }
    }
}

/// Rebuilds a `NodeInfoReq` message from its conforming instance.
fn from_node_info_req(inst: &VariantInstance) -> (r: CanMessage)
    requires
        instance_conforms(inst@, catalog_node_info_req()),
    ensures
        spec_instance_of(r) == inst@,
{
    let m = CanMessage::NodeInfoReq;
    assert(inst@.fields =~= Seq::<SpecValue>::empty());
    assert(spec_instance_of(m) =~= inst@);
    m
}

/// Rebuilds a `NodeInfoAnnouncement` message from its conforming instance.
fn from_node_info_announcement(inst: &VariantInstance) -> (r: CanMessage)
    requires
        instance_conforms(inst@, catalog_node_info_announcement()),
    ensures
        spec_instance_of(r) == inst@,
{
    proof {
        proof_pow_facts();
        assert(value_fits(inst@.fields[0], node_info_announcement_layout()[0].kind));
        assert(value_fits(inst@.fields[1], node_info_announcement_layout()[1].kind));
        assert(value_fits(inst@.fields[2], node_info_announcement_layout()[2].kind));
        assert(value_fits(inst@.fields[3], node_info_announcement_layout()[3].kind));
        assert(value_fits(inst@.fields[4], node_info_announcement_layout()[4].kind));
    }
    let x0 = take_uint(&inst.fields[0]);
    let x1 = take_uint(&inst.fields[1]);
    let x2 = take_uint(&inst.fields[2]);
    let x3 = take_uint(&inst.fields[3]);
    let a4 = take_bytes(&inst.fields[4]);
    let payload = NodeInfoResPayload { tel_count: x0 as u8, par_count: x1 as u8, firmware_hash: x2 as u32, liquid_hash: x3 as u32, device_name: a4 };
    let m = CanMessage::NodeInfoAnnouncement { payload };
    assert(spec_instance_of(m).fields =~= inst@.fields);
    assert(spec_instance_of(m) =~= inst@);
    m
}

/// Rebuilds a `InfoStatus` message from its conforming instance.
fn from_info_status(inst: &VariantInstance) -> (r: CanMessage)
    requires
        instance_conforms(inst@, catalog_info_status()),
    ensures
        spec_instance_of(r) == inst@,
{
    proof {
        proof_pow_facts();
        assert(value_fits(inst@.fields[0], info_status_layout()[0].kind));
    }
    let a0 = take_bytes(&inst.fields[0]);
    let payload = StatusPayload { msg: a0 };
    let m = CanMessage::InfoStatus { payload };
    assert(spec_instance_of(m).fields =~= inst@.fields);
    assert(spec_instance_of(m) =~= inst@);
    m
}

/// Rebuilds a `WarningStatus` message from its conforming instance.
fn from_warning_status(inst: &VariantInstance) -> (r: CanMessage)
    requires
        instance_conforms(inst@, catalog_warning_status()),
    ensures
        spec_instance_of(r) == inst@,
{
    proof {
        proof_pow_facts();
        assert(value_fits(inst@.fields[0], warning_status_layout()[0].kind));
    }
    let a0 = take_bytes(&inst.fields[0]);
    let payload = StatusPayload { msg: a0 };
    let m = CanMessage::WarningStatus { payload };
    assert(spec_instance_of(m).fields =~= inst@.fields);
    assert(spec_instance_of(m) =~= inst@);
    m
}

/// Rebuilds a `ErrorStatus` message from its conforming instance.
fn from_error_status(inst: &VariantInstance) -> (r: CanMessage)
    requires
        instance_conforms(inst@, catalog_error_status()),
    ensures
        spec_instance_of(r) == inst@,
{
    proof {
        proof_pow_facts();
        assert(value_fits(inst@.fields[0], error_status_layout()[0].kind));
    }
    let a0 = take_bytes(&inst.fields[0]);
    let payload = StatusPayload { msg: a0 };
    let m = CanMessage::ErrorStatus { payload };
    assert(spec_instance_of(m).fields =~= inst@.fields);
    assert(spec_instance_of(m) =~= inst@);
    m
}

/// Rebuilds a `TelemetryValueRegistration` message from its conforming instance.
fn from_telemetry_value_registration(inst: &VariantInstance) -> (r: CanMessage)
    requires
        instance_conforms(inst@, catalog_telemetry_value_registration()),
    ensures
        spec_instance_of(r) == inst@,
{
    proof {
        proof_pow_facts();
        assert(value_fits(inst@.fields[0], telemetry_value_registration_layout()[0].kind));
        assert(value_fits(inst@.fields[1], telemetry_value_registration_layout()[1].kind));
        assert(value_fits(inst@.fields[2], telemetry_value_registration_layout()[2].kind));
    }
    let x0 = take_uint(&inst.fields[0]);
    let e1 = take_enum_byte(&inst.fields[1]);
    let v1 = match CanDataType::from_byte(e1) {
        Some(v) => v,
        None => unreached(),
    };
    let a2 = take_bytes(&inst.fields[2]);
    let payload = FieldRegistrationPayload { field_id: x0 as u8, field_type: v1, field_name: a2 };
    let m = CanMessage::TelemetryValueRegistration { payload };
    assert(spec_instance_of(m).fields =~= inst@.fields);
    assert(spec_instance_of(m) =~= inst@);
    m
}

/// Rebuilds a `ParameterRegistration` message from its conforming instance.
fn from_parameter_registration(inst: &VariantInstance) -> (r: CanMessage)
    requires
        instance_conforms(inst@, catalog_parameter_registration()),
    ensures
        spec_instance_of(r) == inst@,
{
    proof {
        proof_pow_facts();
        assert(value_fits(inst@.fields[0], parameter_registration_layout()[0].kind));
        assert(value_fits(inst@.fields[1], parameter_registration_layout()[1].kind));
        assert(value_fits(inst@.fields[2], parameter_registration_layout()[2].kind));
    }
    let x0 = take_uint(&inst.fields[0]);
    let e1 = take_enum_byte(&inst.fields[1]);
    let v1 = match CanDataType::from_byte(e1) {
        Some(v) => v,
        None => unreached(),
    };
    let a2 = take_bytes(&inst.fields[2]);
    let payload = FieldRegistrationPayload { field_id: x0 as u8, field_type: v1, field_name: a2 };
    let m = CanMessage::ParameterRegistration { payload };
    assert(spec_instance_of(m).fields =~= inst@.fields);
    assert(spec_instance_of(m) =~= inst@);
    m
}

/// Rebuilds a `TelemetryGroupDefinition` message from its conforming instance.
fn from_telemetry_group_definition(inst: &VariantInstance) -> (r: CanMessage)
    requires
        instance_conforms(inst@, catalog_telemetry_group_definition()),
    ensures
        spec_instance_of(r) == inst@,
{
    proof {
        proof_pow_facts();
        assert(value_fits(inst@.fields[0], telemetry_group_definition_layout()[0].kind));
        assert(value_fits(inst@.fields[1], telemetry_group_definition_layout()[1].kind));
    }
    let x0 = take_uint(&inst.fields[0]);
    let a1 = take_bytes(&inst.fields[1]);
    let payload = TelemetryGroupDefinitionPayload { group_id: x0 as u8, field_ids: a1 };
    let m = CanMessage::TelemetryGroupDefinition { payload };
    assert(spec_instance_of(m).fields =~= inst@.fields);
    assert(spec_instance_of(m) =~= inst@);
    m
}

/// Rebuilds a `TelemetryGroupUpdate` message from its conforming instance.
fn from_telemetry_group_update(inst: &VariantInstance) -> (r: CanMessage)
    requires
        instance_conforms(inst@, catalog_telemetry_group_update()),
    ensures
        spec_instance_of(r) == inst@,
{
    proof {
        proof_pow_facts();
        assert(value_fits(inst@.fields[0], telemetry_group_update_layout()[0].kind));
        assert(value_fits(inst@.fields[1], telemetry_group_update_layout()[1].kind));
    }
    let x0 = take_uint(&inst.fields[0]);
    let a1 = take_bytes(&inst.fields[1]);
    let payload = TelemetryGroupUpdatePayload { group_id: x0 as u8, values: a1 };
    let m = CanMessage::TelemetryGroupUpdate { payload };
    assert(spec_instance_of(m).fields =~= inst@.fields);
    assert(spec_instance_of(m) =~= inst@);
    m
}

/// Rebuilds a `HeartbeatReq` message from its conforming instance.
fn from_heartbeat_req(inst: &VariantInstance) -> (r: CanMessage)
    requires
        instance_conforms(inst@, catalog_heartbeat_req()),
    ensures
        spec_instance_of(r) == inst@,
{
    proof {
        proof_pow_facts();
        assert(value_fits(inst@.fields[0], heartbeat_req_layout()[0].kind));
    }
    let x0 = take_uint(&inst.fields[0]);
    let payload = HeartbeatPayload { counter: x0 as u32 };
    let m = CanMessage::HeartbeatReq { payload };
    assert(spec_instance_of(m).fields =~= inst@.fields);
    assert(spec_instance_of(m) =~= inst@);
    m
}

/// Rebuilds a `HeartbeatRes` message from its conforming instance.
fn from_heartbeat_res(inst: &VariantInstance) -> (r: CanMessage)
    requires
        instance_conforms(inst@, catalog_heartbeat_res()),
    ensures
        spec_instance_of(r) == inst@,
{
    proof {
        proof_pow_facts();
        assert(value_fits(inst@.fields[0], heartbeat_res_layout()[0].kind));
    }
    let x0 = take_uint(&inst.fields[0]);
    let payload = HeartbeatPayload { counter: x0 as u32 };
    let m = CanMessage::HeartbeatRes { payload };
    assert(spec_instance_of(m).fields =~= inst@.fields);
    assert(spec_instance_of(m) =~= inst@);
    m
}

/// Rebuilds a `ParameterSetReq` message from its conforming instance.
fn from_parameter_set_req(inst: &VariantInstance) -> (r: CanMessage)
    requires
        instance_conforms(inst@, catalog_parameter_set_req()),
    ensures
        spec_instance_of(r) == inst@,
{
    proof {
        proof_pow_facts();
        assert(value_fits(inst@.fields[0], parameter_set_req_layout()[0].kind));
        assert(value_fits(inst@.fields[1], parameter_set_req_layout()[1].kind));
    }
    let x0 = take_uint(&inst.fields[0]);
    let a1 = take_bytes(&inst.fields[1]);
    let payload = ParameterSetReqPayload { parameter_id: x0 as u8, value: a1 };
    let m = CanMessage::ParameterSetReq { payload };
    assert(spec_instance_of(m).fields =~= inst@.fields);
    assert(spec_instance_of(m) =~= inst@);
    m
}

/// Rebuilds a `ParameterSetConfirmation` message from its conforming instance.
fn from_parameter_set_confirmation(inst: &VariantInstance) -> (r: CanMessage)
    requires
        instance_conforms(inst@, catalog_parameter_set_confirmation()),
    ensures
        spec_instance_of(r) == inst@,
{
    proof {
        proof_pow_facts();
        assert(value_fits(inst@.fields[0], parameter_set_confirmation_layout()[0].kind));
        assert(value_fits(inst@.fields[1], parameter_set_confirmation_layout()[1].kind));
        assert(value_fits(inst@.fields[2], parameter_set_confirmation_layout()[2].kind));
    }
    let x0 = take_uint(&inst.fields[0]);
    let e1 = take_enum_byte(&inst.fields[1]);
    let v1 = match ParameterSetStatus::from_byte(e1) {
        Some(v) => v,
        None => unreached(),
    };
    let a2 = take_bytes(&inst.fields[2]);
    let payload = ParameterSetConfirmationPayload { parameter_id: x0 as u8, status: v1, value: a2 };
    let m = CanMessage::ParameterSetConfirmation { payload };
    assert(spec_instance_of(m).fields =~= inst@.fields);
    assert(spec_instance_of(m) =~= inst@);
    m
}

/// Rebuilds a `ParameterSetLockReq` message from its conforming instance.
fn from_parameter_set_lock_req(inst: &VariantInstance) -> (r: CanMessage)
    requires
        instance_conforms(inst@, catalog_parameter_set_lock_req()),
    ensures
        spec_instance_of(r) == inst@,
{
    proof {
        proof_pow_facts();
        assert(value_fits(inst@.fields[0], parameter_set_lock_req_layout()[0].kind));
        assert(value_fits(inst@.fields[1], parameter_set_lock_req_layout()[1].kind));
    }
    let x0 = take_uint(&inst.fields[0]);
    let e1 = take_enum_byte(&inst.fields[1]);
    let v1 = match ParameterLockStatus::from_byte(e1) {
        Some(v) => v,
        None => unreached(),
    };
    let payload = ParameterSetLockPayload { parameter_id: x0 as u8, parameter_lock: v1 };
    let m = CanMessage::ParameterSetLockReq { payload };
    assert(spec_instance_of(m).fields =~= inst@.fields);
    assert(spec_instance_of(m) =~= inst@);
    m
}

/// Rebuilds a `ParameterSetLockConfirmation` message from its conforming instance.
fn from_parameter_set_lock_confirmation(inst: &VariantInstance) -> (r: CanMessage)
    requires
        instance_conforms(inst@, catalog_parameter_set_lock_confirmation()),
    ensures
        spec_instance_of(r) == inst@,
{
    proof {
        proof_pow_facts();
        assert(value_fits(inst@.fields[0], parameter_set_lock_confirmation_layout()[0].kind));
        assert(value_fits(inst@.fields[1], parameter_set_lock_confirmation_layout()[1].kind));
        assert(value_fits(inst@.fields[2], parameter_set_lock_confirmation_layout()[2].kind));
    }
    let x0 = take_uint(&inst.fields[0]);
    let e1 = take_enum_byte(&inst.fields[1]);
    let v1 = match ParameterLockStatus::from_byte(e1) {
        Some(v) => v,
        None => unreached(),
    };
    let e2 = take_enum_byte(&inst.fields[2]);
    let v2 = match FieldStatus::from_byte(e2) {
        Some(v) => v,
        None => unreached(),
    };
    let payload = ParameterSetLockConfirmationPayload { parameter_id: x0 as u8, parameter_lock: v1, field_status: v2 };
    let m = CanMessage::ParameterSetLockConfirmation { payload };
    assert(spec_instance_of(m).fields =~= inst@.fields);
    assert(spec_instance_of(m) =~= inst@);
    m
}

/// Rebuilds a `FieldGetReq` message from its conforming instance.
fn from_field_get_req(inst: &VariantInstance) -> (r: CanMessage)
    requires
        instance_conforms(inst@, catalog_field_get_req()),
    ensures
        spec_instance_of(r) == inst@,
{
    proof {
        proof_pow_facts();
        assert(value_fits(inst@.fields[0], field_get_req_layout()[0].kind));
    }
    let x0 = take_uint(&inst.fields[0]);
    let payload = FieldGetReqPayload { field_id: x0 as u8 };
    let m = CanMessage::FieldGetReq { payload };
    assert(spec_instance_of(m).fields =~= inst@.fields);
    assert(spec_instance_of(m) =~= inst@);
    m
}

/// Rebuilds a `FieldGetRes` message from its conforming instance.
fn from_field_get_res(inst: &VariantInstance) -> (r: CanMessage)
    requires
        instance_conforms(inst@, catalog_field_get_res()),
    ensures
        spec_instance_of(r) == inst@,
{
    proof {
        proof_pow_facts();
        assert(value_fits(inst@.fields[0], field_get_res_layout()[0].kind));
        assert(value_fits(inst@.fields[1], field_get_res_layout()[1].kind));
        assert(value_fits(inst@.fields[2], field_get_res_layout()[2].kind));
    }
    let x0 = take_uint(&inst.fields[0]);
    let e1 = take_enum_byte(&inst.fields[1]);
    let v1 = match FieldStatus::from_byte(e1) {
        Some(v) => v,
        None => unreached(),
    };
    let a2 = take_bytes(&inst.fields[2]);
    let payload = FieldGetResPayload { field_id: x0 as u8, field_status: v1, value: a2 };
    let m = CanMessage::FieldGetRes { payload };
    assert(spec_instance_of(m).fields =~= inst@.fields);
    assert(spec_instance_of(m) =~= inst@);
    m
}

/// Rebuilds a `FieldIDLookupReq` message from its conforming instance.
fn from_field_id_lookup_req(inst: &VariantInstance) -> (r: CanMessage)
    requires
        instance_conforms(inst@, catalog_field_id_lookup_req()),
    ensures
        spec_instance_of(r) == inst@,
{
    proof {
        proof_pow_facts();
        assert(value_fits(inst@.fields[0], field_id_lookup_req_layout()[0].kind));
    }
    let a0 = take_bytes(&inst.fields[0]);
    let payload = FieldIDLookupReqPayload { field_name: a0 };
    let m = CanMessage::FieldIDLookupReq { payload };
    assert(spec_instance_of(m).fields =~= inst@.fields);
    assert(spec_instance_of(m) =~= inst@);
    m
}

/// Rebuilds a `FieldIDLookupRes` message from its conforming instance.
fn from_field_id_lookup_res(inst: &VariantInstance) -> (r: CanMessage)
    requires
        instance_conforms(inst@, catalog_field_id_lookup_res()),
    ensures
        spec_instance_of(r) == inst@,
{
    proof {
        proof_pow_facts();
        assert(value_fits(inst@.fields[0], field_id_lookup_res_layout()[0].kind));
        assert(value_fits(inst@.fields[1], field_id_lookup_res_layout()[1].kind));
        assert(value_fits(inst@.fields[2], field_id_lookup_res_layout()[2].kind));
    }
    let x0 = take_uint(&inst.fields[0]);
    let e1 = take_enum_byte(&inst.fields[1]);
    let v1 = match FieldStatus::from_byte(e1) {
        Some(v) => v,
        None => unreached(),
    };
    let e2 = take_enum_byte(&inst.fields[2]);
    let v2 = match CanDataType::from_byte(e2) {
        Some(v) => v,
        None => unreached(),
    };
    let payload = FieldIDLookupResPayload { field_id: x0 as u8, field_status: v1, field_type: v2 };
    let m = CanMessage::FieldIDLookupRes { payload };
    assert(spec_instance_of(m).fields =~= inst@.fields);
    assert(spec_instance_of(m) =~= inst@);
    m
}

impl CanMessage {
    /// Rebuilds the message a conforming catalog instance stands for: the
    /// right inverse of [`Self::to_instance`].
    pub fn from_instance(inst: &VariantInstance) -> (r: CanMessage)
        requires
            spec_find_variant(spec_catalog().variants, inst@.discriminant) is Some,
            instance_conforms(
                inst@,
                spec_find_variant(spec_catalog().variants, inst@.discriminant)->Some_0,
            ),
        ensures
            spec_instance_of(r) == inst@,
    {
        proof {
            lemma_catalog_wf();
            reveal(spec_catalog);
        }
        let ghost vs = spec_catalog().variants;
        match inst.discriminant {
            0 => {
                proof {
                    lemma_find_variant_at(spec_catalog(), 0);
                    assert(vs[0] == catalog_node_info_req());
                }
                from_node_info_req(inst)
            },
            1 => {
                proof {
                    lemma_find_variant_at(spec_catalog(), 1);
                    assert(vs[1] == catalog_node_info_announcement());
                }
                from_node_info_announcement(inst)
            },
            10 => {
                proof {
                    lemma_find_variant_at(spec_catalog(), 2);
                    assert(vs[2] == catalog_info_status());
                }
                from_info_status(inst)
            },
            11 => {
                proof {
                    lemma_find_variant_at(spec_catalog(), 3);
                    assert(vs[3] == catalog_warning_status());
                }
                from_warning_status(inst)
            },
            12 => {
                proof {
                    lemma_find_variant_at(spec_catalog(), 4);
                    assert(vs[4] == catalog_error_status());
                }
                from_error_status(inst)
            },
            20 => {
                proof {
                    lemma_find_variant_at(spec_catalog(), 5);
                    assert(vs[5] == catalog_telemetry_value_registration());
                }
                from_telemetry_value_registration(inst)
            },
            21 => {
                proof {
                    lemma_find_variant_at(spec_catalog(), 6);
                    assert(vs[6] == catalog_parameter_registration());
                }
                from_parameter_registration(inst)
            },
            30 => {
                proof {
                    lemma_find_variant_at(spec_catalog(), 7);
                    assert(vs[7] == catalog_telemetry_group_definition());
                }
                from_telemetry_group_definition(inst)
            },
            31 => {
                proof {
                    lemma_find_variant_at(spec_catalog(), 8);
                    assert(vs[8] == catalog_telemetry_group_update());
                }
                from_telemetry_group_update(inst)
            },
            40 => {
                proof {
                    lemma_find_variant_at(spec_catalog(), 9);
                    assert(vs[9] == catalog_heartbeat_req());
                }
                from_heartbeat_req(inst)
            },
            41 => {
                proof {
                    lemma_find_variant_at(spec_catalog(), 10);
                    assert(vs[10] == catalog_heartbeat_res());
                }
                from_heartbeat_res(inst)
            },
            50 => {
                proof {
                    lemma_find_variant_at(spec_catalog(), 11);
                    assert(vs[11] == catalog_parameter_set_req());
                }
                from_parameter_set_req(inst)
            },
            51 => {
                proof {
                    lemma_find_variant_at(spec_catalog(), 12);
                    assert(vs[12] == catalog_parameter_set_confirmation());
                }
                from_parameter_set_confirmation(inst)
            },
            52 => {
                proof {
                    lemma_find_variant_at(spec_catalog(), 13);
                    assert(vs[13] == catalog_parameter_set_lock_req());
                }
                from_parameter_set_lock_req(inst)
            },
            53 => {
                proof {
                    lemma_find_variant_at(spec_catalog(), 14);
                    assert(vs[14] == catalog_parameter_set_lock_confirmation());
                }
                from_parameter_set_lock_confirmation(inst)
            },
            60 => {
                proof {
                    lemma_find_variant_at(spec_catalog(), 15);
                    assert(vs[15] == catalog_field_get_req());
                }
                from_field_get_req(inst)
            },
            61 => {
                proof {
                    lemma_find_variant_at(spec_catalog(), 16);
                    assert(vs[16] == catalog_field_get_res());
                }
                from_field_get_res(inst)
            },
            62 => {
                proof {
                    lemma_find_variant_at(spec_catalog(), 17);
                    assert(vs[17] == catalog_field_id_lookup_req());
                }
                from_field_id_lookup_req(inst)
            },
            63 => {
                proof {
                    lemma_find_variant_at(spec_catalog(), 18);
                    assert(vs[18] == catalog_field_id_lookup_res());
                }
                from_field_id_lookup_res(inst)
            },
            _ => {
                proof {
                    crate::schema::lemma_find_variant_properties(vs, inst@.discriminant);
                    let v = spec_find_variant(vs, inst@.discriminant)->Some_0;
                    let i = choose|i: int| 0 <= i < vs.len() && vs[i] == v;
                    if i == 0 {
                        assert(vs[0].discriminant == 0);
                    } else if i == 1 {
                        assert(vs[1].discriminant == 1);
                    } else if i == 2 {
                        assert(vs[2].discriminant == 10);
                    } else if i == 3 {
                        assert(vs[3].discriminant == 11);
                    } else if i == 4 {
                        assert(vs[4].discriminant == 12);
                    } else if i == 5 {
                        assert(vs[5].discriminant == 20);
                    } else if i == 6 {
                        assert(vs[6].discriminant == 21);
                    } else if i == 7 {
                        assert(vs[7].discriminant == 30);
                    } else if i == 8 {
                        assert(vs[8].discriminant == 31);
                    } else if i == 9 {
                        assert(vs[9].discriminant == 40);
                    } else if i == 10 {
                        assert(vs[10].discriminant == 41);
                    } else if i == 11 {
                        assert(vs[11].discriminant == 50);
                    } else if i == 12 {
                        assert(vs[12].discriminant == 51);
                    } else if i == 13 {
                        assert(vs[13].discriminant == 52);
                    } else if i == 14 {
                        assert(vs[14].discriminant == 53);
                    } else if i == 15 {
                        assert(vs[15].discriminant == 60);
                    } else if i == 16 {
                        assert(vs[16].discriminant == 61);
                    } else if i == 17 {
                        assert(vs[17].discriminant == 62);
                    } else if i == 18 {
                        assert(vs[18].discriminant == 63);
                    }
                    assert(false);
                }
                unreached()
            },
        }
    }
}

/// The instance image determines the message: no two distinct messages of
/// the catalog stand for the same instance.
#[verifier::rlimit(100)]
pub proof fn lemma_instance_of_injective(a: CanMessage, b: CanMessage)
    requires
        spec_instance_of(a) == spec_instance_of(b),
    ensures
        a == b,
{
    match a {
        CanMessage::NodeInfoReq => {
            assert(b is NodeInfoReq);
        },
        CanMessage::NodeInfoAnnouncement { payload: pa } => {
            assert(b is NodeInfoAnnouncement);
            match b {
                CanMessage::NodeInfoAnnouncement { payload: pb } => {
                    assert(node_info_announcement_values(pa) == node_info_announcement_values(pb));
                    assert(node_info_announcement_values(pa)[0] == node_info_announcement_values(pb)[0]);
                    assert(node_info_announcement_values(pa)[1] == node_info_announcement_values(pb)[1]);
                    assert(node_info_announcement_values(pa)[2] == node_info_announcement_values(pb)[2]);
                    assert(node_info_announcement_values(pa)[3] == node_info_announcement_values(pb)[3]);
                    assert(node_info_announcement_values(pa)[4] == node_info_announcement_values(pb)[4]);
                    assert(pa.device_name@ == pb.device_name@);
                    assert(pa.device_name =~= pb.device_name);
                    assert(pa == pb);
                },
                _ => {
                    assert(false);
                },
            }
        },
        CanMessage::InfoStatus { payload: pa } => {
            assert(b is InfoStatus);
            match b {
                CanMessage::InfoStatus { payload: pb } => {
                    assert(info_status_values(pa) == info_status_values(pb));
                    assert(info_status_values(pa)[0] == info_status_values(pb)[0]);
                    assert(pa.msg@ == pb.msg@);
                    assert(pa.msg =~= pb.msg);
                    assert(pa == pb);
                },
                _ => {
                    assert(false);
                },
            }
        },
        CanMessage::WarningStatus { payload: pa } => {
            assert(b is WarningStatus);
            match b {
                CanMessage::WarningStatus { payload: pb } => {
                    assert(warning_status_values(pa) == warning_status_values(pb));
                    assert(warning_status_values(pa)[0] == warning_status_values(pb)[0]);
                    assert(pa.msg@ == pb.msg@);
                    assert(pa.msg =~= pb.msg);
                    assert(pa == pb);
                },
                _ => {
                    assert(false);
                },
            }
        },
        CanMessage::ErrorStatus { payload: pa } => {
            assert(b is ErrorStatus);
            match b {
                CanMessage::ErrorStatus { payload: pb } => {
                    assert(error_status_values(pa) == error_status_values(pb));
                    assert(error_status_values(pa)[0] == error_status_values(pb)[0]);
                    assert(pa.msg@ == pb.msg@);
                    assert(pa.msg =~= pb.msg);
                    assert(pa == pb);
                },
                _ => {
                    assert(false);
                },
            }
        },
        CanMessage::TelemetryValueRegistration { payload: pa } => {
            assert(b is TelemetryValueRegistration);
            match b {
                CanMessage::TelemetryValueRegistration { payload: pb } => {
                    assert(telemetry_value_registration_values(pa) == telemetry_value_registration_values(pb));
                    assert(telemetry_value_registration_values(pa)[0] == telemetry_value_registration_values(pb)[0]);
                    assert(telemetry_value_registration_values(pa)[1] == telemetry_value_registration_values(pb)[1]);
                    CanDataType::lemma_byte_injective(pa.field_type, pb.field_type);
                    assert(telemetry_value_registration_values(pa)[2] == telemetry_value_registration_values(pb)[2]);
                    assert(pa.field_name@ == pb.field_name@);
                    assert(pa.field_name =~= pb.field_name);
                    assert(pa == pb);
                },
                _ => {
                    assert(false);
                },
            }
        },
        CanMessage::ParameterRegistration { payload: pa } => {
            assert(b is ParameterRegistration);
            match b {
                CanMessage::ParameterRegistration { payload: pb } => {
                    assert(parameter_registration_values(pa) == parameter_registration_values(pb));
                    assert(parameter_registration_values(pa)[0] == parameter_registration_values(pb)[0]);
                    assert(parameter_registration_values(pa)[1] == parameter_registration_values(pb)[1]);
                    CanDataType::lemma_byte_injective(pa.field_type, pb.field_type);
                    assert(parameter_registration_values(pa)[2] == parameter_registration_values(pb)[2]);
                    assert(pa.field_name@ == pb.field_name@);
                    assert(pa.field_name =~= pb.field_name);
                    assert(pa == pb);
                },
                _ => {
                    assert(false);
                },
            }
        },
        CanMessage::TelemetryGroupDefinition { payload: pa } => {
            assert(b is TelemetryGroupDefinition);
            match b {
                CanMessage::TelemetryGroupDefinition { payload: pb } => {
                    assert(telemetry_group_definition_values(pa) == telemetry_group_definition_values(pb));
                    assert(telemetry_group_definition_values(pa)[0] == telemetry_group_definition_values(pb)[0]);
                    assert(telemetry_group_definition_values(pa)[1] == telemetry_group_definition_values(pb)[1]);
                    assert(pa.field_ids@ == pb.field_ids@);
                    assert(pa.field_ids =~= pb.field_ids);
                    assert(pa == pb);
                },
                _ => {
                    assert(false);
                },
            }
        },
        CanMessage::TelemetryGroupUpdate { payload: pa } => {
            assert(b is TelemetryGroupUpdate);
            match b {
                CanMessage::TelemetryGroupUpdate { payload: pb } => {
                    assert(telemetry_group_update_values(pa) == telemetry_group_update_values(pb));
                    assert(telemetry_group_update_values(pa)[0] == telemetry_group_update_values(pb)[0]);
                    assert(telemetry_group_update_values(pa)[1] == telemetry_group_update_values(pb)[1]);
                    assert(pa.values@ == pb.values@);
                    assert(pa.values =~= pb.values);
                    assert(pa == pb);
                },
                _ => {
                    assert(false);
                },
            }
        },
        CanMessage::HeartbeatReq { payload: pa } => {
            assert(b is HeartbeatReq);
            match b {
                CanMessage::HeartbeatReq { payload: pb } => {
                    assert(heartbeat_req_values(pa) == heartbeat_req_values(pb));
                    assert(heartbeat_req_values(pa)[0] == heartbeat_req_values(pb)[0]);
                    assert(pa == pb);
                },
                _ => {
                    assert(false);
                },
            }
        },
        CanMessage::HeartbeatRes { payload: pa } => {
            assert(b is HeartbeatRes);
            match b {
                CanMessage::HeartbeatRes { payload: pb } => {
                    assert(heartbeat_res_values(pa) == heartbeat_res_values(pb));
                    assert(heartbeat_res_values(pa)[0] == heartbeat_res_values(pb)[0]);
                    assert(pa == pb);
                },
                _ => {
                    assert(false);
                },
            }
        },
        CanMessage::ParameterSetReq { payload: pa } => {
            assert(b is ParameterSetReq);
            match b {
                CanMessage::ParameterSetReq { payload: pb } => {
                    assert(parameter_set_req_values(pa) == parameter_set_req_values(pb));
                    assert(parameter_set_req_values(pa)[0] == parameter_set_req_values(pb)[0]);
                    assert(parameter_set_req_values(pa)[1] == parameter_set_req_values(pb)[1]);
                    assert(pa.value@ == pb.value@);
                    assert(pa.value =~= pb.value);
                    assert(pa == pb);
                },
                _ => {
                    assert(false);
                },
            }
        },
        CanMessage::ParameterSetConfirmation { payload: pa } => {
            assert(b is ParameterSetConfirmation);
            match b {
                CanMessage::ParameterSetConfirmation { payload: pb } => {
                    assert(parameter_set_confirmation_values(pa) == parameter_set_confirmation_values(pb));
                    assert(parameter_set_confirmation_values(pa)[0] == parameter_set_confirmation_values(pb)[0]);
                    assert(parameter_set_confirmation_values(pa)[1] == parameter_set_confirmation_values(pb)[1]);
                    ParameterSetStatus::lemma_byte_injective(pa.status, pb.status);
                    assert(parameter_set_confirmation_values(pa)[2] == parameter_set_confirmation_values(pb)[2]);
                    assert(pa.value@ == pb.value@);
                    assert(pa.value =~= pb.value);
                    assert(pa == pb);
                },
                _ => {
                    assert(false);
                },
            }
        },
        CanMessage::ParameterSetLockReq { payload: pa } => {
            assert(b is ParameterSetLockReq);
            match b {
                CanMessage::ParameterSetLockReq { payload: pb } => {
                    assert(parameter_set_lock_req_values(pa) == parameter_set_lock_req_values(pb));
                    assert(parameter_set_lock_req_values(pa)[0] == parameter_set_lock_req_values(pb)[0]);
                    assert(parameter_set_lock_req_values(pa)[1] == parameter_set_lock_req_values(pb)[1]);
                    ParameterLockStatus::lemma_byte_injective(pa.parameter_lock, pb.parameter_lock);
                    assert(pa == pb);
                },
                _ => {
                    assert(false);
                },
            }
        },
        CanMessage::ParameterSetLockConfirmation { payload: pa } => {
            assert(b is ParameterSetLockConfirmation);
            match b {
                CanMessage::ParameterSetLockConfirmation { payload: pb } => {
                    assert(parameter_set_lock_confirmation_values(pa) == parameter_set_lock_confirmation_values(pb));
                    assert(parameter_set_lock_confirmation_values(pa)[0] == parameter_set_lock_confirmation_values(pb)[0]);
                    assert(parameter_set_lock_confirmation_values(pa)[1] == parameter_set_lock_confirmation_values(pb)[1]);
                    ParameterLockStatus::lemma_byte_injective(pa.parameter_lock, pb.parameter_lock);
                    assert(parameter_set_lock_confirmation_values(pa)[2] == parameter_set_lock_confirmation_values(pb)[2]);
                    FieldStatus::lemma_byte_injective(pa.field_status, pb.field_status);
                    assert(pa == pb);
                },
                _ => {
                    assert(false);
                },
            }
        },
        CanMessage::FieldGetReq { payload: pa } => {
            assert(b is FieldGetReq);
            match b {
                CanMessage::FieldGetReq { payload: pb } => {
                    assert(field_get_req_values(pa) == field_get_req_values(pb));
                    assert(field_get_req_values(pa)[0] == field_get_req_values(pb)[0]);
                    assert(pa == pb);
                },
                _ => {
                    assert(false);
                },
            }
        },
        CanMessage::FieldGetRes { payload: pa } => {
            assert(b is FieldGetRes);
            match b {
                CanMessage::FieldGetRes { payload: pb } => {
                    assert(field_get_res_values(pa) == field_get_res_values(pb));
                    assert(field_get_res_values(pa)[0] == field_get_res_values(pb)[0]);
                    assert(field_get_res_values(pa)[1] == field_get_res_values(pb)[1]);
                    FieldStatus::lemma_byte_injective(pa.field_status, pb.field_status);
                    assert(field_get_res_values(pa)[2] == field_get_res_values(pb)[2]);
                    assert(pa.value@ == pb.value@);
                    assert(pa.value =~= pb.value);
                    assert(pa == pb);
                },
                _ => {
                    assert(false);
                },
            }
        },
        CanMessage::FieldIDLookupReq { payload: pa } => {
            assert(b is FieldIDLookupReq);
            match b {
                CanMessage::FieldIDLookupReq { payload: pb } => {
                    assert(field_id_lookup_req_values(pa) == field_id_lookup_req_values(pb));
                    assert(field_id_lookup_req_values(pa)[0] == field_id_lookup_req_values(pb)[0]);
                    assert(pa.field_name@ == pb.field_name@);
                    assert(pa.field_name =~= pb.field_name);
                    assert(pa == pb);
                },
                _ => {
                    assert(false);
                },
            }
        },
        CanMessage::FieldIDLookupRes { payload: pa } => {
            assert(b is FieldIDLookupRes);
            match b {
                CanMessage::FieldIDLookupRes { payload: pb } => {
                    assert(field_id_lookup_res_values(pa) == field_id_lookup_res_values(pb));
                    assert(field_id_lookup_res_values(pa)[0] == field_id_lookup_res_values(pb)[0]);
                    assert(field_id_lookup_res_values(pa)[1] == field_id_lookup_res_values(pb)[1]);
                    FieldStatus::lemma_byte_injective(pa.field_status, pb.field_status);
                    assert(field_id_lookup_res_values(pa)[2] == field_id_lookup_res_values(pb)[2]);
                    CanDataType::lemma_byte_injective(pa.field_type, pb.field_type);
                    assert(pa == pb);
                },
                _ => {
                    assert(false);
                },
            }
        },
    }
}

} // verus!