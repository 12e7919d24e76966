//! Payload field types of the message catalog: the closed byte-backed
//! enumerations with their validating decodes, and the per-variant payload
//! structs.
//!
//! Each enumeration maps its cases to the byte codes 0, 1, 2, ... in
//! declaration order; `from_byte` rejects every byte outside that range,
//! which is what makes a nested enumeration field a validated field on
//! decode.

use vstd::prelude::*;

verus! {

/// Data types a registered field can carry; byte codes 0 to 7.
#[derive(Clone, Copy, PartialEq, Eq, Debug)]
pub enum CanDataType {
    Float32,
    Int32,
    Int16,
    Int8,
    UInt32,
    UInt16,
    UInt8,
    Boolean,
}

impl CanDataType {
    /// The wire code of this case.
    pub open spec fn spec_byte(self) -> u8 {
        match self {
            CanDataType::Float32 => 0,
            CanDataType::Int32 => 1,
            CanDataType::Int16 => 2,
            CanDataType::Int8 => 3,
            CanDataType::UInt32 => 4,
            CanDataType::UInt16 => 5,
            CanDataType::UInt8 => 6,
            CanDataType::Boolean => 7,
        }
    }

    /// The case a wire byte names, if any.
    pub open spec fn spec_of_byte(b: u8) -> Option<CanDataType> {
        if b == 0 {
            Some(CanDataType::Float32)
        } else if b == 1 {
            Some(CanDataType::Int32)
        } else if b == 2 {
            Some(CanDataType::Int16)
        } else if b == 3 {
            Some(CanDataType::Int8)
        } else if b == 4 {
            Some(CanDataType::UInt32)
        } else if b == 5 {
            Some(CanDataType::UInt16)
        } else if b == 6 {
            Some(CanDataType::UInt8)
        } else if b == 7 {
            Some(CanDataType::Boolean)
        } else {
            None
        }
    }

    /// Encodes this case as its wire byte, always below 8.
    pub fn to_byte(&self) -> (r: u8)
        ensures
            r == self.spec_byte(),
            r < 8,
    {
        match self {
            CanDataType::Float32 => 0,
            CanDataType::Int32 => 1,
            CanDataType::Int16 => 2,
            CanDataType::Int8 => 3,
            CanDataType::UInt32 => 4,
            CanDataType::UInt16 => 5,
            CanDataType::UInt8 => 6,
            CanDataType::Boolean => 7,
        }
    }

    /// Validating decode: exactly the bytes 0 to 7 name a case.
    pub fn from_byte(b: u8) -> (r: Option<CanDataType>)
        ensures
            r == Self::spec_of_byte(b),
            r is Some <==> b < 8,
            r matches Some(c) ==> c.spec_byte() == b,
    {
        let r = if b == 0 {
            Some(CanDataType::Float32)
        } else if b == 1 {
            Some(CanDataType::Int32)
        } else if b == 2 {
            Some(CanDataType::Int16)
        } else if b == 3 {
            Some(CanDataType::Int8)
        } else if b == 4 {
            Some(CanDataType::UInt32)
        } else if b == 5 {
            Some(CanDataType::UInt16)
        } else if b == 6 {
            Some(CanDataType::UInt8)
        } else if b == 7 {
            Some(CanDataType::Boolean)
        } else {
            None
        };
        r
    }
    /// Distinct cases have distinct wire codes.
    pub proof fn lemma_byte_injective(a: CanDataType, b: CanDataType)
        requires
            a.spec_byte() == b.spec_byte(),
        ensures
            a == b,
    {
    }

}

/// Outcome of a parameter-set request; byte codes 0 to 3.
#[derive(Clone, Copy, PartialEq, Eq, Debug)]
pub enum ParameterSetStatus {
    /// The parameter was successfully set.
    Success,
    /// The parameter ID does not exist.
    InvalidParameterID,
    /// The parameter is locked and cannot be modified.
    ParameterLocked,
    /// The parameter was modified by another node.
    NodeToNodeModification,
}

impl ParameterSetStatus {
    /// The wire code of this case.
    pub open spec fn spec_byte(self) -> u8 {
        match self {
            ParameterSetStatus::Success => 0,
            ParameterSetStatus::InvalidParameterID => 1,
            ParameterSetStatus::ParameterLocked => 2,
            ParameterSetStatus::NodeToNodeModification => 3,
        }
    }

    /// The case a wire byte names, if any.
    pub open spec fn spec_of_byte(b: u8) -> Option<ParameterSetStatus> {
        if b == 0 {
            Some(ParameterSetStatus::Success)
        } else if b == 1 {
            Some(ParameterSetStatus::InvalidParameterID)
        } else if b == 2 {
            Some(ParameterSetStatus::ParameterLocked)
        } else if b == 3 {
            Some(ParameterSetStatus::NodeToNodeModification)
        } else {
            None
        }
    }

    /// Encodes this case as its wire byte, always below 4.
    pub fn to_byte(&self) -> (r: u8)
        ensures
            r == self.spec_byte(),
            r < 4,
    {
        match self {
            ParameterSetStatus::Success => 0,
            ParameterSetStatus::InvalidParameterID => 1,
            ParameterSetStatus::ParameterLocked => 2,
            ParameterSetStatus::NodeToNodeModification => 3,
        }
    }

    /// Validating decode: exactly the bytes 0 to 3 name a case.
    pub fn from_byte(b: u8) -> (r: Option<ParameterSetStatus>)
        ensures
            r == Self::spec_of_byte(b),
            r is Some <==> b < 4,
            r matches Some(c) ==> c.spec_byte() == b,
    {
        if b == 0 {
            Some(ParameterSetStatus::Success)
        } else if b == 1 {
            Some(ParameterSetStatus::InvalidParameterID)
        } else if b == 2 {
            Some(ParameterSetStatus::ParameterLocked)
        } else if b == 3 {
            Some(ParameterSetStatus::NodeToNodeModification)
        } else {
            None
        }
    }
    /// Distinct cases have distinct wire codes.
    pub proof fn lemma_byte_injective(a: ParameterSetStatus, b: ParameterSetStatus)
        requires
            a.spec_byte() == b.spec_byte(),
        ensures
            a == b,
    {
    }

}

/// Whether a parameter is locked against modification; byte codes 0 and 1.
#[derive(Clone, Copy, PartialEq, Eq, Debug)]
pub enum ParameterLockStatus {
    Unlocked,
    Locked,
}

impl ParameterLockStatus {
    /// The wire code of this case.
    pub open spec fn spec_byte(self) -> u8 {
        match self {
            ParameterLockStatus::Unlocked => 0,
            ParameterLockStatus::Locked => 1,
        }
    }

    /// The case a wire byte names, if any.
    pub open spec fn spec_of_byte(b: u8) -> Option<ParameterLockStatus> {
        if b == 0 {
            Some(ParameterLockStatus::Unlocked)
        } else if b == 1 {
            Some(ParameterLockStatus::Locked)
        } else {
            None
        }
    }

    /// Encodes this case as its wire byte, always below 2.
    pub fn to_byte(&self) -> (r: u8)
        ensures
            r == self.spec_byte(),
            r < 2,
    {
        match self {
            ParameterLockStatus::Unlocked => 0,
            ParameterLockStatus::Locked => 1,
        }
    }

    /// Validating decode: exactly the bytes 0 and 1 name a case.
    pub fn from_byte(b: u8) -> (r: Option<ParameterLockStatus>)
        ensures
            r == Self::spec_of_byte(b),
            r is Some <==> b < 2,
            r matches Some(c) ==> c.spec_byte() == b,
    {
        if b == 0 {
            Some(ParameterLockStatus::Unlocked)
        } else if b == 1 {
            Some(ParameterLockStatus::Locked)
        } else {
            None
        }
    }
    /// Distinct cases have distinct wire codes.
    pub proof fn lemma_byte_injective(a: ParameterLockStatus, b: ParameterLockStatus)
        requires
            a.spec_byte() == b.spec_byte(),
        ensures
            a == b,
    {
    }

}

/// Status reported for a field operation; this catalog defines the single
/// success code 0.
#[derive(Clone, Copy, PartialEq, Eq, Debug)]
pub enum FieldStatus {
    Success,
}

impl FieldStatus {
    /// The wire code of this case.
    pub open spec fn spec_byte(self) -> u8 {
        match self {
            FieldStatus::Success => 0,
        }
    }

    /// The case a wire byte names, if any.
    pub open spec fn spec_of_byte(b: u8) -> Option<FieldStatus> {
        if b == 0 {
            Some(FieldStatus::Success)
        } else {
            None
        }
    }

    /// Encodes this case as its wire byte, always below 1.
    pub fn to_byte(&self) -> (r: u8)
        ensures
            r == self.spec_byte(),
            r < 1,
    {
        match self {
            FieldStatus::Success => 0,
        }
    }

    /// Validating decode: exactly the byte 0 names a case.
    pub fn from_byte(b: u8) -> (r: Option<FieldStatus>)
        ensures
            r == Self::spec_of_byte(b),
            r is Some <==> b < 1,
            r matches Some(c) ==> c.spec_byte() == b,
    {
        if b == 0 {
            Some(FieldStatus::Success)
        } else {
            None
        }
    }
    /// Distinct cases have distinct wire codes.
    pub proof fn lemma_byte_injective(a: FieldStatus, b: FieldStatus)
        requires
            a.spec_byte() == b.spec_byte(),
        ensures
            a == b,
    {
    }

}

/// Payload of a node information announcement.
#[derive(Clone, Copy, PartialEq, Eq, Debug)]
pub struct NodeInfoResPayload {
    /// Number of telemetry values on this node.
    pub tel_count: u8,
    /// Number of parameters on this node.
    pub par_count: u8,
    /// Hash of the firmware version.
    pub firmware_hash: u32,
    /// Hash of the protocol version.
    pub liquid_hash: u32,
    /// Human-readable device name.
    pub device_name: [u8; 53],
}

/// Payload of a status message: free-form text.
#[derive(Clone, Copy, PartialEq, Eq, Debug)]
pub struct StatusPayload {
    /// Status message text.
    pub msg: [u8; 63],
}

/// Payload registering a telemetry value or parameter field.
#[derive(Clone, Copy, PartialEq, Eq, Debug)]
pub struct FieldRegistrationPayload {
    /// Unique identifier for this field.
    pub field_id: u8,
    /// Data type of the field.
    pub field_type: CanDataType,
    /// Human-readable field name.
    pub field_name: [u8; 61],
}

/// Payload defining which fields make up a telemetry group.
#[derive(Clone, Copy, PartialEq, Eq, Debug)]
pub struct TelemetryGroupDefinitionPayload {
    /// Unique identifier for this group.
    pub group_id: u8,
    /// Field IDs in this group.
    pub field_ids: [u8; 62],
}

/// Payload carrying the packed values of one telemetry group.
#[derive(Clone, Copy, PartialEq, Eq, Debug)]
pub struct TelemetryGroupUpdatePayload {
    /// Group identifier.
    pub group_id: u8,
    /// Packed values of all telemetry values in the group.
    pub values: [u8; 62],
}

/// Payload of a heartbeat request or response.
#[derive(Clone, Copy, PartialEq, Eq, Debug)]
pub struct HeartbeatPayload {
    /// Incrementing counter value.
    pub counter: u32,
}

/// Payload requesting that a parameter be set.
#[derive(Clone, Copy, PartialEq, Eq, Debug)]
pub struct ParameterSetReqPayload {
    /// Parameter identifier.
    pub parameter_id: u8,
    /// New value; interpretation depends on the parameter.
    pub value: [u8; 61],
}

/// Payload confirming a parameter-set request.
#[derive(Clone, Copy, PartialEq, Eq, Debug)]
pub struct ParameterSetConfirmationPayload {
    /// Parameter identifier.
    pub parameter_id: u8,
    /// Status code of the set operation.
    pub status: ParameterSetStatus,
    /// Confirmed value after the set operation.
    pub value: [u8; 61],
}

/// Payload requesting a parameter lock change.
#[derive(Clone, Copy, PartialEq, Eq, Debug)]
pub struct ParameterSetLockPayload {
    /// Parameter identifier to lock.
    pub parameter_id: u8,
    /// Requested lock status.
    pub parameter_lock: ParameterLockStatus,
}

/// Payload confirming a parameter lock change.
#[derive(Clone, Copy, PartialEq, Eq, Debug)]
pub struct ParameterSetLockConfirmationPayload {
    /// Parameter identifier.
    pub parameter_id: u8,
    /// Lock status after the request.
    pub parameter_lock: ParameterLockStatus,
    /// Status of the operation.
    pub field_status: FieldStatus,
}

/// Payload requesting a field's value.
#[derive(Clone, Copy, PartialEq, Eq, Debug)]
pub struct FieldGetReqPayload {
    /// Field identifier.
    pub field_id: u8,
}

/// Payload answering a field-value request.
#[derive(Clone, Copy, PartialEq, Eq, Debug)]
pub struct FieldGetResPayload {
    /// Field identifier.
    pub field_id: u8,
    /// Status of the lookup.
    pub field_status: FieldStatus,
    /// Field value.
    pub value: [u8; 61],
}

/// Payload asking for the ID of a field named by text.
#[derive(Clone, Copy, PartialEq, Eq, Debug)]
pub struct FieldIDLookupReqPayload {
    /// Field name to look up.
    pub field_name: [u8; 61],
}

/// Payload answering a field-ID lookup.
#[derive(Clone, Copy, PartialEq, Eq, Debug)]
pub struct FieldIDLookupResPayload {
    /// Field identifier.
    pub field_id: u8,
    /// Status of the lookup.
    pub field_status: FieldStatus,
    /// Data type of the field.
    pub field_type: CanDataType,
}

} // verus!
