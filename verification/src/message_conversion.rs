//! Conversions between logical messages and raw frames: the catalog schema
//! driven through the generic codec, with the round-trip laws restated at
//! the message level.

use crate::can_message::can_catalog;
use crate::can_message::lemma_catalog_wf;
use crate::can_message::lemma_instance_of_conforms;
use crate::can_message::lemma_instance_of_injective;
use crate::can_message::spec_catalog;
use crate::can_message::spec_instance_of;
use crate::can_message::to_array;
use crate::can_message::CanMessage;
use crate::codec::lemma_decode_conforms;
use crate::codec::lemma_encoded_discriminant;
use crate::codec::lemma_round_trip;
use crate::codec::lemma_trim_round_trip;
use crate::codec::spec_decode;
use crate::codec::spec_encode;
use crate::codec::spec_encode_trimmed;
use crate::codec::DecodeError;
use crate::codec::SpecDecodeError;
use crate::codec::SpecInstance;
use crate::raw_can_message::CanMessageFrame;
use vstd::prelude::*;
use vstd::slice::slice_subrange;
use vstd::slice::slice_to_vec;

verus! {

impl CanMessage {
    /// Encodes this message into its raw 64-byte frame: the discriminant
    /// byte, the payload fields left to right, then zero padding. Total for
    /// every message.
    pub fn to_frame(&self) -> (r: CanMessageFrame)
        ensures
            r@ == spec_encode(spec_catalog(), spec_instance_of(*self)),
    {
        let schema = can_catalog();
        let inst = self.to_instance();
        proof {
            lemma_instance_of_conforms(*self);
            assert(spec_catalog().total_size == 64) by {
                reveal(spec_catalog);
            }
        }
        let bytes = schema.encode(&inst);
        let message_type = bytes[0];
        let data = to_array(slice_subrange(bytes.as_slice(), 1, 64));
        let r = CanMessageFrame { message_type, data };
        assert(r@ =~= bytes@);
        r
    }

    /// Encodes this message and strips its trailing pad bytes, as sent over
    /// a bandwidth-constrained bus; [`Self::from_bytes`] reconstructs the
    /// dropped zeros.
    pub fn to_bytes(&self) -> (r: Vec<u8>)
        ensures
            r@ == spec_encode_trimmed(spec_catalog(), spec_instance_of(*self)),
    {
        let schema = can_catalog();
        let inst = self.to_instance();
        proof {
            lemma_instance_of_conforms(*self);
        }
        schema.encode_trimmed(&inst)
    }

    /// Decodes raw bytes of any length into a message: short input is read
    /// as zero-padded, long input is truncated to the frame size. Fails
    /// exactly as [`Self::try_from_frame`] does.
    pub fn from_bytes(bytes: &[u8]) -> (r: Result<CanMessage, DecodeError>)
        ensures
            r matches Ok(m) ==> spec_decode(spec_catalog(), bytes@) is Ok && spec_instance_of(m)
                == spec_decode(spec_catalog(), bytes@)->Ok_0,
            r matches Err(e) ==> spec_decode(spec_catalog(), bytes@) == Err::<
                SpecInstance,
                SpecDecodeError,
            >(e@),
    {
        let schema = can_catalog();
        match schema.decode(bytes) {
            Err(e) => Err(e),
            Ok(inst) => {
                proof {
                    lemma_decode_conforms(spec_catalog(), bytes@);
                }
                Ok(CanMessage::from_instance(&inst))
            },
        }
    }

    /// Decodes a raw frame into the message it carries. Fails exactly on a
    /// discriminant byte the catalog does not declare, or on a nested
    /// enumeration byte outside its case range.
    pub fn try_from_frame(frame: &CanMessageFrame) -> (r: Result<CanMessage, DecodeError>)
        ensures
            r matches Ok(m) ==> spec_decode(spec_catalog(), frame@) is Ok && spec_instance_of(m)
                == spec_decode(spec_catalog(), frame@)->Ok_0,
            r matches Err(e) ==> spec_decode(spec_catalog(), frame@) == Err::<
                SpecInstance,
                SpecDecodeError,
            >(e@),
    {
        let schema = can_catalog();
        let mut bytes: Vec<u8> = Vec::new();
        bytes.push(frame.message_type);
        let mut rest = slice_to_vec(frame.data.as_slice());
        bytes.append(&mut rest);
        assert(bytes@ =~= frame@);
        match schema.decode(bytes.as_slice()) {
            Err(e) => Err(e),
            Ok(inst) => {
                proof {
                    lemma_decode_conforms(spec_catalog(), frame@);
                }
                Ok(CanMessage::from_instance(&inst))
            },
        }
    }
}

/// Round trip at the catalog level: the encoded frame of any message
/// decodes back to exactly that message's instance.
pub proof fn lemma_message_round_trip(m: CanMessage)
    ensures
        spec_decode(spec_catalog(), spec_encode(spec_catalog(), spec_instance_of(m))) == Ok::<
            SpecInstance,
            SpecDecodeError,
        >(spec_instance_of(m)),
{
    lemma_catalog_wf();
    lemma_instance_of_conforms(m);
    lemma_round_trip(spec_catalog(), spec_instance_of(m));
}

/// Trim round trip at the catalog level: the encoded frame with its
/// trailing padding stripped still decodes back to the same instance.
pub proof fn lemma_message_trim_round_trip(m: CanMessage)
    ensures
        spec_decode(spec_catalog(), spec_encode_trimmed(spec_catalog(), spec_instance_of(m)))
            == Ok::<SpecInstance, SpecDecodeError>(spec_instance_of(m)),
{
    lemma_catalog_wf();
    lemma_instance_of_conforms(m);
    lemma_trim_round_trip(spec_catalog(), spec_instance_of(m));
}

/// Discriminant stability at the catalog level: byte 0 of every encoded
/// frame is the message's declared discriminant.
pub proof fn lemma_message_discriminant(m: CanMessage)
    ensures
        spec_encode(spec_catalog(), spec_instance_of(m))[0] == m.spec_discriminant(),
{
    lemma_instance_of_conforms(m);
    lemma_encoded_discriminant(spec_catalog(), spec_instance_of(m));
    assert(spec_instance_of(m).discriminant == m.spec_discriminant());
}

/// A message rebuilt from the decoded image of its own frame is that very
/// message: round trip and injectivity of the instance image together.
pub proof fn lemma_message_identity(m: CanMessage, m2: CanMessage)
    requires
        spec_instance_of(m2) == spec_decode(
            spec_catalog(),
            spec_encode(spec_catalog(), spec_instance_of(m)),
        )->Ok_0,
    ensures
        m2 == m,
{
    lemma_message_round_trip(m);
    lemma_instance_of_injective(m, m2);
}

} // verus!
