//! The raw fixed-size frame and the 16-bit header word.
//!
//! The header word packs three narrow sub-fields at fixed bit offsets into
//! one integer: receiver address in bits 0-4, sender address in bits 5-9,
//! priority in bit 10. Bits 11-15 are reserved: ignored on unpack, always
//! written as zero on pack. Packing then unpacking recovers every
//! sub-field; unpacking then packing recovers the word up to its reserved
//! bits.

use vstd::prelude::*;

verus! {

/// Message priority: the one-bit flag packed into the header word.
#[derive(Clone, Copy, PartialEq, Eq, Debug)]
pub enum CanMessagePriority {
    Low,
    High,
}

impl CanMessagePriority {
    /// The bit that encodes this priority.
    pub open spec fn spec_bit(self) -> u16 {
        match self {
            CanMessagePriority::Low => 0,
            CanMessagePriority::High => 1,
        }
    }

    /// The bit that encodes this priority.
    pub fn bit(&self) -> (r: u16)
        ensures
            r == self.spec_bit(),
    {
        match self {
            CanMessagePriority::Low => 0,
            CanMessagePriority::High => 1,
        }
    }
}

/// The 16-bit header word: receiver address in bits 0-4, sender address in
/// bits 5-9, priority in bit 10, bits 11-15 reserved and always zero when
/// packed.
#[derive(Clone, Copy, PartialEq, Eq, Debug)]
pub struct CanMessageId {
    receiver_id: u8,
    sender_id: u8,
    priority: CanMessagePriority,
}

impl CanMessageId {
    /// The receiver address sub-field.
    pub closed spec fn spec_receiver_id(self) -> u8 {
        self.receiver_id
    }

    /// The sender address sub-field.
    pub closed spec fn spec_sender_id(self) -> u8 {
        self.sender_id
    }

    /// The priority sub-field.
    pub closed spec fn spec_priority(self) -> CanMessagePriority {
        self.priority
    }

    /// Both addresses fit their five-bit sub-fields.
    pub open spec fn wf(self) -> bool {
        self.spec_receiver_id() < 32 && self.spec_sender_id() < 32
    }

    /// The word this header packs to.
    pub open spec fn spec_word(self) -> u16
        recommends
            self.wf(),
    {
        (self.spec_receiver_id() + self.spec_sender_id() * 32 + self.spec_priority().spec_bit()
            * 1024) as u16
    }

    /// Builds a header; both addresses must fit five bits.
    pub fn new(receiver_id: u8, sender_id: u8, priority: CanMessagePriority) -> (r: CanMessageId)
        requires
            receiver_id < 32,
            sender_id < 32,
        ensures
            r.wf(),
            r.spec_receiver_id() == receiver_id,
            r.spec_sender_id() == sender_id,
            r.spec_priority() == priority,
    {
        CanMessageId { receiver_id, sender_id, priority }
    }

    /// The receiver address sub-field.
    pub fn receiver_id(&self) -> (r: u8)
        ensures
            r == self.spec_receiver_id(),
    {
        self.receiver_id
    }

    /// The sender address sub-field.
    pub fn sender_id(&self) -> (r: u8)
        ensures
            r == self.spec_sender_id(),
    {
        self.sender_id
    }

    /// The priority sub-field.
    pub fn priority(&self) -> (r: CanMessagePriority)
        ensures
            r == self.spec_priority(),
    {
        self.priority
    }

    /// Replaces the receiver address; it must fit five bits.
    pub fn set_receiver_id(&mut self, receiver_id: u8)
        requires
            receiver_id < 32,
        ensures
            final(self).spec_receiver_id() == receiver_id,
            final(self).spec_sender_id() == old(self).spec_sender_id(),
            final(self).spec_priority() == old(self).spec_priority(),
    {
        self.receiver_id = receiver_id;
    }

    /// Replaces the sender address; it must fit five bits.
    pub fn set_sender_id(&mut self, sender_id: u8)
        requires
            sender_id < 32,
        ensures
            final(self).spec_sender_id() == sender_id,
            final(self).spec_receiver_id() == old(self).spec_receiver_id(),
            final(self).spec_priority() == old(self).spec_priority(),
    {
        self.sender_id = sender_id;
    }

    /// Replaces the priority flag.
    pub fn set_priority(&mut self, priority: CanMessagePriority)
        ensures
            final(self).spec_priority() == priority,
            final(self).spec_receiver_id() == old(self).spec_receiver_id(),
            final(self).spec_sender_id() == old(self).spec_sender_id(),
    {
        self.priority = priority;
    }

    /// Packs the sub-fields into one word; the reserved bits 11-15 come out
    /// zero, so the word is always below 2048.
    pub fn to_word(&self) -> (r: u16)
        requires
            self.wf(),
        ensures
            r == self.spec_word(),
            r < 2048,
    {
        self.receiver_id as u16 + (self.sender_id as u16) * 32 + self.priority.bit() * 1024
    }

    /// Unpacks a word into its sub-fields, ignoring the reserved bits. Every
    /// word unpacks: both values of the one-bit priority flag name a case.
    pub fn from_word(word: u16) -> (r: CanMessageId)
        ensures
            r.wf(),
            r.spec_receiver_id() == word % 32,
            r.spec_sender_id() == (word / 32) % 32,
            r.spec_priority() == (if (word / 1024) % 2 == 1 {
                CanMessagePriority::High
            } else {
                CanMessagePriority::Low
            }),
    {
        let receiver_id = (word % 32) as u8;
        let sender_id = ((word / 32) % 32) as u8;
        let priority = if (word / 1024) % 2 == 1 {
            CanMessagePriority::High
        } else {
            CanMessagePriority::Low
        };
        CanMessageId { receiver_id, sender_id, priority }
    }

    /// Packing then unpacking recovers every sub-field.
    pub proof fn lemma_pack_unpack(self)
        requires
            self.wf(),
        ensures
            self.spec_word() % 32 == self.spec_receiver_id(),
            (self.spec_word() / 32) % 32 == self.spec_sender_id(),
            (self.spec_word() / 1024) % 2 == self.spec_priority().spec_bit(),
    {
        let r = self.spec_receiver_id() as u16;
        let s = self.spec_sender_id() as u16;
        let p = self.spec_priority().spec_bit();
        assert(r < 32 && s < 32 && p < 2 ==> {
            &&& (r + s * 32 + p * 1024) < 2048
            &&& ((r + s * 32 + p * 1024) as u16) % 32 == r
            &&& (((r + s * 32 + p * 1024) as u16) / 32) % 32 == s
            &&& (((r + s * 32 + p * 1024) as u16) / 1024) % 2 == p
        }) by (bit_vector);
    }

    /// Unpacking then packing recovers the word with its reserved bits
    /// cleared.
    pub proof fn lemma_unpack_pack(word: u16)
        ensures
            (word % 32) + ((word / 32) % 32) * 32 + ((word / 1024) % 2) * 1024 == word % 2048,
    {
        assert((word % 32) + ((word / 32) % 32) * 32 + ((word / 1024) % 2) * 1024 == word % 2048)
            by (bit_vector);
    }
}

/// A raw fixed-size frame: the discriminant byte and 63 payload bytes. Its
/// view is the full 64-byte sequence, discriminant first.
#[derive(Clone, Copy, PartialEq, Eq, Debug)]
pub struct CanMessageFrame {
    /// Byte 0 of the frame: the message discriminant.
    pub message_type: u8,
    /// Bytes 1 to 63: the variant's fields followed by zero padding.
    pub data: [u8; 63],
}

impl View for CanMessageFrame {
    type V = Seq<u8>;

    open spec fn view(&self) -> Seq<u8> {
        seq![self.message_type] + self.data@
    }
}

impl CanMessageFrame {
    /// O(1) discriminant read from an already-encoded frame: byte 0 names
    /// the active variant whatever that variant is, so no field decoding is
    /// needed and no failure is possible.
    pub fn peek_discriminant(&self) -> (r: u8)
        ensures
            r == self@[0],
    {
        self.message_type
    }
}

} // verus!
