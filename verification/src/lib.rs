//! A fixed-size binary wire codec for tagged-union messages.
//!
//! Every message of a protocol occupies exactly the same number of bytes:
//! byte 0 carries a discriminant naming the active variant, the variant's
//! fields follow, and explicit zero padding fills the frame. Schemas are
//! ordinary data (a table of variant descriptors) interpreted by one generic
//! encoder and decoder, both verified: encoding then decoding any conforming
//! instance is proved to give the instance back.
//!
//! A smaller, independent primitive packs narrow sub-fields into one 16-bit
//! header word with explicit reserved bits.

pub mod can_message;
pub mod codec;
pub mod layout;
pub mod message_conversion;
pub mod payloads;
pub mod raw_can_message;
pub mod schema;

pub use can_message::CanMessage;
pub use raw_can_message::CanMessageFrame;
pub use raw_can_message::CanMessageId;
