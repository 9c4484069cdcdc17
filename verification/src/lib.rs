//! Typed decoding for tagged bus messages.
//!
//! An incoming message arrives as an envelope: a member tag together with a
//! serialized payload buffer.  Each event type registers the tag it answers
//! to and declares the shape of its payload; the conversion operation checks
//! the tag, decodes the payload through the zvariant codec, and projects the
//! decoded fields into the event's own fields.

mod body;
mod codec;
mod convert;
mod error;
mod wire;

pub use body::EventBodyBorrowed;
pub use body::EventBodyOwned;
pub use body::borrowed_decode_spec;
pub use body::lemma_representation_equivalence;
pub use body::owned_decode_spec;
pub use codec::data_bytes;
pub use codec::data_context;
pub use codec::decoded_body;
pub use codec::encoded_result;
pub use codec::valid_kind;
pub use convert::BusProperties;
pub use convert::CaretMoved;
pub use convert::Message;
pub use convert::MessageConversion;
pub use convert::lemma_decode_failure;
pub use convert::lemma_round_trip;
pub use convert::lemma_tag_guard;
pub use error::Error;
pub use wire::WireContext;
