use vstd::prelude::*;

use crate::body::EventBodyBorrowed;
use crate::codec;
use crate::error::Error;

verus! {

/// An incoming message envelope: the member tag the transport delivered,
/// and the still-undeciphered payload buffer (which carries its own wire
/// context).  An envelope is consumed by one conversion attempt.
pub struct Message<'a> {
    pub member: String,
    pub body: zvariant::serialized::Data<'a, 'a>,
}

/// The tag registry: each event type exposes the one wire tag it answers
/// to, as a compile-time constant.  No two event types may share a tag.
pub trait BusProperties {
    /// The registered wire tag, as a character sequence.
    spec fn member_spec() -> Seq<char>;

    /// The registered wire tag.
    fn dbus_member() -> (r: &'static str)
        ensures
            r@ == Self::member_spec(),
    ;
}

/// The conversion operation: validate an envelope's tag against the event
/// type's registered tag, decode the payload through the event's body
/// schema, and project the decoded fields into the event.
pub trait MessageConversion: BusProperties + Sized {
    /// The event a successful conversion of this envelope yields, or `None`
    /// where conversion fails: a mismatched tag, or a payload that does not
    /// decode.
    spec fn convert_spec(msg: Message) -> Option<Self>;

    /// Convert the envelope into this event type.  The tag comparison is
    /// the only validation: a matching tag is trusted to imply a
    /// wire-compatible body, as the protocol guarantees.
    fn from_message_unchecked(msg: &Message) -> (r: Result<Self, Error>)
        ensures
            msg.member@ != Self::member_spec() ==> (r matches Err(_)),
            match r {
                Ok(ev) => Self::convert_spec(*msg) == Some(ev),
                Err(_) => Self::convert_spec(*msg) is None,
            },
    ;
}

/// A cursor-moved event: the two detail fields of the wire body, projected
/// into coordinates.  Both are copied by value, so the event never aliases
/// the envelope's buffer even though its schema variant is the borrowed one.
pub struct CaretMoved {
    pub x: i32,
    pub y: i32,
}

impl BusProperties for CaretMoved {
    open spec fn member_spec() -> Seq<char> {
        "CaretMoved"@
    }

    fn dbus_member() -> (r: &'static str) {
        "CaretMoved"
    }
}

impl MessageConversion for CaretMoved {
    open spec fn convert_spec(msg: Message) -> Option<CaretMoved> {
        if msg.member@ == Self::member_spec() {
            match codec::decoded_body(
                codec::data_bytes(msg.body),
                codec::data_context(msg.body).0,
                codec::data_context(msg.body).1,
            ) {
                Some((kind, d1, d2)) => if (-0x80000000 <= d1 < 0x80000000) && (-0x80000000 <= d2
                    < 0x80000000) {
                    Some((CaretMoved { x: d1 as i32, y: d2 as i32 }))
                } else {
                    None
                },
                None => None,
            }
        } else {
            None
        }
    }

    fn from_message_unchecked(msg: &Message) -> (r: Result<Self, Error>) {
        let tag: String = Self::dbus_member().to_owned();
        if msg.member == tag {
            match EventBodyBorrowed::decode(&msg.body) {
                Ok(b) => Ok(CaretMoved { x: b.detail1, y: b.detail2 }),
                Err(e) => Err(e),
            }
        } else {
            Err(Error)
        }
    }
}

/// Round trip: an envelope that carries the registered tag and a payload
/// whose decoding yields fields (kind, d1, d2) — as encoding those fields
/// guarantees of its output for a well-formed discriminant — converts to
/// the event with x = d1 and y = d2.
pub proof fn lemma_round_trip(msg: Message, kind: Seq<char>, d1: i32, d2: i32)
    ensures
        (msg.member@ == CaretMoved::member_spec() && codec::decoded_body(
            codec::data_bytes(msg.body),
            codec::data_context(msg.body).0,
            codec::data_context(msg.body).1,
        ) == Some((kind, d1 as int, d2 as int))) ==> CaretMoved::convert_spec(msg) == Some(
            (CaretMoved { x: d1, y: d2 }),
        ),
{
}

/// Tag guard: an envelope whose tag differs from the registered tag never
/// converts, whatever its payload holds.
pub proof fn lemma_tag_guard(msg: Message)
    ensures
        msg.member@ != CaretMoved::member_spec() ==> CaretMoved::convert_spec(msg) is None,
{
}

/// Decode-failure propagation: an envelope whose payload does not decode
/// never converts, even under the matching tag.
pub proof fn lemma_decode_failure(msg: Message)
    ensures
        codec::decoded_body(
            codec::data_bytes(msg.body),
            codec::data_context(msg.body).0,
            codec::data_context(msg.body).1,
        ) is None ==> CaretMoved::convert_spec(msg) is None,
{
}

} // verus!
