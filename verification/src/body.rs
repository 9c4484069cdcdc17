use vstd::prelude::*;

use crate::codec;
use crate::error::Error;
use crate::wire::WireContext;

verus! {

/// The owned variant of the event body schema: a discriminant string and two
/// integer detail fields, each field an independently allocated copy that
/// outlives the payload buffer it was decoded from.
///
/// On the wire the body is a structure of a string followed by two signed
/// 32-bit integers, and both schema variants share that byte layout.
#[derive(Debug, Clone, PartialEq)]
pub struct EventBodyOwned {
    pub kind: String,
    pub detail1: i32,
    pub detail2: i32,
}

/// The borrowed variant of the event body schema: the same field layout as
/// [`EventBodyOwned`], but the discriminant string references the payload
/// buffer it was decoded from (zero-copy), so the value must not outlive
/// that buffer.
#[derive(Debug, Clone, PartialEq)]
pub struct EventBodyBorrowed<'a> {
    pub kind: &'a str,
    pub detail1: i32,
    pub detail2: i32,
}

/// The fields the owned schema variant reads out of a payload buffer, or
/// `None` where the buffer does not decode.
pub open spec fn owned_decode_spec(bytes: Seq<u8>, little_endian: bool, position: int) -> Option<
    (Seq<char>, int, int),
> {
    codec::decoded_body(bytes, little_endian, position)
}

/// The fields the borrowed schema variant reads out of a payload buffer, or
/// `None` where the buffer does not decode.
pub open spec fn borrowed_decode_spec(
    bytes: Seq<u8>,
    little_endian: bool,
    position: int,
) -> Option<(Seq<char>, int, int)> {
    codec::decoded_body(bytes, little_endian, position)
}

/// Representation equivalence: the borrowed and the owned schema variants
/// read any payload buffer to the same field values, and fail on the same
/// buffers — the representation choice does not change the wire format.
pub proof fn lemma_representation_equivalence(bytes: Seq<u8>, little_endian: bool, position: int)
    ensures
        owned_decode_spec(bytes, little_endian, position) == borrowed_decode_spec(
            bytes,
            little_endian,
            position,
        ),
{
}

impl EventBodyOwned {
    /// Decode a payload buffer as the owned schema variant.
    pub fn decode(data: &zvariant::serialized::Data) -> (r: Result<EventBodyOwned, Error>)
        ensures
            match r {
                Ok(b) => owned_decode_spec(
                    codec::data_bytes(*data),
                    codec::data_context(*data).0,
                    codec::data_context(*data).1,
                ) == Some((b.kind@, b.detail1 as int, b.detail2 as int)),
                Err(_) => owned_decode_spec(
                    codec::data_bytes(*data),
                    codec::data_context(*data).0,
                    codec::data_context(*data).1,
                ) is None,
            },
    {
        codec::deserialize_owned(data)
    }

    /// Encode this body as a payload buffer under the given wire context.
    /// The discriminant must stay under the wire format's 32-bit length
    /// prefix; the codec aborts on one that does not.
    ///
    /// On success the buffer is exactly the codec's encoding of the three
    /// fields, it carries the given context, and — for a well-formed
    /// discriminant — decoding it under that context yields the fields back.
    pub fn encode(&self, ctx: &WireContext) -> (r: Result<
        zvariant::serialized::Data<'static, 'static>,
        Error,
    >)
        requires
            self.kind@.len() < 0x40000000,
        ensures
            match r {
                Ok(d) => {
                    &&& codec::encoded_result(
                        self.kind@,
                        self.detail1 as int,
                        self.detail2 as int,
                        ctx.little_endian,
                        ctx.position as int,
                    ) == Some(codec::data_bytes(d))
                    &&& codec::data_context(d) == (ctx.little_endian, ctx.position as int)
                    &&& codec::valid_kind(self.kind@) ==> codec::decoded_body(
                        codec::data_bytes(d),
                        ctx.little_endian,
                        ctx.position as int,
                    ) == Some((self.kind@, self.detail1 as int, self.detail2 as int))
                },
                Err(_) => codec::encoded_result(
                    self.kind@,
                    self.detail1 as int,
                    self.detail2 as int,
                    ctx.little_endian,
                    ctx.position as int,
                ) is None,
            },
    {
        codec::serialize_body(self.kind.as_str(), self.detail1, self.detail2, ctx)
    }
}

impl<'a> EventBodyBorrowed<'a> {
    /// Decode a payload buffer as the borrowed schema variant; the decoded
    /// discriminant borrows from the buffer.
    pub fn decode(data: &'a zvariant::serialized::Data<'a, 'a>) -> (r: Result<
        EventBodyBorrowed<'a>,
        Error,
    >)
        ensures
            match r {
                Ok(b) => borrowed_decode_spec(
                    codec::data_bytes(*data),
                    codec::data_context(*data).0,
                    codec::data_context(*data).1,
                ) == Some((b.kind@, b.detail1 as int, b.detail2 as int)),
                Err(_) => borrowed_decode_spec(
                    codec::data_bytes(*data),
                    codec::data_context(*data).0,
                    codec::data_context(*data).1,
                ) is None,
            },
    {
        codec::deserialize_borrowed(data)
    }
}

} // verus!
