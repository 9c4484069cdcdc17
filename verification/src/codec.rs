use vstd::prelude::*;

use crate::body::EventBodyBorrowed;
use crate::body::EventBodyOwned;
use crate::error::Error;
use crate::wire::WireContext;

verus! {

/// A serialized payload buffer of the zvariant codec, carrying its bytes
/// together with the wire context they were produced under.
#[verifier::external_type_specification]
#[verifier::external_body]
pub struct ExData<'bytes, 'fds>(zvariant::serialized::Data<'bytes, 'fds>);

/// The bytes a payload buffer holds.
pub uninterp spec fn data_bytes(d: zvariant::serialized::Data) -> Seq<u8>;

/// The wire context a payload buffer carries: its byte order (true for
/// little-endian) and the stream position it starts at.
pub uninterp spec fn data_context(d: zvariant::serialized::Data) -> (bool, int);

/// What the codec's encoder produces for an event body with the given
/// discriminant and detail fields under the given byte order and position:
/// the encoded bytes, or `None` where the codec refuses the values.
pub uninterp spec fn encoded_result(
    kind: Seq<char>,
    detail1: int,
    detail2: int,
    little_endian: bool,
    position: int,
) -> Option<Seq<u8>>;

/// What the codec's decoder reads out of a byte buffer expecting an event
/// body — a structure of a string and two signed 32-bit integers — under the
/// given byte order and position: the three fields, or `None` where the
/// buffer does not decode.  Both schema variants read the identical byte
/// layout, so one decoding describes them both.
pub uninterp spec fn decoded_body(bytes: Seq<u8>, little_endian: bool, position: int) -> Option<
    (Seq<char>, int, int),
>;

/// A discriminant the wire format represents faithfully: free of interior
/// nul characters (the wire string terminator) and short enough for the
/// 32-bit length prefix.
pub open spec fn valid_kind(kind: Seq<char>) -> bool {
    &&& kind.len() < 0x40000000
    &&& forall|i: int| 0 <= i < kind.len() ==> (#[trigger] kind[i]) as u32 != 0
}

/// Relies on zvariant::to_bytes at the D-Bus structure signature "(sii)": it
/// returns a buffer holding the encoding of the three fields under the given
/// context, and the buffer carries that context.  The codec's decoder reads
/// the same values back out of that buffer; for a discriminant with an
/// interior nul the decoder instead rejects the buffer, so the round trip is
/// only stated for a well-formed discriminant.  On a discriminant whose
/// UTF-8 form exceeds the 32-bit length prefix the serializer asserts
/// instead of returning; a character takes at most four UTF-8 bytes, so the
/// length bound required here keeps every call clear of that.
#[verifier::external_body]
pub(crate) fn serialize_body(kind: &str, detail1: i32, detail2: i32, ctx: &WireContext) -> (r:
    Result<zvariant::serialized::Data<'static, 'static>, Error>)
    requires
        kind@.len() < 0x40000000,
    ensures
        match r {
            Ok(d) => {
                &&& encoded_result(
                    kind@,
                    detail1 as int,
                    detail2 as int,
                    ctx.little_endian,
                    ctx.position as int,
                ) == Some(data_bytes(d))
                &&& data_context(d) == (ctx.little_endian, ctx.position as int)
                &&& valid_kind(kind@) ==> decoded_body(
                    data_bytes(d),
                    ctx.little_endian,
                    ctx.position as int,
                ) == Some((kind@, detail1 as int, detail2 as int))
            },
            Err(_) => encoded_result(
                kind@,
                detail1 as int,
                detail2 as int,
                ctx.little_endian,
                ctx.position as int,
            ) is None,
        },
{
    let endian = if ctx.little_endian {
        zvariant::Endian::Little
    } else {
        zvariant::Endian::Big
    };
    let ctxt = zvariant::serialized::Context::new_dbus(endian, ctx.position);
    zvariant::to_bytes(ctxt, &(kind, detail1, detail2)).map_err(|_| Error)
}

/// Relies on zvariant::serialized::Data::deserialize at the D-Bus structure
/// signature "(sii)": it reads a string and two signed 32-bit integers out
/// of the buffer under the buffer's own context, copying each field, or
/// fails on a buffer that does not decode.
#[verifier::external_body]
pub(crate) fn deserialize_owned(data: &zvariant::serialized::Data) -> (r: Result<
    EventBodyOwned,
    Error,
>)
    ensures
        match r {
            Ok(b) => decoded_body(data_bytes(*data), data_context(*data).0, data_context(*data).1)
                == Some((b.kind@, b.detail1 as int, b.detail2 as int)),
            Err(_) => decoded_body(
                data_bytes(*data),
                data_context(*data).0,
                data_context(*data).1,
            ) is None,
        },
{
    match data.deserialize::<(String, i32, i32)>() {
        Ok(((kind, detail1, detail2), _)) => Ok(EventBodyOwned { kind, detail1, detail2 }),
        Err(_) => Err(Error),
    }
}

/// Relies on zvariant::serialized::Data::deserialize at the D-Bus structure
/// signature "(sii)", zero-copy: the decoded string borrows from the buffer.
/// The byte layout read is identical to the owned variant's, so the same
/// decoding describes both.
#[verifier::external_body]
pub(crate) fn deserialize_borrowed<'a>(data: &'a zvariant::serialized::Data<'a, 'a>) -> (r: Result<
    EventBodyBorrowed<'a>,
    Error,
>)
    ensures
        match r {
            Ok(b) => decoded_body(data_bytes(*data), data_context(*data).0, data_context(*data).1)
                == Some((b.kind@, b.detail1 as int, b.detail2 as int)),
            Err(_) => decoded_body(
                data_bytes(*data),
                data_context(*data).0,
                data_context(*data).1,
            ) is None,
        },
{
    match data.deserialize::<(&str, i32, i32)>() {
        Ok(((kind, detail1, detail2), _)) => Ok(EventBodyBorrowed { kind, detail1, detail2 }),
        Err(_) => Err(Error),
    }
}

} // verus!
