//! The byte buffers and message framing that the wire codec provides.

use bytes::Bytes;
use bytes::BytesMut;
use postgres_protocol::IsNull;
use postgres_protocol::message::frontend;
use vstd::prelude::*;
use vstd::utf8::encode_utf8;

verus! {

/// `bytes::BytesMut`, a growable buffer of bytes, of which the contracts see `buffered`.
#[verifier::external_type_specification]
#[verifier::external_body]
pub struct ExBytesMut(BytesMut);

/// `bytes::Bytes`, an immutable buffer of bytes, of which the contracts see `frozen`.
#[verifier::external_type_specification]
#[verifier::external_body]
pub struct ExBytes(Bytes);

/// The bytes that a growable buffer holds, first to last.
pub uninterp spec fn buffered(buf: BytesMut) -> Seq<u8>;

/// The bytes that a frozen buffer holds, first to last.
pub uninterp spec fn frozen(bytes: Bytes) -> Seq<u8>;

/// The largest count that a message can announce.
pub const MAX_COUNT: usize = 0xFFFF;

/// The largest length that a message or a value can announce.
pub const MAX_LENGTH: usize = 0x7FFF_FFFF;

/// Whether the text's UTF-8 bytes hold a zero byte.
pub open spec fn has_nul(text: Seq<char>) -> bool {
    encode_utf8(text).contains(0u8)
}

/// The bytes that the values take in a message: four for each length, and the value's own.
pub open spec fn values_size(values: Seq<Option<Seq<u8>>>) -> nat
    decreases values.len(),
{
    if values.len() == 0 {
        0
    } else {
        let rest = values_size(values.drop_last());
        match values.last() {
            Some(bytes) => rest + 4 + bytes.len(),
            None => rest + 4,
        }
    }
}

/// The length that a Bind message announces: its body and the four bytes of the length itself.
pub open spec fn bind_size(
    portal: Seq<char>,
    statement: Seq<char>,
    formats: Seq<i16>,
    values: Seq<Option<Seq<u8>>>,
    result_formats: Seq<i16>,
) -> nat {
    4 + encode_utf8(portal).len() + 1 + encode_utf8(statement).len() + 1 + 2 + 2 * formats.len() + 2
        + values_size(values) + 2 + 2 * result_formats.len()
}

/// Whether a Bind message can be framed: no zero byte in a name, no
/// count above 65535, no value and no message longer than 2^31 - 1.
/// Nothing else is framed, and all of this is.
pub open spec fn bind_fits(
    portal: Seq<char>,
    statement: Seq<char>,
    formats: Seq<i16>,
    values: Seq<Option<Seq<u8>>>,
    result_formats: Seq<i16>,
) -> bool {
    &&& !has_nul(portal)
    &&& !has_nul(statement)
    &&& formats.len() <= MAX_COUNT
    &&& values.len() <= MAX_COUNT
    &&& result_formats.len() <= MAX_COUNT
    &&& forall|i: int|
        0 <= i < values.len() ==> (#[trigger] values[i] matches Some(bytes) ==> bytes.len()
            <= MAX_LENGTH)
    &&& bind_size(portal, statement, formats, values, result_formats) <= MAX_LENGTH
}

/// The values as the contracts see them.
pub open spec fn values_view(values: Seq<Option<Vec<u8>>>) -> Seq<Option<Seq<u8>>> {
    Seq::new(
        values.len(),
        |i: int|
            match values[i] {
                Some(bytes) => Some(bytes@),
                None => None,
            },
    )
}

/// The four bytes of a 32-bit integer, most significant first, in two's complement.
pub open spec fn be32(n: int) -> Seq<u8> {
    let u = if n < 0 {
        n + 0x1_0000_0000
    } else {
        n
    };
    seq![
        ((u / 0x100_0000) % 0x100) as u8,
        ((u / 0x1_0000) % 0x100) as u8,
        ((u / 0x100) % 0x100) as u8,
        (u % 0x100) as u8,
    ]
}

/// The two bytes of a 16-bit integer, most significant first, in two's complement.
pub open spec fn be16(n: int) -> Seq<u8> {
    let u = if n < 0 {
        n + 0x1_0000
    } else {
        n
    };
    seq![((u / 0x100) % 0x100) as u8, (u % 0x100) as u8]
}

/// The format codes as a message carries them: two bytes each.
pub open spec fn codes_bytes(codes: Seq<i16>) -> Seq<u8>
    decreases codes.len(),
{
    if codes.len() == 0 {
        Seq::empty()
    } else {
        codes_bytes(codes.drop_last()) + be16(codes.last() as int)
    }
}

/// The values as a message carries them: each value's length and its
/// bytes, and the length -1 without bytes for `NULL`.
pub open spec fn values_bytes(values: Seq<Option<Seq<u8>>>) -> Seq<u8>
    decreases values.len(),
{
    if values.len() == 0 {
        Seq::empty()
    } else {
        let rest = values_bytes(values.drop_last());
        match values.last() {
            Some(bytes) => rest + be32(bytes.len() as int) + bytes,
            None => rest + be32(-1),
        }
    }
}

/// The Bind message for a portal, a statement name, parameter format
/// codes, parameter values (`None` is `NULL`) and result format
/// codes: the tag `B`, the length, the two names with their closing
/// zeros, and the three lists, each behind the number of its items.
pub open spec fn bind_frame(
    portal: Seq<char>,
    statement: Seq<char>,
    formats: Seq<i16>,
    values: Seq<Option<Seq<u8>>>,
    result_formats: Seq<i16>,
) -> Seq<u8> {
    seq![0x42u8] + be32(bind_size(portal, statement, formats, values, result_formats) as int)
        + encode_utf8(portal) + seq![0u8] + encode_utf8(statement) + seq![0u8] + be16(
        formats.len() as int,
    ) + codes_bytes(formats) + be16(values.len() as int) + values_bytes(values) + be16(
        result_formats.len() as int,
    ) + codes_bytes(result_formats)
}

/// The Execute message for a portal and a row limit: the tag `E`, the
/// length, the portal's name with its closing zero, and the limit.
pub open spec fn execute_frame(portal: Seq<char>, max_rows: i32) -> Seq<u8> {
    seq![0x45u8] + be32(4 + encode_utf8(portal).len() as int + 1 + 4) + encode_utf8(portal) + seq![0u8]
        + be32(max_rows as int)
}

/// Whether an Execute message can be framed.
pub open spec fn execute_fits(portal: Seq<char>) -> bool {
    !has_nul(portal) && 4 + encode_utf8(portal).len() + 1 + 4 <= MAX_LENGTH
}

/// The object identifiers as a message carries them: four bytes each.
pub open spec fn oids_bytes(oids: Seq<u32>) -> Seq<u8>
    decreases oids.len(),
{
    if oids.len() == 0 {
        Seq::empty()
    } else {
        oids_bytes(oids.drop_last()) + be32(oids.last() as int)
    }
}

/// The length that a Parse message announces.
pub open spec fn parse_size(name: Seq<char>, query: Seq<char>, oids: Seq<u32>) -> nat {
    4 + encode_utf8(name).len() + 1 + encode_utf8(query).len() + 1 + 2 + 4 * oids.len()
}

/// Whether a Parse message can be framed: no zero byte in the name or
/// the query, no more types than 65535, and no more bytes than 2^31 - 1.
pub open spec fn parse_fits(name: Seq<char>, query: Seq<char>, oids: Seq<u32>) -> bool {
    &&& !has_nul(name)
    &&& !has_nul(query)
    &&& oids.len() <= MAX_COUNT
    &&& parse_size(name, query, oids) <= MAX_LENGTH
}

/// The Parse message for a statement name, a query and the types of
/// the parameters that the caller fixes: the tag `P`, the length, the
/// name and the query with their closing zeros, and the types behind
/// their number.
pub open spec fn parse_frame(name: Seq<char>, query: Seq<char>, oids: Seq<u32>) -> Seq<u8> {
    seq![0x50u8] + be32(parse_size(name, query, oids) as int) + encode_utf8(name) + seq![0u8]
        + encode_utf8(query) + seq![0u8] + be16(oids.len() as int) + oids_bytes(oids)
}

/// Whether a Describe message can be framed.
pub open spec fn describe_fits(name: Seq<char>) -> bool {
    !has_nul(name) && 4 + 1 + encode_utf8(name).len() + 1 <= MAX_LENGTH
}

/// The Describe message for a statement: the tag `D`, the length, the
/// letter `S`, and the statement's name with its closing zero.
pub open spec fn describe_frame(name: Seq<char>) -> Seq<u8> {
    seq![0x44u8] + be32(4 + 1 + encode_utf8(name).len() as int + 1) + seq![0x53u8] + encode_utf8(
        name,
    ) + seq![0u8]
}

/// The five bytes of a Sync message: the tag `S` and the length 4.
pub open spec fn sync_frame() -> Seq<u8> {
    seq![0x53u8, 0u8, 0u8, 0u8, 4u8]
}

/// `BytesMut::new`: a buffer that holds nothing.
#[verifier::external_body]
pub(crate) fn new_buffer() -> (buf: BytesMut)
    ensures
        buffered(buf) == Seq::<u8>::empty(),
{
    BytesMut::new()
}

/// `BytesMut::split`: hands out all that the buffer holds and leaves it empty.
#[verifier::external_body]
pub(crate) fn split_buffer(buf: &mut BytesMut) -> (taken: BytesMut)
    ensures
        buffered(taken) == buffered(*old(buf)),
        buffered(*final(buf)) == Seq::<u8>::empty(),
{
    buf.split()
}

/// `BytesMut::freeze`: the same bytes, immutable.
#[verifier::external_body]
pub(crate) fn freeze_buffer(buf: BytesMut) -> (bytes: Bytes)
    ensures
        frozen(bytes) == buffered(buf),
{
    buf.freeze()
}

/// `BytesMut::extend_from_slice`: appends the bytes.
#[verifier::external_body]
pub(crate) fn put_slice(buf: &mut BytesMut, bytes: &[u8])
    ensures
        buffered(*final(buf)) == buffered(*old(buf)) + bytes@,
{
    buf.extend_from_slice(bytes)
}

/// Writes one parameter value into a message: its bytes, or nothing for `NULL`.
pub(crate) fn write_cell(value: &Option<Vec<u8>>, out: &mut BytesMut) -> (null: crate::types::IsNull)
    ensures
        match *value {
            Some(bytes) => null == crate::types::IsNull::No && buffered(*final(out)) == buffered(
                *old(out),
            ) + bytes@,
            None => null == crate::types::IsNull::Yes && buffered(*final(out)) == buffered(
                *old(out),
            ),
        },
{
    match value {
        Some(bytes) => {
            put_slice(out, bytes.as_slice());
            crate::types::IsNull::No
        },
        None => crate::types::IsNull::Yes,
    }
}

/// `postgres_protocol::message::frontend::bind`, with `write_cell` as the
/// serialiser of each value: for arguments of which a Bind message
/// can be framed it appends that message and reports success.
#[verifier::external_body]
pub(crate) fn put_bind(
    portal: &str,
    statement: &str,
    formats: &Vec<i16>,
    values: &Vec<Option<Vec<u8>>>,
    result_formats: &Vec<i16>,
    buf: &mut BytesMut,
) -> (done: bool)
    requires
        bind_fits(portal@, statement@, formats@, values_view(values@), result_formats@),
    ensures
        done,
        buffered(*final(buf)) == buffered(*old(buf)) + bind_frame(
            portal@,
            statement@,
            formats@,
            values_view(values@),
            result_formats@,
        ),
{
    let cell = |value: &Option<Vec<u8>>, out: &mut BytesMut| match write_cell(value, out) {
        crate::types::IsNull::Yes => Ok(IsNull::Yes),
        crate::types::IsNull::No => Ok(IsNull::No),
    };
    let codes = formats.iter().copied();
    let results = result_formats.iter().copied();
    frontend::bind(portal, statement, codes, values.iter(), cell, results, buf).is_ok()
}

/// `postgres_protocol::message::frontend::execute`: for a portal of
/// which an Execute message can be framed it appends that message and
/// reports success.
#[verifier::external_body]
pub(crate) fn put_execute(portal: &str, max_rows: i32, buf: &mut BytesMut) -> (done: bool)
    requires
        execute_fits(portal@),
    ensures
        done,
        buffered(*final(buf)) == buffered(*old(buf)) + execute_frame(portal@, max_rows),
{
    frontend::execute(portal, max_rows, buf).is_ok()
}

/// `postgres_protocol::message::frontend::parse`: for arguments of
/// which a Parse message can be framed it appends that message and
/// reports success.
#[verifier::external_body]
pub(crate) fn put_parse(name: &str, query: &str, oids: &Vec<u32>, buf: &mut BytesMut) -> (done: bool)
    requires
        parse_fits(name@, query@, oids@),
    ensures
        done,
        buffered(*final(buf)) == buffered(*old(buf)) + parse_frame(name@, query@, oids@),
{
    frontend::parse(name, query, oids.iter().copied(), buf).is_ok()
}

/// `postgres_protocol::message::frontend::describe`, for a statement:
/// for a name of which a Describe message can be framed it appends
/// that message and reports success.
#[verifier::external_body]
pub(crate) fn put_describe(name: &str, buf: &mut BytesMut) -> (done: bool)
    requires
        describe_fits(name@),
    ensures
        done,
        buffered(*final(buf)) == buffered(*old(buf)) + describe_frame(name@),
{
    frontend::describe(b'S', name, buf).is_ok()
}

/// `postgres_protocol::message::frontend::sync`: appends a Sync message.
#[verifier::external_body]
pub(crate) fn put_sync(buf: &mut BytesMut)
    ensures
        buffered(*final(buf)) == buffered(*old(buf)) + sync_frame(),
{
    frontend::sync(buf)
}

} // verus!
