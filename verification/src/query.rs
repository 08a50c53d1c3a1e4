//! Requests: the encoding of Bind, Execute and Sync for a prepared
//! statement and its parameter values, and the sending of the encoded
//! request to a connection.

use bytes::Bytes;
use bytes::BytesMut;
use crate::connection::Connection;
use crate::connection::Event;
use crate::connection::RequestKind;
use crate::connection::Responses;
use crate::error::Error;
use crate::stream::Execution;
use crate::stream::OneRow;
use crate::stream::OptionalRow;
use crate::stream::Phase;
use crate::stream::Rows;
use crate::stream::RowStream;
use crate::types::Encoded;
use crate::types::Format;
use crate::types::IsNull;
use crate::types::Portal;
use crate::types::share;
use crate::types::Statement;
use crate::types::ToSql;
use crate::types::Type;
use crate::wire::bind_fits;
use crate::wire::bind_frame;
use crate::wire::bind_size;
use crate::wire::buffered;
use crate::wire::execute_fits;
use crate::wire::execute_frame;
use crate::wire::freeze_buffer;
use crate::wire::frozen;
use crate::wire::has_nul;
use crate::wire::MAX_COUNT;
use crate::wire::MAX_LENGTH;
use crate::wire::put_bind;
use crate::wire::put_execute;
use crate::wire::put_sync;
use crate::wire::split_buffer;
use crate::wire::sync_frame;
use crate::wire::values_size;
use crate::wire::values_view;
use std::sync::Arc;
use vstd::prelude::*;
use vstd::utf8::encode_utf8;

verus! {

/// The type that the parameter at `i` is serialised against: the
/// universal text type where its format is text, the declared type
/// where it is binary or where no format is given for it.
pub open spec fn target_type(declared: Type, formats: Seq<Format>, i: int) -> Type {
    if 0 <= i < formats.len() && formats[i] == Format::Text {
        Type::spec_text()
    } else {
        declared
    }
}

/// What each parameter value serialises to against its target type.
pub open spec fn encodings<P: ToSql>(
    declared: Seq<Type>,
    params: Seq<P>,
    formats: Seq<Format>,
) -> Seq<Encoded> {
    Seq::new(params.len(), |i: int| params[i].sql_value(target_type(declared[i], formats, i)))
}

/// A value that cannot go into a message: it refused its type, or it
/// is longer than a message can announce.
pub open spec fn unusable(value: Encoded) -> bool {
    match value {
        Encoded::Rejected => true,
        Encoded::Null => false,
        Encoded::Bytes(bytes) => bytes.len() > MAX_LENGTH,
    }
}

/// The position of the first unusable value at or after `from`, or the
/// number of values where there is none.
pub open spec fn first_unusable(values: Seq<Encoded>, from: int) -> int
    decreases values.len() - from,
{
    if from >= values.len() {
        values.len() as int
    } else if unusable(values[from]) {
        from
    } else {
        first_unusable(values, from + 1)
    }
}

/// The values as a Bind message carries them: `None` for `NULL`.
pub open spec fn wire_values(values: Seq<Encoded>) -> Seq<Option<Seq<u8>>> {
    Seq::new(
        values.len(),
        |i: int|
            match values[i] {
                Encoded::Bytes(bytes) => Some(bytes),
                _ => None,
            },
    )
}

/// The protocol's code for each format.
pub open spec fn format_codes(formats: Seq<Format>) -> Seq<i16> {
    Seq::new(formats.len(), |i: int| formats[i].spec_code())
}

/// What binding the values to the statement gives: the Bind message, or
/// the first failure in the order in which a message is written. The
/// parameter count is compared before anything else; then come the two
/// names and the number of formats, then the values one by one, then
/// the remaining counts and the size of the whole.
pub open spec fn bind_result<P: ToSql>(
    statement: Statement,
    params: Seq<P>,
    param_formats: Seq<Format>,
    column_formats: Seq<Format>,
    portal: Seq<char>,
) -> Result<Seq<u8>, Error> {
    let values = encodings(statement.params@, params, param_formats);
    let bad = first_unusable(values, 0);
    if params.len() != statement.params@.len() {
        Err(
            Error::ParameterCount {
                expected: statement.params@.len() as usize,
                actual: params.len() as usize,
            },
        )
    } else if has_nul(portal) || has_nul(statement.name@) || param_formats.len() > MAX_COUNT {
        Err(Error::Encode)
    } else if bad < values.len() {
        if values[bad] is Rejected {
            Err(Error::ToSql(bad as usize))
        } else {
            Err(Error::Encode)
        }
    } else if !bind_fits(
        portal,
        statement.name@,
        format_codes(param_formats),
        wire_values(values),
        format_codes(column_formats),
    ) {
        Err(Error::Encode)
    } else {
        Ok(
            bind_frame(
                portal,
                statement.name@,
                format_codes(param_formats),
                wire_values(values),
                format_codes(column_formats),
            ),
        )
    }
}

/// A request with another number of values than the statement
/// declares parameters has no Bind message, whatever the values, the
/// formats and the names are, and whether there are too few or too many.
pub proof fn lemma_parameter_count_is_checked_first<P: ToSql>(
    statement: Statement,
    params: Seq<P>,
    param_formats: Seq<Format>,
    column_formats: Seq<Format>,
    portal: Seq<char>,
)
    requires
        params.len() != statement.params@.len(),
    ensures
        bind_result(statement, params, param_formats, column_formats, portal) == Err::<
            Seq<u8>,
            Error,
        >(
            Error::ParameterCount {
                expected: statement.params@.len() as usize,
                actual: params.len() as usize,
            },
        ),
        request_of(bind_result(statement, params, param_formats, column_formats, portal)) is Err,
{
}

/// Whether the bytes hold a zero.
pub(crate) fn holds_zero(bytes: &[u8]) -> (found: bool)
    ensures
        found == bytes@.contains(0u8),
{
    let mut i: usize = 0;
    while i < bytes.len()
        invariant
            i <= bytes.len(),
            forall|j: int| 0 <= j < i ==> bytes@[j] != 0u8,
        decreases bytes.len() - i,
    {
        if bytes[i] == 0 {
            return true;
        }
        i += 1;
    }
    false
}

/// The code of each format, in order.
fn codes_of(formats: &[Format]) -> (codes: Vec<i16>)
    ensures
        codes@ == format_codes(formats@),
{
    let mut codes: Vec<i16> = Vec::new();
    let mut i: usize = 0;
    while i < formats.len()
        invariant
            i <= formats.len(),
            codes@ == format_codes(formats@.take(i as int)),
        decreases formats.len() - i,
    {
        codes.push(formats[i].code());
        i += 1;
        assert(codes@ =~= format_codes(formats@.take(i as int)));
    }
    assert(formats@.take(formats.len() as int) =~= formats@);
    codes
}

/// The values of a beginning take no more bytes than all the values.
proof fn lemma_values_size_grows(values: Seq<Option<Seq<u8>>>, upto: int)
    requires
        0 <= upto <= values.len(),
    ensures
        values_size(values.take(upto)) <= values_size(values),
    decreases values.len() - upto,
{
    if upto == values.len() {
        assert(values.take(upto) =~= values);
    } else {
        lemma_values_size_grows(values, upto + 1);
        assert(values.take(upto + 1).drop_last() =~= values.take(upto));
    }
}

/// Whether a Bind message can be framed, for names without a zero
/// byte, no more formats than a message can count and values that are
/// each short enough.
fn fits(
    portal: &str,
    statement: &str,
    formats: &Vec<i16>,
    values: &Vec<Option<Vec<u8>>>,
    result_formats: &Vec<i16>,
) -> (yes: bool)
    requires
        !has_nul(portal@),
        !has_nul(statement@),
        formats.len() <= MAX_COUNT,
        forall|i: int|
            0 <= i < values_view(values@).len() ==> (#[trigger] values_view(
                values@,
            )[i] matches Some(bytes) ==> bytes.len() <= MAX_LENGTH),
    ensures
        yes == bind_fits(portal@, statement@, formats@, values_view(values@), result_formats@),
{
    let head = portal.as_bytes().len();
    let name = statement.as_bytes().len();
    assert(head == encode_utf8(portal@).len() && name == encode_utf8(statement@).len());
    if values.len() > MAX_COUNT || result_formats.len() > MAX_COUNT || head > MAX_LENGTH || name
        > MAX_LENGTH {
        return false;
    }
    let ghost all = values_view(values@);
    let ghost fixed = 12 + head + name + 2 * formats.len() + 2 * result_formats.len();
    let counted = formats.len() as u64 + result_formats.len() as u64;
    let mut size: u64 = 12 + head as u64 + name as u64 + 2 * counted;
    if size > MAX_LENGTH as u64 {
        return false;
    }
    let mut i: usize = 0;
    assert(all.take(0) =~= Seq::<Option<Seq<u8>>>::empty());
    while i < values.len()
        invariant
            i <= values.len(),
            all == values_view(values@),
            size == fixed + values_size(all.take(i as int)),
            size <= MAX_LENGTH,
            bind_size(portal@, statement@, formats@, all, result_formats@) == fixed + values_size(
                all,
            ),
            forall|j: int|
                0 <= j < all.len() ==> (#[trigger] all[j] matches Some(bytes) ==> bytes.len()
                    <= MAX_LENGTH),
        decreases values.len() - i,
    {
        proof {
            assert(all.take(i + 1).drop_last() =~= all.take(i as int));
            assert(all.take(i + 1).last() == all[i as int]);
            lemma_values_size_grows(all, i + 1);
        }
        let more: u64 = match &values[i] {
            Some(bytes) => 4 + bytes.len() as u64,
            None => 4,
        };
        if size + more > MAX_LENGTH as u64 {
            return false;
        }
        size = size + more;
        i += 1;
    }
    assert(all.take(values.len() as int) =~= all);
    true
}

/// Nothing before `upto` is unusable, so the first unusable value is at or after it.
proof fn lemma_first_unusable_skips(values: Seq<Encoded>, upto: int)
    requires
        0 <= upto <= values.len(),
        forall|j: int| 0 <= j < upto ==> !unusable(#[trigger] values[j]),
    ensures
        first_unusable(values, 0) == first_unusable(values, upto),
    decreases upto,
{
    if upto > 0 {
        lemma_first_unusable_skips(values, upto - 1);
    }
}

/// Appends to `buf` the Bind message that binds `params` to `statement`
/// under the name `portal`.
///
/// The parameter count is compared with the statement's before a byte
/// is written. Each value is serialised against the statement's type at
/// its position where its format is binary or missing, and against the
/// text type where it is text. On any failure the buffer is as it was.
pub fn encode_bind<P: ToSql>(
    statement: &Statement,
    params: &[P],
    param_formats: &[Format],
    column_formats: &[Format],
    portal: &str,
    buf: &mut BytesMut,
) -> (r: Result<(), Error>)
    ensures
        match bind_result(*statement, params@, param_formats@, column_formats@, portal@) {
            Ok(frame) => r is Ok && buffered(*final(buf)) == buffered(*old(buf)) + frame,
            Err(e) => r == Err::<(), Error>(e) && buffered(*final(buf)) == buffered(*old(buf)),
        },
{
    let count = params.len();
    if statement.params.len() != count {
        return Err(Error::ParameterCount { expected: statement.params.len(), actual: count });
    }
    if holds_zero(portal.as_bytes()) || holds_zero(statement.name.as_str().as_bytes())
        || param_formats.len() > MAX_COUNT {
        return Err(Error::Encode);
    }
    let ghost wanted = encodings(statement.params@, params@, param_formats@);
    let mut values: Vec<Option<Vec<u8>>> = Vec::new();
    let mut i: usize = 0;
    while i < count
        invariant
            i <= count,
            count == params.len(),
            count == statement.params.len(),
            wanted == encodings(statement.params@, params@, param_formats@),
            values.len() == i,
            !has_nul(portal@),
            !has_nul(statement.name@),
            param_formats.len() <= MAX_COUNT,
            buffered(*buf) == buffered(*old(buf)),
            forall|j: int| 0 <= j < i ==> !unusable(#[trigger] wanted[j]),
            forall|j: int| 0 <= j < i ==> values_view(values@)[j] == wire_values(wanted)[j],
        decreases count - i,
    {
        let ty = if i < param_formats.len() && param_formats[i] == Format::Text {
            Type::text()
        } else {
            statement.params[i]
        };
        assert(ty == target_type(statement.params@[i as int], param_formats@, i as int));
        let mut cell: Vec<u8> = Vec::new();
        let written = params[i].to_sql_checked(&ty, &mut cell);
        proof {
            lemma_first_unusable_skips(wanted, i as int);
        }
        match written {
            Err(_) => {
                return Err(Error::ToSql(i));
            },
            Ok(IsNull::Yes) => {
                values.push(None);
            },
            Ok(IsNull::No) => {
                assert(cell@ =~= wanted[i as int]->Bytes_0);
                if cell.len() > MAX_LENGTH {
                    return Err(Error::Encode);
                }
                values.push(Some(cell));
            },
        }
        i += 1;
    }
    proof {
        lemma_first_unusable_skips(wanted, count as int);
        assert(values_view(values@) =~= wire_values(wanted));
    }
    let codes = codes_of(param_formats);
    let results = codes_of(column_formats);
    assert forall|j: int| 0 <= j < values_view(values@).len() implies (#[trigger] values_view(
        values@,
    )[j] matches Some(bytes) ==> bytes.len() <= MAX_LENGTH) by {
        assert(!unusable(wanted[j]));
    }
    if !fits(portal, statement.name.as_str(), &codes, &values, &results) {
        return Err(Error::Encode);
    }
    if !put_bind(portal, statement.name.as_str(), &codes, &values, &results, buf) {
        return Err(Error::Encode);
    }
    Ok(())
}

/// The bytes of a whole request around its Bind message: Execute of
/// the unnamed portal without a row limit, and Sync.
pub open spec fn request_of(bound: Result<Seq<u8>, Error>) -> Result<Seq<u8>, Error> {
    match bound {
        Ok(frame) => Ok(frame + execute_frame(Seq::<char>::empty(), 0) + sync_frame()),
        Err(e) => Err(e),
    }
}

/// The bytes that fetch up to `max_rows` rows from a portal: the
/// Execute message, and no Sync behind it. A limit of zero asks for all rows.
pub open spec fn fetch_of(portal: Seq<char>, max_rows: i32) -> Result<Seq<u8>, Error> {
    if execute_fits(portal) {
        Ok(execute_frame(portal, max_rows))
    } else {
        Err(Error::Encode)
    }
}

/// What handing a request to a connection does. A request that could
/// not be encoded leaves the connection as it was and returns its
/// error. An encoded one is sent: it is queued behind those sent
/// before and gets the next handle, or it is refused by a connection
/// that takes no more.
pub open spec fn submits_as(
    before: &Connection,
    after: &Connection,
    request: Result<Seq<u8>, Error>,
    handle: Result<Responses, Error>,
    kind: RequestKind,
) -> bool {
    match request {
        Err(e) => {
            &&& handle == Err::<Responses, Error>(e)
            &&& after@ == before@
            &&& after.queued() == before.queued()
            &&& after.kinds() == before.kinds()
        },
        Ok(bytes) => {
            &&& after@ == before@.step(Event::Send).0
            &&& if before@.accepts() {
                &&& handle matches Ok(responses)
                &&& responses.id == before@.submitted
                &&& after.queued() == before.queued().push(bytes)
                &&& after.kinds() == before.kinds().push(kind)
            } else {
                &&& handle matches Err(e)
                &&& e is Closed
                &&& after.queued() == before.queued()
                &&& after.kinds() == before.kinds()
            }
        },
    }
}

/// What handing a request that runs a statement to a connection does; see `submits_as`.
pub open spec fn submits(
    before: &Connection,
    after: &Connection,
    request: Result<Seq<u8>, Error>,
    handle: Result<Responses, Error>,
) -> bool {
    submits_as(before, after, request, handle, RequestKind::Query)
}

/// The handle of a stream, or the error in its place.
pub open spec fn stream_handle(r: Result<RowStream, Error>) -> Result<Responses, Error> {
    match r {
        Ok(stream) => Ok(stream.responses),
        Err(e) => Err(e),
    }
}

/// The handle of gathered rows, or the error in its place.
pub open spec fn rows_handle(r: Result<Rows, Error>) -> Result<Responses, Error> {
    match r {
        Ok(rows) => Ok(rows.stream.responses),
        Err(e) => Err(e),
    }
}

/// The handle of an only row, or the error in its place.
pub open spec fn one_handle(r: Result<OneRow, Error>) -> Result<Responses, Error> {
    match r {
        Ok(one) => Ok(one.rows.stream.responses),
        Err(e) => Err(e),
    }
}

/// The handle of an only row or none, or the error in its place.
pub open spec fn optional_handle(r: Result<OptionalRow, Error>) -> Result<Responses, Error> {
    match r {
        Ok(one) => Ok(one.rows.stream.responses),
        Err(e) => Err(e),
    }
}

/// The handle of a count, or the error in its place.
pub open spec fn execution_handle(r: Result<Execution, Error>) -> Result<Responses, Error> {
    match r {
        Ok(execution) => Ok(execution.responses),
        Err(e) => Err(e),
    }
}

/// Sends an encoded request. Its consumer starts before BindComplete,
/// which must be the first message that it reads.
pub fn start(client: &mut Connection, buf: Bytes) -> (r: Result<Responses, Error>)
    requires
        old(client).wf(),
    ensures
        final(client).wf(),
        submits(old(client), final(client), Ok(frozen(buf)), r),
{
    client.send(buf)
}

/// Sends the request that runs `statement` with `params`, and returns
/// the stream of its rows. Nothing is sent where the request cannot be encoded.
pub fn query<P: ToSql>(
    client: &mut Connection,
    statement: Arc<Statement>,
    params: &[P],
    param_formats: &[Format],
    column_formats: &[Format],
) -> (r: Result<RowStream, Error>)
    requires
        old(client).wf(),
    ensures
        final(client).wf(),
        submits(
            old(client),
            final(client),
            request_of(
                bind_result(
                    *statement,
                    params@,
                    param_formats@,
                    column_formats@,
                    Seq::<char>::empty(),
                ),
            ),
            stream_handle(r),
        ),
        r matches Ok(stream) ==> stream.statement == statement && stream.phase
            == Phase::AwaitingBindComplete,
{
    let buf = match encode(client, &statement, params, param_formats, column_formats) {
        Ok(buf) => buf,
        Err(e) => {
            return Err(e);
        },
    };
    match start(client, buf) {
        Ok(responses) => Ok(RowStream { statement, responses, phase: Phase::AwaitingBindComplete }),
        Err(e) => Err(e),
    }
}

/// Sends the request that fetches up to `max_rows` rows from a
/// portal, which is the Execute message alone, and returns the stream
/// of those rows. The portal is bound already, so the stream starts
/// behind BindComplete.
pub fn query_portal(client: &mut Connection, portal: &Portal, max_rows: i32) -> (r: Result<
    RowStream,
    Error,
>)
    requires
        old(client).wf(),
    ensures
        final(client).wf(),
        submits(old(client), final(client), fetch_of(portal.name@, max_rows), stream_handle(r)),
        r matches Ok(stream) ==> stream.statement == portal.statement && stream.phase
            == Phase::Streaming,
{
    let name = portal.name.as_str();
    if holds_zero(name.as_bytes()) || name.as_bytes().len() > MAX_LENGTH - 9 {
        return Err(Error::Encode);
    }
    let buf = client.buffer();
    if !put_execute(name, max_rows, buf) {
        return Err(Error::Encode);
    }
    assert(buffered(*buf) =~= execute_frame(portal.name@, max_rows));
    let buf = freeze_buffer(split_buffer(buf));
    match client.send(buf) {
        Ok(responses) => Ok(
            RowStream { statement: share(&portal.statement), responses, phase: Phase::Streaming },
        ),
        Err(e) => Err(e),
    }
}

/// Sends the request that runs `statement` with `params`, and returns
/// the count of the rows that it affects. Results are asked for in binary.
pub fn execute<P: ToSql>(
    client: &mut Connection,
    statement: Arc<Statement>,
    params: &[P],
    param_formats: &[Format],
) -> (r: Result<Execution, Error>)
    requires
        old(client).wf(),
    ensures
        final(client).wf(),
        submits(
            old(client),
            final(client),
            request_of(
                bind_result(
                    *statement,
                    params@,
                    param_formats@,
                    seq![Format::Binary],
                    Seq::<char>::empty(),
                ),
            ),
            execution_handle(r),
        ),
        r matches Ok(execution) ==> execution.phase == Phase::AwaitingBindComplete,
{
    let mut column_formats: Vec<Format> = Vec::new();
    column_formats.push(Format::Binary);
    assert(column_formats@ =~= seq![Format::Binary]);
    let buf = match encode(client, &statement, params, param_formats, column_formats.as_slice()) {
        Ok(buf) => buf,
        Err(e) => {
            return Err(e);
        },
    };
    match start(client, buf) {
        Ok(responses) => Ok(Execution { responses, phase: Phase::AwaitingBindComplete }),
        Err(e) => Err(e),
    }
}

/// A portal under whose name a Bind message can be framed can be
/// fetched from: the Execute message is the shorter one.
proof fn lemma_fetch_fits(
    portal: Seq<char>,
    statement: Seq<char>,
    formats: Seq<i16>,
    values: Seq<Option<Seq<u8>>>,
    result_formats: Seq<i16>,
)
    requires
        bind_fits(portal, statement, formats, values, result_formats),
    ensures
        execute_fits(portal),
{
}

/// The bytes that bind a portal and fetch from it at once: the Bind
/// message and Execute with a row limit, without Sync.
pub open spec fn bound_fetch_of(
    bound: Result<Seq<u8>, Error>,
    portal: Seq<char>,
    max_rows: i32,
) -> Result<Seq<u8>, Error> {
    match bound {
        Ok(frame) => Ok(frame + execute_frame(portal, max_rows)),
        Err(e) => Err(e),
    }
}

/// The bytes that bind `params` to `statement` under the name `portal`
/// and fetch up to `max_rows` rows from that portal: Bind and
/// Execute. No Sync follows, so the portal outlives the request. The
/// bytes are built in the connection's buffer, which is empty again
/// when the call returns, whether it failed or not; the connection is
/// otherwise untouched.
pub fn encode_fetch<P: ToSql>(
    client: &mut Connection,
    statement: &Statement,
    params: &[P],
    param_formats: &[Format],
    column_formats: &[Format],
    portal: &str,
    max_rows: i32,
) -> (r: Result<Bytes, Error>)
    requires
        old(client).wf(),
    ensures
        final(client).wf(),
        final(client)@ == old(client)@,
        final(client).queued() == old(client).queued(),
        final(client).kinds() == old(client).kinds(),
        match bound_fetch_of(
            bind_result(*statement, params@, param_formats@, column_formats@, portal@),
            portal@,
            max_rows,
        ) {
            Ok(request) => r matches Ok(bytes) && frozen(bytes) == request,
            Err(e) => r matches Err(f) && f == e,
        },
{
    let buf = client.buffer();
    match encode_bind(statement, params, param_formats, column_formats, portal, buf) {
        Err(e) => Err(e),
        Ok(()) => {
            proof {
                lemma_fetch_fits(
                    portal@,
                    statement.name@,
                    format_codes(param_formats@),
                    wire_values(encodings(statement.params@, params@, param_formats@)),
                    format_codes(column_formats@),
                );
            }
            if !put_execute(portal, max_rows, buf) {
                return Err(Error::Encode);
            }
            Ok(freeze_buffer(split_buffer(buf)))
        },
    }
}

/// The bytes of one request: Bind for the unnamed portal, Execute
/// without a row limit, and Sync. The bytes are built in the
/// connection's buffer, which is empty again when the call returns,
/// whether it failed or not; the connection is otherwise untouched.
pub fn encode<P: ToSql>(
    client: &mut Connection,
    statement: &Statement,
    params: &[P],
    param_formats: &[Format],
    column_formats: &[Format],
) -> (r: Result<Bytes, Error>)
    requires
        old(client).wf(),
    ensures
        final(client).wf(),
        final(client)@ == old(client)@,
        final(client).queued() == old(client).queued(),
        final(client).kinds() == old(client).kinds(),
        match request_of(
            bind_result(*statement, params@, param_formats@, column_formats@, Seq::<char>::empty()),
        ) {
            Ok(request) => r matches Ok(bytes) && frozen(bytes) == request,
            Err(e) => r matches Err(f) && f == e,
        },
{
    proof {
        reveal_strlit("");
        assert(""@ =~= Seq::<char>::empty());
    }
    let buf = client.buffer();
    match encode_bind(statement, params, param_formats, column_formats, "", buf) {
        Err(e) => Err(e),
        Ok(()) => {
            proof {
                lemma_fetch_fits(
                    ""@,
                    statement.name@,
                    format_codes(param_formats@),
                    wire_values(encodings(statement.params@, params@, param_formats@)),
                    format_codes(column_formats@),
                );
            }
            if !put_execute("", 0, buf) {
                return Err(Error::Encode);
            }
            put_sync(buf);
            Ok(freeze_buffer(split_buffer(buf)))
        },
    }
}

} // verus!
