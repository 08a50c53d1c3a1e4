//! The preparing of statements: the request that has the server
//! parse and describe a query, and the reading of its answer.

use bytes::Bytes;
use crate::connection::Connection;
use crate::connection::RequestKind;
use crate::connection::Responses;
use crate::error::reports;
use crate::error::Error;
use crate::message::BackendMessage;
use crate::query::holds_zero;
use crate::query::submits_as;
use crate::sqlstate::SqlStateRegistry;
use crate::stream::Poll;
use crate::types::Column;
use crate::types::Statement;
use crate::types::Type;
use crate::wire::buffered;
use crate::wire::describe_frame;
use crate::wire::freeze_buffer;
use crate::wire::frozen;
use crate::wire::parse_fits;
use crate::wire::parse_frame;
use crate::wire::put_describe;
use crate::wire::put_parse;
use crate::wire::put_sync;
use crate::wire::split_buffer;
use crate::wire::sync_frame;
use crate::wire::MAX_COUNT;
use crate::wire::MAX_LENGTH;
use vstd::prelude::*;
use vstd::string::StringExecFns;
use vstd::utf8::encode_utf8;

verus! {

/// The character of a decimal digit.
pub open spec fn digit_char(digit: int) -> char {
    if digit == 0 {
        '0'
    } else if digit == 1 {
        '1'
    } else if digit == 2 {
        '2'
    } else if digit == 3 {
        '3'
    } else if digit == 4 {
        '4'
    } else if digit == 5 {
        '5'
    } else if digit == 6 {
        '6'
    } else if digit == 7 {
        '7'
    } else if digit == 8 {
        '8'
    } else {
        '9'
    }
}

/// A number in decimal digits, without leading zeros.
pub open spec fn decimal_text(n: nat) -> Seq<char>
    decreases n,
{
    if n < 10 {
        seq![digit_char(n as int)]
    } else {
        decimal_text(n / 10) + seq![digit_char((n % 10) as int)]
    }
}

/// The name of the statement that the request with this number
/// prepares: the letter `s` and the number in decimal digits.
pub open spec fn named(id: u64) -> Seq<char> {
    seq!['s'] + decimal_text(id as nat)
}

/// A decimal digit as a text.
fn digit(value: u64) -> (text: &'static str)
    requires
        value < 10,
    ensures
        text@ == seq![digit_char(value as int)],
{
    proof {
        reveal_strlit("0");
        reveal_strlit("1");
        reveal_strlit("2");
        reveal_strlit("3");
        reveal_strlit("4");
        reveal_strlit("5");
        reveal_strlit("6");
        reveal_strlit("7");
        reveal_strlit("8");
        reveal_strlit("9");
    }
    let text = if value == 0 {
        "0"
    } else if value == 1 {
        "1"
    } else if value == 2 {
        "2"
    } else if value == 3 {
        "3"
    } else if value == 4 {
        "4"
    } else if value == 5 {
        "5"
    } else if value == 6 {
        "6"
    } else if value == 7 {
        "7"
    } else if value == 8 {
        "8"
    } else {
        "9"
    };
    assert(text@ =~= seq![digit_char(value as int)]);
    text
}

/// A number in decimal digits.
fn decimal(n: u64) -> (text: String)
    ensures
        text@ == decimal_text(n as nat),
    decreases n,
{
    if n < 10 {
        String::from_str(digit(n))
    } else {
        let mut text = decimal(n / 10);
        text.append(digit(n % 10));
        text
    }
}

/// The name of the statement that the request with this number prepares.
pub fn statement_name(id: u64) -> (name: String)
    ensures
        name@ == named(id),
{
    proof {
        reveal_strlit("s");
    }
    let mut name = String::from_str("s");
    assert(name@ =~= seq!['s']);
    name.append(decimal(id).as_str());
    name
}

/// The object identifier of each type.
pub open spec fn oids_of(types: Seq<Type>) -> Seq<u32> {
    Seq::new(types.len(), |i: int| types[i].oid)
}

/// The type of each object identifier.
pub open spec fn types_of(oids: Seq<u32>) -> Seq<Type> {
    Seq::new(oids.len(), |i: int| Type { oid: oids[i] })
}

/// The bytes of the request that prepares a query under a name:
/// Parse with the types that the caller fixes, Describe for the
/// statement, and Sync.
pub open spec fn prepare_request(name: Seq<char>, query: Seq<char>, types: Seq<Type>) -> Result<
    Seq<u8>,
    Error,
> {
    if parse_fits(name, query, oids_of(types)) {
        Ok(parse_frame(name, query, oids_of(types)) + describe_frame(name) + sync_frame())
    } else {
        Err(Error::Encode)
    }
}

/// The object identifier of each type, in order.
fn oids(types: &[Type]) -> (oids: Vec<u32>)
    ensures
        oids@ == oids_of(types@),
{
    let mut oids: Vec<u32> = Vec::new();
    let mut i: usize = 0;
    while i < types.len()
        invariant
            i <= types.len(),
            oids@ == oids_of(types@.take(i as int)),
        decreases types.len() - i,
    {
        oids.push(types[i].oid);
        i += 1;
        assert(oids@ =~= oids_of(types@.take(i as int)));
    }
    assert(types@.take(types.len() as int) =~= types@);
    oids
}

/// The type of each object identifier, in order.
fn types(oids: &Vec<u32>) -> (types: Vec<Type>)
    ensures
        types@ == types_of(oids@),
{
    let mut types: Vec<Type> = Vec::new();
    let mut i: usize = 0;
    while i < oids.len()
        invariant
            i <= oids.len(),
            types@ == types_of(oids@.take(i as int)),
        decreases oids.len() - i,
    {
        types.push(Type { oid: oids[i] });
        i += 1;
        assert(types@ =~= types_of(oids@.take(i as int)));
    }
    assert(oids@.take(oids.len() as int) =~= oids@);
    types
}

/// The bytes of the request that prepares `query` under `name`. The
/// bytes are built in the connection's buffer, which is empty again
/// when the call returns, whether it failed or not; the connection is
/// otherwise untouched.
pub fn encode_prepare(client: &mut Connection, name: &str, query: &str, types: &[Type]) -> (r: Result<
    Bytes,
    Error,
>)
    requires
        old(client).wf(),
    ensures
        final(client).wf(),
        final(client)@ == old(client)@,
        final(client).queued() == old(client).queued(),
        final(client).kinds() == old(client).kinds(),
        match prepare_request(name@, query@, types@) {
            Ok(request) => r matches Ok(bytes) && frozen(bytes) == request,
            Err(e) => r matches Err(f) && f == e,
        },
{
    let head = name.as_bytes().len();
    let body = query.as_bytes().len();
    assert(head == encode_utf8(name@).len() && body == encode_utf8(query@).len());
    if holds_zero(name.as_bytes()) || holds_zero(query.as_bytes()) || types.len() > MAX_COUNT
        || head > MAX_LENGTH || body > MAX_LENGTH {
        return Err(Error::Encode);
    }
    if 8 + head as u64 + body as u64 + 4 * (types.len() as u64) > MAX_LENGTH as u64 {
        return Err(Error::Encode);
    }
    let oids = oids(types);
    let buf = client.buffer();
    if !put_parse(name, query, &oids, buf) {
        return Err(Error::Encode);
    }
    if !put_describe(name, buf) {
        return Err(Error::Encode);
    }
    put_sync(buf);
    assert(buffered(*buf) =~= parse_frame(name@, query@, oids@) + describe_frame(name@)
        + sync_frame());
    Ok(freeze_buffer(split_buffer(buf)))
}

/// Where the reading of a preparation's answer stands.
#[derive(Clone, Copy, Debug, PartialEq, Eq, Structural)]
pub enum PreparePhase {
    /// Nothing was read yet; the first message must be ParseComplete.
    AwaitingParseComplete,
    /// The types of the parameters come next.
    AwaitingParameters,
    /// The columns come next, or the notice that there are none.
    AwaitingColumns,
    /// The answer ended.
    Done,
    /// A message arrived that the protocol does not allow here.
    Failed,
}

/// The phase that follows a message: the answer is ParseComplete, the
/// types of the parameters, and the columns or the notice that there
/// are none. An error report ends it, any other message fails it, and
/// an ended or failed reading stays as it is.
pub open spec fn next_prepare_phase(phase: PreparePhase, message: BackendMessage) -> PreparePhase {
    match phase {
        PreparePhase::AwaitingParseComplete => match message {
            BackendMessage::ParseComplete => PreparePhase::AwaitingParameters,
            BackendMessage::ErrorResponse(_) => PreparePhase::Done,
            _ => PreparePhase::Failed,
        },
        PreparePhase::AwaitingParameters => match message {
            BackendMessage::ParameterDescription(_) => PreparePhase::AwaitingColumns,
            BackendMessage::ErrorResponse(_) => PreparePhase::Done,
            _ => PreparePhase::Failed,
        },
        PreparePhase::AwaitingColumns => match message {
            BackendMessage::RowDescription(_) => PreparePhase::Done,
            BackendMessage::NoData => PreparePhase::Done,
            BackendMessage::ErrorResponse(_) => PreparePhase::Done,
            _ => PreparePhase::Failed,
        },
        PreparePhase::Done => PreparePhase::Done,
        PreparePhase::Failed => PreparePhase::Failed,
    }
}

/// Whether `item` and `kept` are what the reading of a preparation
/// in `phase` makes of `message`, for the statement name `name` and
/// with the parameter types `had` read before: the types are kept as
/// they come, the columns complete the statement, and an error comes
/// for an error report and for a message out of place.
pub open spec fn prepares(
    registry: &SqlStateRegistry,
    name: Seq<char>,
    phase: PreparePhase,
    had: Seq<Type>,
    message: BackendMessage,
    item: Poll<Result<Statement, Error>>,
    kept: Seq<Type>,
) -> bool {
    match (phase, message) {
        (PreparePhase::Done, _) => item is Pending && kept == had,
        (PreparePhase::Failed, _) => item is Pending && kept == had,
        (_, BackendMessage::ErrorResponse(fields)) => item matches Poll::Ready(Err(e)) && reports(
            registry,
            fields@,
            e,
        ) && kept == had,
        (PreparePhase::AwaitingParseComplete, BackendMessage::ParseComplete) => item is Pending
            && kept == had,
        (PreparePhase::AwaitingParameters, BackendMessage::ParameterDescription(oids)) => item
            is Pending && kept == types_of(oids@),
        (PreparePhase::AwaitingColumns, BackendMessage::RowDescription(columns)) => {
            &&& item matches Poll::Ready(Ok(statement))
            &&& statement.name@ == name
            &&& statement.params@ == had
            &&& statement.columns == columns
        },
        (PreparePhase::AwaitingColumns, BackendMessage::NoData) => {
            &&& item matches Poll::Ready(Ok(statement))
            &&& statement.name@ == name
            &&& statement.params@ == had
            &&& statement.columns@.len() == 0
        },
        _ => item matches Poll::Ready(Err(e)) && e is UnexpectedMessage && kept == had,
    }
}

/// A statement in the making, read off the messages of the request that prepares it.
#[derive(Debug)]
pub struct Preparation {
    pub responses: Responses,
    pub name: String,
    pub params: Vec<Type>,
    pub phase: PreparePhase,
}

impl Preparation {
    /// The statement with what was read of it and the given columns.
    fn finish(&mut self, columns: Vec<Column>) -> (statement: Statement)
        ensures
            statement.name@ == old(self).name@,
            statement.params@ == old(self).params@,
            statement.columns == columns,
            final(self).responses == old(self).responses,
            final(self).phase == old(self).phase,
    {
        let mut name = String::new();
        let mut params: Vec<Type> = Vec::new();
        std::mem::swap(&mut name, &mut self.name);
        std::mem::swap(&mut params, &mut self.params);
        Statement { name, params, columns }
    }

    /// Takes the next message of the request and says what there is
    /// for the caller: the statement, an error, or nothing yet.
    pub fn poll(&mut self, message: BackendMessage, registry: &SqlStateRegistry) -> (item: Poll<
        Result<Statement, Error>,
    >)
        ensures
            final(self).responses == old(self).responses,
            final(self).phase == next_prepare_phase(old(self).phase, message),
            prepares(
                registry,
                old(self).name@,
                old(self).phase,
                old(self).params@,
                message,
                item,
                final(self).params@,
            ),
    {
        match self.phase {
            PreparePhase::Done => Poll::Pending,
            PreparePhase::Failed => Poll::Pending,
            PreparePhase::AwaitingParseComplete => match message {
                BackendMessage::ParseComplete => {
                    self.phase = PreparePhase::AwaitingParameters;
                    Poll::Pending
                },
                BackendMessage::ErrorResponse(fields) => {
                    self.phase = PreparePhase::Done;
                    Poll::Ready(Err(Error::db(fields, registry)))
                },
                _ => {
                    self.phase = PreparePhase::Failed;
                    Poll::Ready(Err(Error::UnexpectedMessage))
                },
            },
            PreparePhase::AwaitingParameters => match message {
                BackendMessage::ParameterDescription(oids) => {
                    self.params = types(&oids);
                    self.phase = PreparePhase::AwaitingColumns;
                    Poll::Pending
                },
                BackendMessage::ErrorResponse(fields) => {
                    self.phase = PreparePhase::Done;
                    Poll::Ready(Err(Error::db(fields, registry)))
                },
                _ => {
                    self.phase = PreparePhase::Failed;
                    Poll::Ready(Err(Error::UnexpectedMessage))
                },
            },
            PreparePhase::AwaitingColumns => match message {
                BackendMessage::RowDescription(columns) => {
                    let statement = self.finish(columns);
                    self.phase = PreparePhase::Done;
                    Poll::Ready(Ok(statement))
                },
                BackendMessage::NoData => {
                    let statement = self.finish(Vec::new());
                    self.phase = PreparePhase::Done;
                    Poll::Ready(Ok(statement))
                },
                BackendMessage::ErrorResponse(fields) => {
                    self.phase = PreparePhase::Done;
                    Poll::Ready(Err(Error::db(fields, registry)))
                },
                _ => {
                    self.phase = PreparePhase::Failed;
                    Poll::Ready(Err(Error::UnexpectedMessage))
                },
            },
        }
    }
}

/// The handle of a preparation, or the error in its place.
pub open spec fn preparation_handle(r: Result<Preparation, Error>) -> Result<Responses, Error> {
    match r {
        Ok(preparation) => Ok(preparation.responses),
        Err(e) => Err(e),
    }
}

/// Sends the request that prepares `query`, with the types of its
/// first parameters fixed by the caller, and returns the reading of
/// its answer. The statement is named after the number of the
/// request. Nothing is sent where the request cannot be encoded.
pub fn prepare_typed(client: &mut Connection, query: &str, parameter_types: &[Type]) -> (r: Result<
    Preparation,
    Error,
>)
    requires
        old(client).wf(),
    ensures
        final(client).wf(),
        submits_as(
            old(client),
            final(client),
            prepare_request(named(old(client)@.submitted), query@, parameter_types@),
            preparation_handle(r),
            RequestKind::Prepare,
        ),
        r matches Ok(preparation) ==> preparation.name@ == named(old(client)@.submitted)
            && preparation.params@.len() == 0 && preparation.phase
            == PreparePhase::AwaitingParseComplete,
{
    let name = statement_name(client.next_id());
    let buf = match encode_prepare(client, name.as_str(), query, parameter_types) {
        Ok(buf) => buf,
        Err(e) => {
            return Err(e);
        },
    };
    match client.send_as(buf, RequestKind::Prepare) {
        Ok(responses) => Ok(
            Preparation {
                responses,
                name,
                params: Vec::new(),
                phase: PreparePhase::AwaitingParseComplete,
            },
        ),
        Err(e) => Err(e),
    }
}

/// Sends the request that prepares `query`, with the types of all its
/// parameters left to the server; see `prepare_typed`.
pub fn prepare(client: &mut Connection, query: &str) -> (r: Result<Preparation, Error>)
    requires
        old(client).wf(),
    ensures
        final(client).wf(),
        submits_as(
            old(client),
            final(client),
            prepare_request(named(old(client)@.submitted), query@, Seq::<Type>::empty()),
            preparation_handle(r),
            RequestKind::Prepare,
        ),
        r matches Ok(preparation) ==> preparation.name@ == named(old(client)@.submitted)
            && preparation.params@.len() == 0 && preparation.phase
            == PreparePhase::AwaitingParseComplete,
{
    let none: Vec<Type> = Vec::new();
    prepare_typed(client, query, none.as_slice())
}

} // verus!
