//! The consumers of one request's messages: the stream of rows and
//! the count of affected rows.

use crate::connection::Responses;
use crate::error::Error;
use crate::error::reports;
use crate::message::BackendMessage;
use crate::message::ErrorField;
use crate::sqlstate::SqlStateRegistry;
use crate::types::Column;
use crate::types::share;
use crate::types::Statement;
use std::sync::Arc;
use vstd::prelude::*;
use crate::text::chars_of;
use crate::text::is_space;
use crate::text::space;
use vstd::utf8::decode_utf8;
use vstd::utf8::encode_utf8;
use vstd::utf8::encode_utf8_decode_utf8;
use vstd::utf8::valid_utf8;

verus! {

/// Where a consumer stands in the messages of its request.
#[derive(Clone, Copy, Debug, PartialEq, Eq, Structural)]
pub enum Phase {
    /// Nothing was read yet; the first message must be BindComplete.
    AwaitingBindComplete,
    /// Rows may follow.
    Streaming,
    /// The request ended.
    Done,
    /// A message arrived that the protocol does not allow here.
    Failed,
}

/// What a consumer has for its caller after one message.
#[derive(Debug)]
pub enum Poll<T> {
    Ready(T),
    /// Nothing yet: the next message will tell.
    Pending,
}

/// One row of a result: the statement that describes its columns, and a value for each column.
#[derive(Debug)]
pub struct Row {
    pub statement: Arc<Statement>,
    pub cells: Vec<Option<Vec<u8>>>,
}

impl Row {
    /// The columns of the row: those of its statement, whatever the cells hold.
    pub fn columns(&self) -> (columns: &[Column])
        ensures
            columns@ == self.statement.columns@,
    {
        self.statement.columns()
    }

    /// The number of values in the row.
    pub fn len(&self) -> (n: usize)
        ensures
            n == self.cells@.len(),
    {
        self.cells.len()
    }

    /// Whether the row has no value.
    pub fn is_empty(&self) -> (empty: bool)
        ensures
            empty == (self.cells@.len() == 0),
    {
        self.cells.len() == 0
    }

    /// The bytes of the value at `at`: none where the value is `NULL`
    /// and none where the row is shorter.
    pub fn get(&self, at: usize) -> (value: Option<&[u8]>)
        ensures
            match value {
                Some(bytes) => at < self.cells@.len() && self.cells@[at as int] is Some
                    && bytes@ == self.cells@[at as int]->0@,
                None => at >= self.cells@.len() || self.cells@[at as int] is None,
            },
    {
        if at >= self.cells.len() {
            return None;
        }
        match &self.cells[at] {
            Some(cell) => Some(cell.as_slice()),
            None => None,
        }
    }
}

/// The only row of a result that may have one row or none: more rows are an error.
pub fn at_most_one(rows: Vec<Row>) -> (r: Result<Option<Row>, Error>)
    ensures
        rows@.len() == 0 ==> r matches Ok(None),
        rows@.len() == 1 ==> (r matches Ok(Some(row)) && row == rows@[0]),
        rows@.len() > 1 ==> (r matches Err(e) && e is RowCount),
{
    let mut rows = rows;
    if rows.len() > 1 {
        return Err(Error::RowCount);
    }
    Ok(rows.pop())
}

/// The only row of a result that must have exactly one row: no row and more rows are errors.
pub fn exactly_one(rows: Vec<Row>) -> (r: Result<Row, Error>)
    ensures
        rows@.len() == 1 ==> (r matches Ok(row) && row == rows@[0]),
        rows@.len() != 1 ==> (r matches Err(e) && e is RowCount),
{
    match at_most_one(rows) {
        Ok(Some(row)) => Ok(row),
        Ok(None) => Err(Error::RowCount),
        Err(e) => Err(e),
    }
}

/// `std::str::from_utf8`: the bytes as a text, where they are
/// well-formed UTF-8, and nothing where they are not.
#[verifier::external_body]
pub(crate) fn as_text<'a>(bytes: &'a [u8]) -> (text: Option<&'a str>)
    ensures
        text is Some <==> valid_utf8(bytes@),
        text matches Some(tag) ==> encode_utf8(tag@) == bytes@,
{
    std::str::from_utf8(bytes).ok()
}

/// The value of a run of decimal digits, which are the characters
/// from `0`, with the code 48, to `9`; none where a character is no digit.
pub open spec fn decimal(digits: Seq<char>) -> Option<nat>
    decreases digits.len(),
{
    if digits.len() == 0 {
        Some(0)
    } else {
        match decimal(digits.drop_last()) {
            Some(value) if 48 <= digits.last() as u32 <= 57 => Some(
                value * 10 + (digits.last() as u32 - 48) as nat,
            ),
            _ => None,
        }
    }
}

/// The number that a token stands for: decimal digits, after at most
/// one `+`, with a value that fits in 64 bits. Any other token counts as zero.
pub open spec fn count_of(token: Seq<char>) -> u64 {
    let digits = if token.len() > 0 && token[0] == '+' {
        token.skip(1)
    } else {
        token
    };
    match decimal(digits) {
        Some(value) if digits.len() > 0 && value <= u64::MAX => value as u64,
        _ => 0,
    }
}

/// Where the white space at the end of a tag begins: behind the last
/// character that is no white space, or at the start of a tag that has none.
pub open spec fn token_end(tag: Seq<char>) -> int
    decreases tag.len(),
{
    if tag.len() == 0 {
        0
    } else if !is_space(tag.last()) {
        tag.len() as int
    } else {
        token_end(tag.drop_last())
    }
}

/// Where the last token of a text begins that ends in no white space:
/// behind its last white space, or at its start.
pub open spec fn token_start(tag: Seq<char>) -> int
    decreases tag.len(),
{
    if tag.len() == 0 {
        0
    } else if is_space(tag.last()) {
        tag.len() as int
    } else {
        token_start(tag.drop_last())
    }
}

/// The last token of a tag: what stands between white space, or the
/// tag's start, and the white space at the tag's end, or the tag's end.
pub open spec fn last_token(tag: Seq<char>) -> Seq<char> {
    let body = tag.take(token_end(tag));
    body.skip(token_start(body))
}

/// The number of rows that a command tag reports: its last token
/// where that is a number, and zero where it is not or where the tag
/// has no token.
pub open spec fn rows_of(tag: Seq<char>) -> u64 {
    count_of(last_token(tag))
}

/// The value of a run of digits is at least the value of each of its beginnings.
proof fn lemma_decimal_grows(digits: Seq<char>, upto: int)
    requires
        0 <= upto <= digits.len(),
        decimal(digits) is Some,
    ensures
        decimal(digits.take(upto)) matches Some(value) && value <= decimal(digits)->0,
    decreases digits.len() - upto,
{
    if upto == digits.len() {
        assert(digits.take(upto) =~= digits);
    } else {
        lemma_decimal_grows(digits.drop_last(), upto);
        assert(digits.drop_last().take(upto) =~= digits.take(upto));
    }
}

/// The number that a token stands for.
fn parse_count(token: &[char]) -> (count: u64)
    ensures
        count == count_of(token@),
{
    let from: usize = if token.len() > 0 && token[0] == '+' {
        1
    } else {
        0
    };
    let ghost digits = token@.skip(from as int);
    assert(token@.skip(0) =~= token@);
    if from == token.len() {
        return 0;
    }
    let mut value: u64 = 0;
    let mut i: usize = from;
    assert(digits.take(0) =~= Seq::<char>::empty());
    while i < token.len()
        invariant
            from <= i <= token.len(),
            digits == token@.skip(from as int),
            digits == (if token@.len() > 0 && token@[0] == '+' {
                token@.skip(1)
            } else {
                token@
            }),
            decimal(digits.take(i - from)) == Some(value as nat),
        decreases token.len() - i,
    {
        let code = token[i] as u32;
        proof {
            assert(digits.take(i - from + 1).drop_last() =~= digits.take(i - from));
            assert(digits.take(i - from + 1).last() == token@[i as int]);
            if decimal(digits) is Some {
                lemma_decimal_grows(digits, i - from + 1);
            }
        }
        if code < 48 || code > 57 {
            return 0;
        }
        let digit = (code - 48) as u64;
        if value > (u64::MAX - digit) / 10 {
            return 0;
        }
        value = value * 10 + digit;
        i += 1;
    }
    assert(digits.take(token.len() - from) =~= digits);
    value
}

/// The number of rows that a command tag reports.
pub fn rows_affected(tag: &str) -> (rows: u64)
    ensures
        rows == rows_of(tag@),
{
    let chars = chars_of(tag);
    let mut end: usize = chars.len();
    assert(chars@.take(end as int) =~= chars@);
    while end > 0 && space(chars[end - 1])
        invariant
            end <= chars.len(),
            token_end(chars@) == token_end(chars@.take(end as int)),
        decreases end,
    {
        assert(chars@.take(end as int).drop_last() =~= chars@.take(end - 1));
        end -= 1;
    }
    let ghost body = chars@.take(end as int);
    assert(token_end(chars@) == end);
    let mut from: usize = end;
    assert(body.take(from as int) =~= body);
    while from > 0 && !space(chars[from - 1])
        invariant
            from <= end <= chars.len(),
            body == chars@.take(end as int),
            token_start(body) == token_start(body.take(from as int)),
        decreases from,
    {
        assert(body.take(from as int).drop_last() =~= body.take(from - 1));
        from -= 1;
    }
    assert(token_start(body) == from);
    let token = vstd::slice::slice_subrange(chars.as_slice(), from, end);
    assert(token@ =~= body.skip(from as int));
    parse_count(token)
}

/// What the end of a command reports: the rows of its tag, or a parse
/// error where the tag is not text.
pub open spec fn command_result(tag: Seq<u8>) -> Result<u64, Error> {
    if valid_utf8(tag) {
        Ok(rows_of(decode_utf8(tag)))
    } else {
        Err(Error::Parse)
    }
}

/// The phase that follows a message: BindComplete opens the stream;
/// in the stream a row changes nothing and the end of a command, an
/// empty query, a suspended portal or an error report ends it. Any
/// other message fails the consumer, and an ended or failed one stays
/// as it is. `suspendable` says whether a suspended portal is an end.
pub open spec fn next_phase(phase: Phase, message: BackendMessage, suspendable: bool) -> Phase {
    match phase {
        Phase::AwaitingBindComplete => match message {
            BackendMessage::BindComplete => Phase::Streaming,
            _ => Phase::Failed,
        },
        Phase::Streaming => match message {
            BackendMessage::DataRow(_) => Phase::Streaming,
            BackendMessage::CommandComplete(_) => Phase::Done,
            BackendMessage::EmptyQueryResponse => Phase::Done,
            BackendMessage::ErrorResponse(_) => Phase::Done,
            BackendMessage::PortalSuspended => if suspendable {
                Phase::Done
            } else {
                Phase::Failed
            },
            _ => Phase::Failed,
        },
        Phase::Done => Phase::Done,
        Phase::Failed => Phase::Failed,
    }
}

/// The phase that a consumer reaches from `phase` by reading the messages in order.
pub open spec fn phase_after(phase: Phase, messages: Seq<BackendMessage>, suspendable: bool) -> Phase
    decreases messages.len(),
{
    if messages.len() == 0 {
        phase
    } else {
        next_phase(phase_after(phase, messages.drop_last(), suspendable), messages.last(), suspendable)
    }
}

/// While only rows follow BindComplete, the stream is streaming: it
/// meets each of them where it hands a row out.
pub proof fn lemma_rows_keep_the_stream_open(messages: Seq<BackendMessage>, at: int)
    requires
        0 < at <= messages.len(),
        messages[0] is BindComplete,
        forall|i: int| 0 < i < at ==> #[trigger] messages[i] is DataRow,
    ensures
        phase_after(Phase::AwaitingBindComplete, messages.take(at), true) == Phase::Streaming,
    decreases at,
{
    let first = messages.take(at);
    assert(first.last() == messages[at - 1]);
    if at > 1 {
        lemma_rows_keep_the_stream_open(messages, at - 1);
        assert(first.drop_last() =~= messages.take(at - 1));
    } else {
        assert(first.drop_last() =~= Seq::<BackendMessage>::empty());
        assert(phase_after(Phase::AwaitingBindComplete, first.drop_last(), true)
            == Phase::AwaitingBindComplete);
    }
}

/// A result set, which is BindComplete, then rows, then the end of the
/// command, is read through: the stream is streaming when it meets
/// the end, which it reports without an error, and then it is done.
pub proof fn lemma_result_set_is_read_through(messages: Seq<BackendMessage>)
    requires
        messages.len() >= 2,
        messages[0] is BindComplete,
        forall|i: int| 0 < i < messages.len() - 1 ==> #[trigger] messages[i] is DataRow,
        messages.last() is CommandComplete,
    ensures
        phase_after(Phase::AwaitingBindComplete, messages.drop_last(), true) == Phase::Streaming,
        phase_after(Phase::AwaitingBindComplete, messages, true) == Phase::Done,
{
    lemma_rows_keep_the_stream_open(messages, messages.len() - 1);
    assert(messages.drop_last() =~= messages.take(messages.len() - 1));
}

/// An error report behind BindComplete is met while the stream is
/// streaming, where it gives the one error that the report turns
/// into, and it ends the stream.
pub proof fn lemma_error_report_ends_the_stream(fields: Vec<ErrorField>)
    ensures
        phase_after(
            Phase::AwaitingBindComplete,
            seq![BackendMessage::BindComplete],
            true,
        ) == Phase::Streaming,
        phase_after(
            Phase::AwaitingBindComplete,
            seq![BackendMessage::BindComplete, BackendMessage::ErrorResponse(fields)],
            true,
        ) == Phase::Done,
{
    let one = seq![BackendMessage::BindComplete];
    let two = seq![BackendMessage::BindComplete, BackendMessage::ErrorResponse(fields)];
    lemma_rows_keep_the_stream_open(two, 1);
    assert(two.take(1) =~= one);
    assert(two.drop_last() =~= one);
}

/// Whether `item` is what a row stream in `phase` has for its caller
/// after `message`: each row as it comes, one error for an error
/// report or for a message out of place, and the end.
pub open spec fn streams(
    registry: &SqlStateRegistry,
    statement: Arc<Statement>,
    phase: Phase,
    message: BackendMessage,
    item: Poll<Option<Result<Row, Error>>>,
) -> bool {
    match phase {
        Phase::AwaitingBindComplete => match message {
            BackendMessage::BindComplete => item is Pending,
            _ => item matches Poll::Ready(Some(Err(e))) && e is UnexpectedMessage,
        },
        Phase::Streaming => match message {
            BackendMessage::DataRow(cells) => item matches Poll::Ready(Some(Ok(row)))
                && row.statement == statement && row.cells == cells,
            BackendMessage::CommandComplete(_) => item matches Poll::Ready(None),
            BackendMessage::EmptyQueryResponse => item matches Poll::Ready(None),
            BackendMessage::PortalSuspended => item matches Poll::Ready(None),
            BackendMessage::ErrorResponse(fields) => item matches Poll::Ready(Some(Err(e)))
                && reports(registry, fields@, e),
            _ => item matches Poll::Ready(Some(Err(e))) && e is UnexpectedMessage,
        },
        _ => item matches Poll::Ready(None),
    }
}

/// Whether `item` is what the count of affected rows in `phase` makes
/// of `message`: nothing while rows pass, then the rows that the
/// command's tag reports, zero for an empty query, or the error.
pub open spec fn counts(
    registry: &SqlStateRegistry,
    phase: Phase,
    message: BackendMessage,
    item: Poll<Result<u64, Error>>,
) -> bool {
    match phase {
        Phase::AwaitingBindComplete => match message {
            BackendMessage::BindComplete => item is Pending,
            _ => item matches Poll::Ready(Err(e)) && e is UnexpectedMessage,
        },
        Phase::Streaming => match message {
            BackendMessage::DataRow(_) => item is Pending,
            BackendMessage::CommandComplete(tag) => match command_result(tag@) {
                Ok(rows) => item matches Poll::Ready(Ok(n)) && n == rows,
                Err(_) => item matches Poll::Ready(Err(e)) && e is Parse,
            },
            BackendMessage::EmptyQueryResponse => item matches Poll::Ready(Ok(n)) && n == 0,
            BackendMessage::ErrorResponse(fields) => item matches Poll::Ready(Err(e)) && reports(
                registry,
                fields@,
                e,
            ),
            _ => item matches Poll::Ready(Err(e)) && e is UnexpectedMessage,
        },
        _ => item is Pending,
    }
}

/// The rows of one request, one after the other, as its messages arrive.
#[derive(Debug)]
pub struct RowStream {
    pub statement: Arc<Statement>,
    pub responses: Responses,
    pub phase: Phase,
}

impl RowStream {
    /// Takes the next message of the request and says what the
    /// stream has for its caller: a row, an error, the end, or nothing yet.
    pub fn poll_next(&mut self, message: BackendMessage, registry: &SqlStateRegistry) -> (item:
        Poll<Option<Result<Row, Error>>>)
        ensures
            final(self).statement == old(self).statement,
            final(self).responses == old(self).responses,
            final(self).phase == next_phase(old(self).phase, message, true),
            streams(registry, old(self).statement, old(self).phase, message, item),
    {
        match self.phase {
            Phase::AwaitingBindComplete => match message {
                BackendMessage::BindComplete => {
                    self.phase = Phase::Streaming;
                    Poll::Pending
                },
                _ => {
                    self.phase = Phase::Failed;
                    Poll::Ready(Some(Err(Error::UnexpectedMessage)))
                },
            },
            Phase::Streaming => match message {
                BackendMessage::DataRow(cells) => Poll::Ready(
                    Some(Ok(Row { statement: share(&self.statement), cells })),
                ),
                BackendMessage::EmptyQueryResponse
                | BackendMessage::CommandComplete(_)
                | BackendMessage::PortalSuspended => {
                    self.phase = Phase::Done;
                    Poll::Ready(None)
                },
                BackendMessage::ErrorResponse(fields) => {
                    self.phase = Phase::Done;
                    Poll::Ready(Some(Err(Error::db(fields, registry))))
                },
                _ => {
                    self.phase = Phase::Failed;
                    Poll::Ready(Some(Err(Error::UnexpectedMessage)))
                },
            },
            _ => Poll::Ready(None),
        }
    }
}

/// Whether `item` and `kept` are what gathering the rows of a stream
/// in `phase` makes of `message`, with the rows `had` gathered before:
/// a row is kept behind those that came before it, the end hands out
/// all of them in the order in which they came, and an error comes in
/// their place.
pub open spec fn gathers(
    registry: &SqlStateRegistry,
    statement: Arc<Statement>,
    phase: Phase,
    had: Seq<Row>,
    message: BackendMessage,
    item: Poll<Result<Vec<Row>, Error>>,
    kept: Seq<Row>,
) -> bool {
    match phase {
        Phase::AwaitingBindComplete => match message {
            BackendMessage::BindComplete => item is Pending && kept == had,
            _ => item matches Poll::Ready(Err(e)) && e is UnexpectedMessage && kept == had,
        },
        Phase::Streaming => match message {
            BackendMessage::DataRow(cells) => {
                &&& item is Pending
                &&& kept.len() == had.len() + 1
                &&& kept.drop_last() == had
                &&& kept.last().statement == statement
                &&& kept.last().cells == cells
            },
            BackendMessage::CommandComplete(_) => item matches Poll::Ready(Ok(rows)) && rows@
                == had && kept.len() == 0,
            BackendMessage::EmptyQueryResponse => item matches Poll::Ready(Ok(rows)) && rows@
                == had && kept.len() == 0,
            BackendMessage::PortalSuspended => item matches Poll::Ready(Ok(rows)) && rows@ == had
                && kept.len() == 0,
            BackendMessage::ErrorResponse(fields) => item matches Poll::Ready(Err(e)) && reports(
                registry,
                fields@,
                e,
            ) && kept == had,
            _ => item matches Poll::Ready(Err(e)) && e is UnexpectedMessage && kept == had,
        },
        _ => item matches Poll::Ready(Ok(rows)) && rows@ == had && kept.len() == 0,
    }
}

/// The rows of one request, gathered until the request ends.
#[derive(Debug)]
pub struct Rows {
    pub stream: RowStream,
    pub rows: Vec<Row>,
}

impl Rows {
    /// Gathers the rows of a stream, starting with none.
    pub fn new(stream: RowStream) -> (rows: Rows)
        ensures
            rows.stream == stream,
            rows.rows@.len() == 0,
    {
        Rows { stream, rows: Vec::new() }
    }

    /// Takes the next message of the request: a row is kept, and the
    /// end of the result hands out all rows in the order in which they came.
    pub fn poll(&mut self, message: BackendMessage, registry: &SqlStateRegistry) -> (item: Poll<
        Result<Vec<Row>, Error>,
    >)
        ensures
            final(self).stream.statement == old(self).stream.statement,
            final(self).stream.responses == old(self).stream.responses,
            final(self).stream.phase == next_phase(old(self).stream.phase, message, true),
            gathers(
                registry,
                old(self).stream.statement,
                old(self).stream.phase,
                old(self).rows@,
                message,
                item,
                final(self).rows@,
            ),
    {
        match self.stream.poll_next(message, registry) {
            Poll::Pending => Poll::Pending,
            Poll::Ready(Some(Ok(row))) => {
                self.rows.push(row);
                assert(self.rows@.drop_last() =~= old(self).rows@);
                Poll::Pending
            },
            Poll::Ready(Some(Err(e))) => Poll::Ready(Err(e)),
            Poll::Ready(None) => {
                let mut rows: Vec<Row> = Vec::new();
                std::mem::swap(&mut rows, &mut self.rows);
                Poll::Ready(Ok(rows))
            },
        }
    }
}

/// Whether `item` is what a caller who allows one row at most has of
/// gathered rows: nothing while they are gathered, the error in their
/// place, the only row or none, and an error for more rows than one.
pub open spec fn allows_one(gathered: Poll<Result<Vec<Row>, Error>>, item: Poll<
    Result<Option<Row>, Error>,
>) -> bool {
    match gathered {
        Poll::Pending => item is Pending,
        Poll::Ready(Err(e)) => item matches Poll::Ready(Err(f)) && f == e,
        Poll::Ready(Ok(rows)) => if rows@.len() == 0 {
            item matches Poll::Ready(Ok(None))
        } else if rows@.len() == 1 {
            item matches Poll::Ready(Ok(Some(row))) && row == rows@[0]
        } else {
            item matches Poll::Ready(Err(e)) && e is RowCount
        },
    }
}

/// Whether `item` is what a caller who asks for exactly one row has of
/// gathered rows: nothing while they are gathered, the error in their
/// place, the only row, and an error for no row and for more than one.
pub open spec fn asks_one(gathered: Poll<Result<Vec<Row>, Error>>, item: Poll<Result<Row, Error>>) -> bool {
    match gathered {
        Poll::Pending => item is Pending,
        Poll::Ready(Err(e)) => item matches Poll::Ready(Err(f)) && f == e,
        Poll::Ready(Ok(rows)) => if rows@.len() == 1 {
            item matches Poll::Ready(Ok(row)) && row == rows@[0]
        } else {
            item matches Poll::Ready(Err(e)) && e is RowCount
        },
    }
}

/// The only row of one request, which may give one row or none.
#[derive(Debug)]
pub struct OptionalRow {
    pub rows: Rows,
}

impl OptionalRow {
    /// Takes the next message of the request: the rows are gathered,
    /// and the end of the result hands out the only row or none.
    pub fn poll(&mut self, message: BackendMessage, registry: &SqlStateRegistry) -> (item: Poll<
        Result<Option<Row>, Error>,
    >)
        ensures
            final(self).rows.stream.statement == old(self).rows.stream.statement,
            final(self).rows.stream.responses == old(self).rows.stream.responses,
            final(self).rows.stream.phase == next_phase(old(self).rows.stream.phase, message, true),
            exists|gathered: Poll<Result<Vec<Row>, Error>>| #[trigger]
                gathers(
                    registry,
                    old(self).rows.stream.statement,
                    old(self).rows.stream.phase,
                    old(self).rows.rows@,
                    message,
                    gathered,
                    final(self).rows.rows@,
                ) && allows_one(gathered, item),
    {
        match self.rows.poll(message, registry) {
            Poll::Pending => Poll::Pending,
            Poll::Ready(Err(e)) => Poll::Ready(Err(e)),
            Poll::Ready(Ok(rows)) => Poll::Ready(at_most_one(rows)),
        }
    }
}

/// The only row of one request, which must give exactly one row.
#[derive(Debug)]
pub struct OneRow {
    pub rows: Rows,
}

impl OneRow {
    /// Takes the next message of the request: the rows are gathered,
    /// and the end of the result hands out the only row.
    pub fn poll(&mut self, message: BackendMessage, registry: &SqlStateRegistry) -> (item: Poll<
        Result<Row, Error>,
    >)
        ensures
            final(self).rows.stream.statement == old(self).rows.stream.statement,
            final(self).rows.stream.responses == old(self).rows.stream.responses,
            final(self).rows.stream.phase == next_phase(old(self).rows.stream.phase, message, true),
            exists|gathered: Poll<Result<Vec<Row>, Error>>| #[trigger]
                gathers(
                    registry,
                    old(self).rows.stream.statement,
                    old(self).rows.stream.phase,
                    old(self).rows.rows@,
                    message,
                    gathered,
                    final(self).rows.rows@,
                ) && asks_one(gathered, item),
    {
        match self.rows.poll(message, registry) {
            Poll::Pending => Poll::Pending,
            Poll::Ready(Err(e)) => Poll::Ready(Err(e)),
            Poll::Ready(Ok(rows)) => Poll::Ready(exactly_one(rows)),
        }
    }
}

/// The count of the rows that a statement affects, read off the messages of its request.
#[derive(Debug)]
pub struct Execution {
    pub responses: Responses,
    pub phase: Phase,
}

impl Execution {
    /// Takes the next message of the request: rows pass unread, and
    /// the end of the command gives the count.
    pub fn poll(&mut self, message: BackendMessage, registry: &SqlStateRegistry) -> (item: Poll<
        Result<u64, Error>,
    >)
        ensures
            final(self).responses == old(self).responses,
            final(self).phase == next_phase(old(self).phase, message, false),
            counts(registry, old(self).phase, message, item),
    {
        match self.phase {
            Phase::AwaitingBindComplete => match message {
                BackendMessage::BindComplete => {
                    self.phase = Phase::Streaming;
                    Poll::Pending
                },
                _ => {
                    self.phase = Phase::Failed;
                    Poll::Ready(Err(Error::UnexpectedMessage))
                },
            },
            Phase::Streaming => match message {
                BackendMessage::DataRow(_) => Poll::Pending,
                BackendMessage::CommandComplete(tag) => {
                    self.phase = Phase::Done;
                    match as_text(tag.as_slice()) {
                        Some(text) => {
                            proof {
                                encode_utf8_decode_utf8(text@);
                            }
                            Poll::Ready(Ok(rows_affected(text)))
                        },
                        None => Poll::Ready(Err(Error::Parse)),
                    }
                },
                BackendMessage::EmptyQueryResponse => {
                    self.phase = Phase::Done;
                    Poll::Ready(Ok(0))
                },
                BackendMessage::ErrorResponse(fields) => {
                    self.phase = Phase::Done;
                    Poll::Ready(Err(Error::db(fields, registry)))
                },
                _ => {
                    self.phase = Phase::Failed;
                    Poll::Ready(Err(Error::UnexpectedMessage))
                },
            },
            _ => Poll::Pending,
        }
    }
}

} // verus!
