//! One interface over the two kinds of handle: a client, and a
//! transaction on a client.

use crate::connection::Connection;
use crate::connection::RequestKind;
use crate::error::Error;
use crate::prepare::named;
use crate::prepare::prepare;
use crate::prepare::prepare_request;
use crate::prepare::prepare_typed;
use crate::prepare::preparation_handle;
use crate::prepare::PreparePhase;
use crate::prepare::Preparation;
use crate::private::Sealed;
use crate::query::bind_result;
use crate::query::execute;
use crate::query::execution_handle;
use crate::query::one_handle;
use crate::query::optional_handle;
use crate::query::query;
use crate::query::request_of;
use crate::query::rows_handle;
use crate::query::stream_handle;
use crate::query::submits;
use crate::query::submits_as;
use crate::stream::Execution;
use crate::stream::OneRow;
use crate::stream::OptionalRow;
use crate::stream::Phase;
use crate::stream::Rows;
use crate::stream::RowStream;
use crate::types::Format;
use crate::types::Statement;
use crate::types::ToSql;
use crate::types::Type;
use std::sync::Arc;
use vstd::prelude::*;

verus! {

/// What a client and a transaction both do. Every operation has one
/// contract, stated over the connection behind the handle, so it does
/// the same through either. The trait is sealed: the client and the
/// transaction are its only implementations, and there can be no other.
pub trait GenericClient: Sealed {
    /// The connection behind the handle.
    spec fn connection(&self) -> Connection;

    /// Like `execute_raw`, with every parameter in binary.
    fn execute<P: ToSql>(&mut self, statement: Arc<Statement>, params: &[P]) -> (r: Result<
        Execution,
        Error,
    >)
        requires
            old(self).connection().wf(),
        ensures
            final(self).connection().wf(),
            submits(
                &old(self).connection(),
                &final(self).connection(),
                request_of(
                    bind_result(
                        *statement,
                        params@,
                        Seq::<Format>::empty(),
                        seq![Format::Binary],
                        Seq::<char>::empty(),
                    ),
                ),
                execution_handle(r),
            ),
            r matches Ok(execution) ==> execution.phase == Phase::AwaitingBindComplete,
    ;

    /// Sends the request that runs `statement` with `params`, and
    /// returns the count of the rows that it affects.
    fn execute_raw<P: ToSql>(
        &mut self,
        statement: Arc<Statement>,
        params: &[P],
        param_formats: &[Format],
    ) -> (r: Result<Execution, Error>)
        requires
            old(self).connection().wf(),
        ensures
            final(self).connection().wf(),
            submits(
                &old(self).connection(),
                &final(self).connection(),
                request_of(
                    bind_result(
                        *statement,
                        params@,
                        param_formats@,
                        seq![Format::Binary],
                        Seq::<char>::empty(),
                    ),
                ),
                execution_handle(r),
            ),
            r matches Ok(execution) ==> execution.phase == Phase::AwaitingBindComplete,
    ;

    /// Like `query_raw`, with every parameter and every column in
    /// binary, and with the rows gathered: they are handed out
    /// together when the result ends.
    fn query<P: ToSql>(&mut self, statement: Arc<Statement>, params: &[P]) -> (r: Result<
        Rows,
        Error,
    >)
        requires
            old(self).connection().wf(),
        ensures
            final(self).connection().wf(),
            submits(
                &old(self).connection(),
                &final(self).connection(),
                request_of(
                    bind_result(
                        *statement,
                        params@,
                        Seq::<Format>::empty(),
                        seq![Format::Binary],
                        Seq::<char>::empty(),
                    ),
                ),
                rows_handle(r),
            ),
            r matches Ok(rows) ==> rows.stream.statement == statement && rows.stream.phase
                == Phase::AwaitingBindComplete && rows.rows@.len() == 0,
    ;

    /// Like `query`, for a result of exactly one row: no row and more
    /// rows than one are errors.
    fn query_one<P: ToSql>(&mut self, statement: Arc<Statement>, params: &[P]) -> (r: Result<
        OneRow,
        Error,
    >)
        requires
            old(self).connection().wf(),
        ensures
            final(self).connection().wf(),
            submits(
                &old(self).connection(),
                &final(self).connection(),
                request_of(
                    bind_result(
                        *statement,
                        params@,
                        Seq::<Format>::empty(),
                        seq![Format::Binary],
                        Seq::<char>::empty(),
                    ),
                ),
                one_handle(r),
            ),
            r matches Ok(one) ==> one.rows.stream.statement == statement && one.rows.stream.phase
                == Phase::AwaitingBindComplete && one.rows.rows@.len() == 0,
    ;

    /// Like `query`, for a result of one row at most: more rows are an error.
    fn query_opt<P: ToSql>(&mut self, statement: Arc<Statement>, params: &[P]) -> (r: Result<
        OptionalRow,
        Error,
    >)
        requires
            old(self).connection().wf(),
        ensures
            final(self).connection().wf(),
            submits(
                &old(self).connection(),
                &final(self).connection(),
                request_of(
                    bind_result(
                        *statement,
                        params@,
                        Seq::<Format>::empty(),
                        seq![Format::Binary],
                        Seq::<char>::empty(),
                    ),
                ),
                optional_handle(r),
            ),
            r matches Ok(one) ==> one.rows.stream.statement == statement && one.rows.stream.phase
                == Phase::AwaitingBindComplete && one.rows.rows@.len() == 0,
    ;

    /// Sends the request that runs `statement` with `params`, and
    /// returns the stream of its rows.
    fn query_raw<P: ToSql>(
        &mut self,
        statement: Arc<Statement>,
        params: &[P],
        param_formats: &[Format],
        column_formats: &[Format],
    ) -> (r: Result<RowStream, Error>)
        requires
            old(self).connection().wf(),
        ensures
            final(self).connection().wf(),
            submits(
                &old(self).connection(),
                &final(self).connection(),
                request_of(
                    bind_result(
                        *statement,
                        params@,
                        param_formats@,
                        column_formats@,
                        Seq::<char>::empty(),
                    ),
                ),
                stream_handle(r),
            ),
            r matches Ok(stream) ==> stream.statement == statement && stream.phase
                == Phase::AwaitingBindComplete,
    ;

    /// Sends the request that prepares `query`, and returns the
    /// reading of its answer, which ends with the statement.
    fn prepare(&mut self, query: &str) -> (r: Result<Preparation, Error>)
        requires
            old(self).connection().wf(),
        ensures
            final(self).connection().wf(),
            submits_as(
                &old(self).connection(),
                &final(self).connection(),
                prepare_request(named(old(self).connection()@.submitted), query@, Seq::<Type>::empty()),
                preparation_handle(r),
                RequestKind::Prepare,
            ),
            r matches Ok(preparation) ==> preparation.name@ == named(
                old(self).connection()@.submitted,
            ) && preparation.params@.len() == 0 && preparation.phase
                == PreparePhase::AwaitingParseComplete,
    ;

    /// Like `prepare`, with the types of the first parameters fixed by the caller.
    fn prepare_typed(&mut self, query: &str, parameter_types: &[Type]) -> (r: Result<
        Preparation,
        Error,
    >)
        requires
            old(self).connection().wf(),
        ensures
            final(self).connection().wf(),
            submits_as(
                &old(self).connection(),
                &final(self).connection(),
                prepare_request(named(old(self).connection()@.submitted), query@, parameter_types@),
                preparation_handle(r),
                RequestKind::Prepare,
            ),
            r matches Ok(preparation) ==> preparation.name@ == named(
                old(self).connection()@.submitted,
            ) && preparation.params@.len() == 0 && preparation.phase
                == PreparePhase::AwaitingParseComplete,
    ;

    /// A transaction on the connection behind this handle. It holds
    /// the handle until it is dropped, and what is done through it is
    /// done to that connection. The statements that begin and end a
    /// transaction on the server are the caller's to send.
    fn transaction(&mut self) -> (transaction: Transaction<'_>)
        ensures
            transaction.client.inner == old(self).connection(),
            final(transaction.client).inner == final(self).connection(),
    ;
}

/// The formats of a plain call: none for the parameters, binary for every column.
fn binary() -> (formats: Vec<Format>)
    ensures
        formats@ == seq![Format::Binary],
{
    let mut formats: Vec<Format> = Vec::new();
    formats.push(Format::Binary);
    assert(formats@ =~= seq![Format::Binary]);
    formats
}

/// No formats: every parameter travels in binary.
fn unformatted() -> (formats: Vec<Format>)
    ensures
        formats@ == Seq::<Format>::empty(),
{
    Vec::new()
}

/// A handle on a connection.
pub struct Client {
    pub inner: Connection,
}

impl Client {
    /// A client of a fresh connection.
    pub fn new() -> (client: Client)
        ensures
            client.inner.wf(),
            client.inner@ == crate::connection::Model::initial(),
    {
        Client { inner: Connection::new() }
    }
}

/// A handle on a client inside a transaction.
pub struct Transaction<'a> {
    pub client: &'a mut Client,
}

impl Sealed for Client {

}

impl Sealed for Transaction<'_> {

}

impl GenericClient for Client {
    open spec fn connection(&self) -> Connection {
        self.inner
    }

    fn query_one<P: ToSql>(&mut self, statement: Arc<Statement>, params: &[P]) -> (r: Result<
        OneRow,
        Error,
    >) {
        match query(
            &mut self.inner,
            statement,
            params,
            unformatted().as_slice(),
            binary().as_slice(),
        ) {
            Ok(stream) => Ok(OneRow { rows: Rows::new(stream) }),
            Err(e) => Err(e),
        }
    }

    fn query_opt<P: ToSql>(&mut self, statement: Arc<Statement>, params: &[P]) -> (r: Result<
        OptionalRow,
        Error,
    >) {
        match query(
            &mut self.inner,
            statement,
            params,
            unformatted().as_slice(),
            binary().as_slice(),
        ) {
            Ok(stream) => Ok(OptionalRow { rows: Rows::new(stream) }),
            Err(e) => Err(e),
        }
    }

    fn prepare(&mut self, query: &str) -> (r: Result<Preparation, Error>) {
        prepare(&mut self.inner, query)
    }

    fn prepare_typed(&mut self, query: &str, parameter_types: &[Type]) -> (r: Result<
        Preparation,
        Error,
    >) {
        prepare_typed(&mut self.inner, query, parameter_types)
    }

    fn transaction(&mut self) -> (transaction: Transaction<'_>) {
        Transaction { client: self }
    }

    fn execute<P: ToSql>(&mut self, statement: Arc<Statement>, params: &[P]) -> (r: Result<
        Execution,
        Error,
    >) {
        execute(&mut self.inner, statement, params, unformatted().as_slice())
    }

    fn execute_raw<P: ToSql>(
        &mut self,
        statement: Arc<Statement>,
        params: &[P],
        param_formats: &[Format],
    ) -> (r: Result<Execution, Error>) {
        execute(&mut self.inner, statement, params, param_formats)
    }

    fn query<P: ToSql>(&mut self, statement: Arc<Statement>, params: &[P]) -> (r: Result<
        Rows,
        Error,
    >) {
        match query(
            &mut self.inner,
            statement,
            params,
            unformatted().as_slice(),
            binary().as_slice(),
        ) {
            Ok(stream) => Ok(Rows::new(stream)),
            Err(e) => Err(e),
        }
    }

    fn query_raw<P: ToSql>(
        &mut self,
        statement: Arc<Statement>,
        params: &[P],
        param_formats: &[Format],
        column_formats: &[Format],
    ) -> (r: Result<RowStream, Error>) {
        query(&mut self.inner, statement, params, param_formats, column_formats)
    }
}

impl GenericClient for Transaction<'_> {
    open spec fn connection(&self) -> Connection {
        self.client.inner
    }

    fn query_one<P: ToSql>(&mut self, statement: Arc<Statement>, params: &[P]) -> (r: Result<
        OneRow,
        Error,
    >) {
        self.client.query_one(statement, params)
    }

    fn query_opt<P: ToSql>(&mut self, statement: Arc<Statement>, params: &[P]) -> (r: Result<
        OptionalRow,
        Error,
    >) {
        self.client.query_opt(statement, params)
    }

    fn prepare(&mut self, query: &str) -> (r: Result<Preparation, Error>) {
        self.client.prepare(query)
    }

    fn prepare_typed(&mut self, query: &str, parameter_types: &[Type]) -> (r: Result<
        Preparation,
        Error,
    >) {
        self.client.prepare_typed(query, parameter_types)
    }

    fn transaction(&mut self) -> (transaction: Transaction<'_>) {
        Transaction { client: &mut *self.client }
    }

    fn execute<P: ToSql>(&mut self, statement: Arc<Statement>, params: &[P]) -> (r: Result<
        Execution,
        Error,
    >) {
        self.client.execute(statement, params)
    }

    fn execute_raw<P: ToSql>(
        &mut self,
        statement: Arc<Statement>,
        params: &[P],
        param_formats: &[Format],
    ) -> (r: Result<Execution, Error>) {
        self.client.execute_raw(statement, params, param_formats)
    }

    fn query<P: ToSql>(&mut self, statement: Arc<Statement>, params: &[P]) -> (r: Result<
        Rows,
        Error,
    >) {
        self.client.query(statement, params)
    }

    fn query_raw<P: ToSql>(
        &mut self,
        statement: Arc<Statement>,
        params: &[P],
        param_formats: &[Format],
        column_formats: &[Format],
    ) -> (r: Result<RowStream, Error>) {
        self.client.query_raw(statement, params, param_formats, column_formats)
    }
}

} // verus!
