//! The errors that the library reports.

use crate::message::CODE_FIELD;
use crate::message::ErrorField;
use crate::sqlstate::SqlState;
use crate::sqlstate::SqlStateRegistry;
use vstd::prelude::*;

verus! {

/// An error that the server reported: its classified code and the fields as they came.
#[derive(Debug)]
pub struct DbError {
    pub code: SqlState,
    pub fields: Vec<ErrorField>,
}

/// Why an operation failed.
#[derive(Debug)]
pub enum Error {
    /// The number of parameter values differs from the number the statement declares.
    ParameterCount { expected: usize, actual: usize },
    /// The parameter at this position refused to serialise.
    ToSql(usize),
    /// A message could not be framed.
    Encode,
    /// A backend message could not be read.
    Parse,
    /// A backend message arrived where none of its kind is allowed.
    UnexpectedMessage,
    /// The server reported an error.
    Db(DbError),
    /// The connection is closed.
    Closed,
    /// A query gave another number of rows than its caller allows.
    RowCount,
}

/// The position of the first field that carries the code, or the number of fields where none does.
pub open spec fn code_at(fields: Seq<ErrorField>) -> int
    decreases fields.len(),
{
    if fields.len() == 0 {
        0
    } else {
        let before = code_at(fields.drop_last());
        if before < fields.len() - 1 {
            before
        } else if fields.last().kind == CODE_FIELD {
            fields.len() - 1
        } else {
            fields.len() as int
        }
    }
}

/// Whether `error` is what an error report with these fields turns
/// into: a server error with the classified code of the first code
/// field and with all the fields, or a parse error where no field
/// carries a code.
pub open spec fn reports(registry: &SqlStateRegistry, fields: Seq<ErrorField>, error: Error) -> bool {
    if code_at(fields) < fields.len() {
        &&& error matches Error::Db(db)
        &&& registry.classifies(fields[code_at(fields)].value@, db.code)
        &&& db.fields@ == fields
    } else {
        error is Parse
    }
}

impl Error {
    /// The error that an error report of the server turns into.
    pub fn db(fields: Vec<ErrorField>, registry: &SqlStateRegistry) -> (error: Error)
        ensures
            reports(registry, fields@, error),
    {
        let mut i: usize = 0;
        while i < fields.len()
            invariant
                i <= fields.len(),
                code_at(fields@.take(i as int)) == i,
            decreases fields.len() - i,
        {
            assert(fields@.take(i + 1).drop_last() =~= fields@.take(i as int));
            if fields[i].kind == CODE_FIELD {
                proof {
                    lemma_code_at_prefix(fields@, i + 1);
                }
                let code = registry.classify(fields[i].value.as_str());
                return Error::Db(DbError { code, fields });
            }
            i += 1;
        }
        assert(fields@.take(fields.len() as int) =~= fields@);
        Error::Parse
    }
}

/// A code field found in a prefix is the one found in the whole.
proof fn lemma_code_at_prefix(fields: Seq<ErrorField>, upto: int)
    requires
        0 <= upto <= fields.len(),
        code_at(fields.take(upto)) < upto,
    ensures
        code_at(fields) == code_at(fields.take(upto)),
    decreases fields.len() - upto,
{
    if upto < fields.len() {
        assert(fields.take(upto + 1).drop_last() =~= fields.take(upto));
        lemma_code_at_prefix(fields, upto + 1);
    } else {
        assert(fields.take(upto) =~= fields);
    }
}

} // verus!
