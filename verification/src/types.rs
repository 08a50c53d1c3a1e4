//! Statements, parameter types and wire formats.

use crate::wire::be32;
use std::sync::Arc;
use vstd::prelude::*;
use vstd::utf8::encode_utf8;

verus! {

/// Object identifier of the `text` type, the target of every text-format parameter.
pub const TEXT_OID: u32 = 25;

/// A database type, identified by its object identifier.
#[derive(Clone, Copy, Debug, PartialEq, Eq, Structural)]
pub struct Type {
    pub oid: u32,
}

impl Type {
    /// The universal textual type, in contracts.
    pub open spec fn spec_text() -> Type {
        Type { oid: TEXT_OID }
    }

    /// The universal textual type.
    #[verifier::when_used_as_spec(spec_text)]
    pub fn text() -> (t: Type)
        ensures
            t == Type::spec_text(),
    {
        Type { oid: TEXT_OID }
    }
}

/// How a parameter or a result column travels on the wire.
#[derive(Clone, Copy, Debug, PartialEq, Eq, Structural)]
pub enum Format {
    Text,
    Binary,
}

impl Format {
    /// The protocol's format code: 0 for text, 1 for binary.
    pub open spec fn spec_code(self) -> i16 {
        match self {
            Format::Text => 0i16,
            Format::Binary => 1i16,
        }
    }

    /// The protocol's format code.
    #[verifier::when_used_as_spec(spec_code)]
    pub fn code(self) -> (c: i16)
        ensures
            c == self.spec_code(),
    {
        match self {
            Format::Text => 0,
            Format::Binary => 1,
        }
    }
}

/// Whether a serialised value is SQL `NULL`.
#[derive(Clone, Copy, Debug, PartialEq, Eq, Structural)]
pub enum IsNull {
    Yes,
    No,
}

/// A value refused to serialise against the type it was offered.
#[derive(Clone, Copy, Debug, PartialEq, Eq, Structural)]
pub struct WrongType {
    pub offered: Type,
}

/// What a value turns into when it is serialised against a type.
pub enum Encoded {
    /// The value cannot be written as that type.
    Rejected,
    /// SQL `NULL`: no bytes.
    Null,
    /// The value's bytes.
    Bytes(Seq<u8>),
}

/// A value that can serialise itself against a database type.
pub trait ToSql {
    /// What the value serialises to against `ty`.
    spec fn sql_value(&self, ty: Type) -> Encoded;

    /// Appends the value's bytes for `ty` to `out`, or reports `NULL`, or
    /// refuses the type. Nothing is appended unless bytes are reported.
    fn to_sql_checked(&self, ty: &Type, out: &mut Vec<u8>) -> (r: Result<IsNull, WrongType>)
        ensures
            match self.sql_value(*ty) {
                Encoded::Rejected => r is Err && final(out)@ == old(out)@,
                Encoded::Null => r == Ok::<IsNull, WrongType>(IsNull::Yes) && final(out)@ == old(out)@,
                Encoded::Bytes(b) => r == Ok::<IsNull, WrongType>(IsNull::No) && final(out)@ == old(
                    out,
                )@ + b,
            },
    ;
}

/// Object identifier of the `int4` type.
pub const INT4_OID: u32 = 23;

/// A 32-bit integer is an `int4` and nothing else: four bytes, most
/// significant first, in two's complement.
impl ToSql for i32 {
    open spec fn sql_value(&self, ty: Type) -> Encoded {
        if ty.oid == INT4_OID {
            Encoded::Bytes(be32(*self as int))
        } else {
            Encoded::Rejected
        }
    }

    fn to_sql_checked(&self, ty: &Type, out: &mut Vec<u8>) -> (r: Result<IsNull, WrongType>) {
        if ty.oid != INT4_OID {
            return Err(WrongType { offered: *ty });
        }
        let value: i32 = *self;
        let u: u64 = if value < 0 {
            (value as i64 + 0x1_0000_0000) as u64
        } else {
            value as u64
        };
        out.push(((u / 0x100_0000) % 0x100) as u8);
        out.push(((u / 0x1_0000) % 0x100) as u8);
        out.push(((u / 0x100) % 0x100) as u8);
        out.push((u % 0x100) as u8);
        assert(out@ =~= old(out)@ + be32(value as int));
        Ok(IsNull::No)
    }
}

/// A string is written as its UTF-8 bytes, against the text type only.
impl ToSql for String {
    open spec fn sql_value(&self, ty: Type) -> Encoded {
        if ty.oid == TEXT_OID {
            Encoded::Bytes(encode_utf8(self@))
        } else {
            Encoded::Rejected
        }
    }

    fn to_sql_checked(&self, ty: &Type, out: &mut Vec<u8>) -> (r: Result<IsNull, WrongType>) {
        if ty.oid != TEXT_OID {
            return Err(WrongType { offered: *ty });
        }
        out.extend_from_slice(self.as_str().as_bytes());
        Ok(IsNull::No)
    }
}

/// An absent value is `NULL` against every type.
impl<T: ToSql> ToSql for Option<T> {
    open spec fn sql_value(&self, ty: Type) -> Encoded {
        match *self {
            Some(value) => value.sql_value(ty),
            None => Encoded::Null,
        }
    }

    fn to_sql_checked(&self, ty: &Type, out: &mut Vec<u8>) -> (r: Result<IsNull, WrongType>) {
        match self {
            Some(value) => value.to_sql_checked(ty, out),
            None => Ok(IsNull::Yes),
        }
    }
}

/// A parameter value of any of the kinds that the library can
/// serialise, so that one list of parameters can mix them.
#[derive(Debug)]
pub enum Value {
    /// An `int4`.
    Int4(i32),
    /// A text.
    Text(String),
    /// `NULL`, against every type.
    Null,
}

/// A value serialises as what it holds does.
impl ToSql for Value {
    open spec fn sql_value(&self, ty: Type) -> Encoded {
        match *self {
            Value::Int4(number) => number.sql_value(ty),
            Value::Text(text) => text.sql_value(ty),
            Value::Null => Encoded::Null,
        }
    }

    fn to_sql_checked(&self, ty: &Type, out: &mut Vec<u8>) -> (r: Result<IsNull, WrongType>) {
        match self {
            Value::Int4(number) => number.to_sql_checked(ty, out),
            Value::Text(text) => text.to_sql_checked(ty, out),
            Value::Null => Ok(IsNull::Yes),
        }
    }
}

/// One output column of a prepared statement.
#[derive(Debug)]
pub struct Column {
    pub name: String,
    pub type_: Type,
}

/// A server-side prepared statement: its name, the types of its
/// parameters and its output columns.
#[derive(Debug)]
pub struct Statement {
    pub name: String,
    pub params: Vec<Type>,
    pub columns: Vec<Column>,
}

impl Statement {
    /// A statement of the given name, parameter types and columns.
    pub fn new(name: String, params: Vec<Type>, columns: Vec<Column>) -> (statement: Statement)
        ensures
            statement.name == name,
            statement.params == params,
            statement.columns == columns,
    {
        Statement { name, params, columns }
    }

    /// The name under which the server knows the statement.
    pub fn name(&self) -> (name: &str)
        ensures
            name@ == self.name@,
    {
        self.name.as_str()
    }

    /// The types of the statement's parameters, in order.
    pub fn params(&self) -> (params: &[Type])
        ensures
            params@ == self.params@,
    {
        self.params.as_slice()
    }

    /// The statement's output columns, in order.
    pub fn columns(&self) -> (columns: &[Column])
        ensures
            columns@ == self.columns@,
    {
        self.columns.as_slice()
    }
}

impl Column {
    /// The column's name.
    pub fn name(&self) -> (name: &str)
        ensures
            name@ == self.name@,
    {
        self.name.as_str()
    }

    /// The column's type.
    pub fn type_(&self) -> (ty: &Type)
        ensures
            *ty == self.type_,
    {
        &self.type_
    }
}

impl Portal {
    /// The name under which the server knows the portal.
    pub fn name(&self) -> (name: &str)
        ensures
            name@ == self.name@,
    {
        self.name.as_str()
    }

    /// The statement that the portal was bound from.
    pub fn statement(&self) -> (statement: &Arc<Statement>)
        ensures
            *statement == self.statement,
    {
        &self.statement
    }
}

/// A named cursor: a statement with its parameters bound, for fetching rows in portions.
#[derive(Debug)]
pub struct Portal {
    pub name: String,
    pub statement: Arc<Statement>,
}

/// `Arc::clone`: one more holder of the same statement.
#[verifier::external_body]
pub(crate) fn share(statement: &Arc<Statement>) -> (shared: Arc<Statement>)
    ensures
        shared == *statement,
{
    statement.clone()
}

} // verus!
