use bytes::BytesMut;
use pg_pipeline::connection::Connection;
use pg_pipeline::error::Error;
use pg_pipeline::query::encode;
use pg_pipeline::query::encode_bind;
use pg_pipeline::query::encode_fetch;
use pg_pipeline::types::Format;
use pg_pipeline::types::IsNull;
use pg_pipeline::types::Statement;
use pg_pipeline::types::ToSql;
use pg_pipeline::types::Type;
use pg_pipeline::types::Value;
use pg_pipeline::types::WrongType;

const INT4: Type = Type { oid: 23 };
const TEXT: Type = Type { oid: 25 };

fn statement(name: &str, params: Vec<Type>) -> Statement {
    Statement { name: name.to_string(), params, columns: vec![] }
}

#[test]
fn encode_writes_bind_execute_sync() {
    let mut client = Connection::new();
    let bytes =
        encode(&mut client, &statement("s0", vec![INT4]), &[Some(7i32)], &[], &[Format::Binary]).unwrap();
    let expected: Vec<u8> = vec![
        b'B', 0, 0, 0, 24, 0, b's', b'0', 0, 0, 0, 0, 1, 0, 0, 0, 4, 0, 0, 0, 7, 0, 1, 0, 1,
        b'E', 0, 0, 0, 9, 0, 0, 0, 0, 0,
        b'S', 0, 0, 0, 4,
    ];
    assert_eq!(bytes.to_vec(), expected);
}

#[test]
fn encode_bind_writes_null_as_minus_one() {
    let mut buf = BytesMut::new();
    let none: Option<i32> = None;
    encode_bind(&statement("", vec![INT4]), &[none], &[Format::Binary], &[], "p", &mut buf).unwrap();
    let expected: Vec<u8> = vec![
        b'B', 0, 0, 0, 19, b'p', 0, 0, 0, 1, 0, 1, 0, 1, 255, 255, 255, 255, 0, 0,
    ];
    assert_eq!(buf.to_vec(), expected);
}

#[test]
fn encode_bind_appends_behind_what_the_buffer_holds() {
    let mut buf = BytesMut::new();
    buf.extend_from_slice(b"xy");
    let none: [i32; 0] = [];
    encode_bind(&statement("s", vec![]), &none, &[], &[], "", &mut buf).unwrap();
    let expected: Vec<u8> = vec![b'x', b'y', b'B', 0, 0, 0, 13, 0, b's', 0, 0, 0, 0, 0, 0, 0];
    assert_eq!(buf.to_vec(), expected);
}

#[test]
fn encode_bind_writes_negative_integers_in_twos_complement() {
    let mut buf = BytesMut::new();
    encode_bind(&statement("", vec![INT4]), &[-2i32], &[], &[], "", &mut buf).unwrap();
    assert_eq!(buf.to_vec()[15..19].to_vec(), vec![255u8, 255, 255, 254]);
}

#[test]
fn text_format_serialises_against_the_text_type() {
    let mut buf = BytesMut::new();
    let params = ["ab".to_string()];
    encode_bind(&statement("", vec![INT4]), &params, &[Format::Text], &[], "", &mut buf).unwrap();
    let expected: Vec<u8> = vec![
        b'B', 0, 0, 0, 20, 0, 0, 0, 1, 0, 0, 0, 1, 0, 0, 0, 2, b'a', b'b', 0, 0,
    ];
    assert_eq!(buf.to_vec(), expected);
}

#[test]
fn binary_format_serialises_against_the_declared_type() {
    let mut buf = BytesMut::new();
    let params = ["ab".to_string()];
    let r = encode_bind(&statement("", vec![INT4]), &params, &[Format::Binary], &[], "", &mut buf);
    assert!(matches!(r, Err(Error::ToSql(0))));
    assert!(buf.is_empty());
}

#[test]
fn missing_format_means_binary() {
    let mut buf = BytesMut::new();
    let params = ["ab".to_string(), "cd".to_string()];
    let r = encode_bind(
        &statement("", vec![INT4, INT4]),
        &params,
        &[Format::Text],
        &[],
        "",
        &mut buf,
    );
    assert!(matches!(r, Err(Error::ToSql(1))));
}

#[test]
fn first_failing_parameter_is_reported() {
    let mut buf = BytesMut::new();
    buf.extend_from_slice(b"keep");
    let r = encode_bind(
        &statement("s", vec![INT4, TEXT, TEXT]),
        &[1i32, 2, 3],
        &[],
        &[],
        "",
        &mut buf,
    );
    assert!(matches!(r, Err(Error::ToSql(1))));
    assert_eq!(buf.to_vec(), b"keep".to_vec());
}

#[test]
fn too_few_parameters_fail_before_a_byte_is_written() {
    let mut buf = BytesMut::new();
    buf.extend_from_slice(b"keep");
    let r = encode_bind(&statement("s", vec![INT4, INT4]), &[1i32], &[], &[], "", &mut buf);
    assert!(matches!(r, Err(Error::ParameterCount { expected: 2, actual: 1 })));
    assert_eq!(buf.to_vec(), b"keep".to_vec());
}

#[test]
fn too_many_parameters_fail_before_a_byte_is_written() {
    let mut buf = BytesMut::new();
    let r = encode_bind(&statement("s", vec![INT4]), &[1i32, 2, 3], &[], &[], "", &mut buf);
    assert!(matches!(r, Err(Error::ParameterCount { expected: 1, actual: 3 })));
    assert!(buf.is_empty());
}

#[test]
fn parameter_count_is_compared_before_values_are_serialised() {
    let r = encode(&mut Connection::new(), &statement("s", vec![TEXT]), &[1i32, 2], &[], &[]);
    assert!(matches!(r, Err(Error::ParameterCount { expected: 1, actual: 2 })));
}

#[test]
fn zero_byte_in_a_name_cannot_be_framed() {
    let mut buf = BytesMut::new();
    let r = encode_bind(&statement("s", vec![INT4]), &[1i32], &[], &[], "a\0b", &mut buf);
    assert!(matches!(r, Err(Error::Encode)));
    assert!(buf.is_empty());
    let r = encode_bind(&statement("s\0", vec![INT4]), &[1i32], &[], &[], "", &mut buf);
    assert!(matches!(r, Err(Error::Encode)));
    assert!(buf.is_empty());
}

#[test]
fn a_bad_name_is_reported_before_a_bad_value() {
    let mut buf = BytesMut::new();
    let r = encode_bind(&statement("s", vec![TEXT]), &[1i32], &[], &[], "\0", &mut buf);
    assert!(matches!(r, Err(Error::Encode)));
}

#[test]
fn too_many_formats_cannot_be_framed() {
    let mut buf = BytesMut::new();
    let formats = vec![Format::Binary; 65536];
    let r = encode_bind(&statement("s", vec![INT4]), &[1i32], &formats, &[], "", &mut buf);
    assert!(matches!(r, Err(Error::Encode)));
    let r = encode_bind(&statement("s", vec![INT4]), &[1i32], &[], &formats, "", &mut buf);
    assert!(matches!(r, Err(Error::Encode)));
    assert!(buf.is_empty());
    let most = vec![Format::Text; 65535];
    assert!(encode_bind(&statement("s", vec![INT4]), &[1i32], &[], &most, "", &mut buf).is_ok());
}

#[test]
fn format_codes_are_zero_and_one() {
    assert_eq!(Format::Text.code(), 0);
    assert_eq!(Format::Binary.code(), 1);
    assert_eq!(Type::text(), TEXT);
}

#[test]
fn values_serialise_against_their_own_types_only() {
    let mut out = vec![9u8];
    assert!(matches!(5i32.to_sql_checked(&INT4, &mut out), Ok(IsNull::No)));
    assert_eq!(out, vec![9u8, 0, 0, 0, 5]);
    assert!(5i32.to_sql_checked(&TEXT, &mut out).is_err());
    assert!("x".to_string().to_sql_checked(&INT4, &mut out).is_err());
    let none: Option<String> = None;
    assert!(matches!(none.to_sql_checked(&INT4, &mut out), Ok(IsNull::Yes)));
    assert!(matches!(
        Some("é".to_string()).to_sql_checked(&TEXT, &mut out),
        Ok(IsNull::No)
    ));
    assert_eq!(out, vec![9u8, 0, 0, 0, 5, 0xc3, 0xa9]);
}

#[test]
fn the_buffer_is_empty_again_after_every_request() {
    let mut client = Connection::new();
    let one = statement("s1", vec![INT4]);
    let first = encode(&mut client, &one, &[1i32], &[], &[]).unwrap().to_vec();
    assert!(matches!(encode(&mut client, &one, &["x".to_string()], &[], &[]), Err(Error::ToSql(0))));
    assert!(matches!(
        encode(&mut client, &statement("s\0", vec![INT4]), &[1i32], &[], &[]),
        Err(Error::Encode)
    ));
    assert!(matches!(
        encode_fetch(&mut client, &one, &[1i32, 2], &[], &[], "p", 1),
        Err(Error::ParameterCount { expected: 1, actual: 2 })
    ));
    assert_eq!(encode(&mut client, &one, &[1i32], &[], &[]).unwrap().to_vec(), first);
    assert!(client.poll_request().is_none());
    assert!(!client.is_closed());
    assert_eq!(client.send(bytes::Bytes::new()).unwrap().id, 0);
}

#[test]
fn encode_fetch_binds_and_executes_without_sync() {
    let mut client = Connection::new();
    let bytes = encode_fetch(&mut client, &statement("s", vec![INT4]), &[3i32], &[], &[], "p", 50).unwrap();
    let expected: Vec<u8> = vec![
        b'B', 0, 0, 0, 22, b'p', 0, b's', 0, 0, 0, 0, 1, 0, 0, 0, 4, 0, 0, 0, 3, 0, 0,
        b'E', 0, 0, 0, 10, b'p', 0, 0, 0, 0, 50,
    ];
    assert_eq!(bytes.to_vec(), expected);
    assert!(matches!(
        encode_fetch(&mut client, &statement("s", vec![INT4]), &[3i32], &[], &[], "\0", 50),
        Err(Error::Encode)
    ));
}

/// A value that is its own bytes against every type, or `NULL`, or that refuses every type.
enum Mixed {
    Bytes(Vec<u8>),
    Null,
    Refuses,
}

impl ToSql for Mixed {
    // The model of the value, for proofs only; nothing calls it.
    fn sql_value(&self, _ty: Type) -> pg_pipeline::types::Encoded {
        unreachable!()
    }

    fn to_sql_checked(&self, ty: &Type, out: &mut Vec<u8>) -> Result<IsNull, WrongType> {
        match self {
            Mixed::Bytes(bytes) => {
                out.extend_from_slice(bytes);
                Ok(IsNull::No)
            }
            Mixed::Null => Ok(IsNull::Yes),
            Mixed::Refuses => Err(WrongType { offered: *ty }),
        }
    }
}

#[test]
fn any_implementation_of_the_trait_can_be_a_parameter() {
    let mut buf = BytesMut::new();
    let params = [Mixed::Bytes(vec![1, 2]), Mixed::Null, Mixed::Bytes(vec![])];
    encode_bind(&statement("", vec![INT4, TEXT, INT4]), &params, &[], &[], "", &mut buf).unwrap();
    let expected: Vec<u8> = vec![
        b'B', 0, 0, 0, 26, 0, 0, 0, 0, 0, 3, 0, 0, 0, 2, 1, 2, 255, 255, 255, 255, 0, 0, 0, 0, 0, 0,
    ];
    assert_eq!(buf.to_vec(), expected);
}

#[test]
fn a_message_counts_at_most_65535_values() {
    let mut buf = BytesMut::new();
    let most: Vec<Mixed> = (0..65535).map(|_| Mixed::Null).collect();
    assert!(encode_bind(&statement("", vec![INT4; 65535]), &most, &[], &[], "", &mut buf).is_ok());
    assert_eq!(buf.len(), 1 + 4 + 2 + 2 + 2 + 4 * 65535 + 2);
    assert_eq!(buf.to_vec()[9..11].to_vec(), vec![255u8, 255]);
    let mut buf = BytesMut::new();
    let more: Vec<Mixed> = (0..65536).map(|_| Mixed::Null).collect();
    let r = encode_bind(&statement("", vec![INT4; 65536]), &more, &[], &[], "", &mut buf);
    assert!(matches!(r, Err(Error::Encode)));
    assert!(buf.is_empty());
}

#[test]
fn a_value_that_refuses_is_reported_before_the_values_are_counted() {
    let mut buf = BytesMut::new();
    let mut params: Vec<Mixed> = (0..70000).map(|_| Mixed::Null).collect();
    params[69999] = Mixed::Refuses;
    let r = encode_bind(&statement("", vec![INT4; 70000]), &params, &[], &[], "", &mut buf);
    assert!(matches!(r, Err(Error::ToSql(69999))));
    let formats = vec![Format::Binary; 65536];
    let r = encode_bind(&statement("", vec![INT4; 70000]), &params, &[], &formats, "", &mut buf);
    assert!(matches!(r, Err(Error::ToSql(69999))));
    let r = encode_bind(&statement("", vec![INT4; 70000]), &params, &formats, &[], "", &mut buf);
    assert!(matches!(r, Err(Error::Encode)));
    assert!(buf.is_empty());
}

#[test]
fn a_value_s_bytes_are_not_read_for_zeros() {
    let mut buf = BytesMut::new();
    let params = [Mixed::Bytes(vec![0, 0])];
    assert!(encode_bind(&statement("", vec![INT4]), &params, &[], &[], "", &mut buf).is_ok());
    assert_eq!(buf.to_vec()[11..17].to_vec(), vec![0u8, 0, 0, 2, 0, 0]);
}

#[test]
fn one_list_of_values_mixes_kinds() {
    let mut buf = BytesMut::new();
    let params = [Value::Int4(7), Value::Text("ab".to_string()), Value::Null];
    encode_bind(&statement("", vec![INT4, TEXT, INT4]), &params, &[], &[], "", &mut buf).unwrap();
    let expected: Vec<u8> = vec![
        b'B', 0, 0, 0, 30, 0, 0, 0, 0, 0, 3, 0, 0, 0, 4, 0, 0, 0, 7, 0, 0, 0, 2, b'a', b'b', 255, 255,
        255, 255, 0, 0,
    ];
    assert_eq!(buf.to_vec(), expected);
    let r = encode_bind(&statement("", vec![INT4, INT4, INT4]), &params, &[], &[], "", &mut buf);
    assert!(matches!(r, Err(Error::ToSql(1))));
    let r = encode_bind(
        &statement("", vec![INT4, INT4, INT4]),
        &[Value::Text("7".to_string()), Value::Null, Value::Int4(1)],
        &[Format::Text],
        &[],
        "",
        &mut BytesMut::new(),
    );
    assert!(r.is_ok());
}

#[test]
fn a_bind_message_is_its_tag_length_names_and_three_counted_lists() {
    let mut buf = BytesMut::new();
    let params = [Value::Text("\u{1}\u{2}".to_string()), Value::Null];
    let formats = [Format::Text, Format::Binary];
    encode_bind(&statement("", vec![TEXT, INT4]), &params, &[Format::Binary], &formats, "", &mut buf)
        .unwrap();
    let expected: Vec<u8> = vec![
        0x42, 0, 0, 0, 28, 0, 0, 0, 1, 0, 1, 0, 2, 0, 0, 0, 2, 1, 2, 255, 255, 255, 255, 0, 2, 0, 0, 0, 1,
    ];
    assert_eq!(buf.to_vec(), expected);
}
