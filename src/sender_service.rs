use vstd::prelude::*;
use vstd::string::StringExecFns;
use crate::error::Error as DriverError;
use crate::tokens::{Token, bearer_of};

verus! {

#[verifier::external_type_specification]
#[verifier::external_body]
pub struct ExValue(avro_rs::types::Value);

/// A value that is not a container. A fixed value's size is the number of its bytes.
#[derive(Clone)]
pub enum AvroScalar {
    Null,
    Boolean(bool),
    Int(i32),
    Long(i64),
    Bytes(Vec<u8>),
    String(String),
    Fixed(Vec<u8>),
    Enum(i32, String),
}

/// A value to encode.
///
/// A union holds a scalar only: the avro encoder checks what a union holds against a
/// branch of its schema by kind alone, and encodes a container there unchecked, which
/// may panic. So an optional record, array or map cannot be encoded. Floating-point,
/// decimal and logical values have no form here either. Where a map repeats a key,
/// its last entry is the one encoded.
pub enum AvroValue {
    Scalar(AvroScalar),
    Union(AvroScalar),
    Array(Vec<AvroValue>),
    Mapping(Vec<(String, AvroValue)>),
    Record(Vec<(String, AvroValue)>),
}

/// Relies on the constructors of avro_rs::types::Value: the scalar with the same payload.
#[verifier::external_body]
fn avro_scalar(s: AvroScalar) -> avro_rs::types::Value {
    match s {
        AvroScalar::Null => avro_rs::types::Value::Null,
        AvroScalar::Boolean(b) => avro_rs::types::Value::Boolean(b),
        AvroScalar::Int(i) => avro_rs::types::Value::Int(i),
        AvroScalar::Long(i) => avro_rs::types::Value::Long(i),
        AvroScalar::Bytes(b) => avro_rs::types::Value::Bytes(b),
        AvroScalar::String(t) => avro_rs::types::Value::String(t),
        AvroScalar::Fixed(b) => avro_rs::types::Value::Fixed(b.len(), b),
        AvroScalar::Enum(i, t) => avro_rs::types::Value::Enum(i, t),
    }
}

/// Relies on avro_rs::types::Value::Union.
#[verifier::external_body]
fn avro_union(v: avro_rs::types::Value) -> avro_rs::types::Value {
    avro_rs::types::Value::Union(Box::new(v))
}

/// Relies on avro_rs::types::Value::Array.
#[verifier::external_body]
fn avro_array(items: Vec<avro_rs::types::Value>) -> avro_rs::types::Value {
    avro_rs::types::Value::Array(items)
}

/// Relies on avro_rs::types::Value::Map, keyed by the entries' names.
#[verifier::external_body]
fn avro_map(entries: Vec<(String, avro_rs::types::Value)>) -> avro_rs::types::Value {
    avro_rs::types::Value::Map(entries.into_iter().collect())
}

/// Relies on avro_rs::types::Value::Record.
#[verifier::external_body]
fn avro_record(fields: Vec<(String, avro_rs::types::Value)>) -> avro_rs::types::Value {
    avro_rs::types::Value::Record(fields)
}

/// The avro value that `v` stands for.
fn to_avro(v: &AvroValue) -> avro_rs::types::Value
    decreases v,
{
    match v {
        AvroValue::Scalar(s) => avro_scalar(s.clone()),
        AvroValue::Union(s) => avro_union(avro_scalar(s.clone())),
        AvroValue::Array(items) => {
            let mut out: Vec<avro_rs::types::Value> = Vec::new();
            let mut i: usize = 0;
            while i < items.len()
                invariant
                    *v == AvroValue::Array(*items),
                decreases items.len() - i,
            {
                proof {
                    vstd::std_specs::vec::axiom_vec_index_decreases(*items, i as int);
                    assert(decreases_to!(*v => (*v)->Array_0));
                    assert(decreases_to!(*v => items[i as int]));
                }
                out.push(to_avro(&items[i]));
                i = i + 1;
            }
            avro_array(out)
        },
        AvroValue::Mapping(entries) => avro_map(to_avro_entries(v, entries)),
        AvroValue::Record(fields) => avro_record(to_avro_entries(v, fields)),
    }
}

/// The named entries of a map or a record, each value converted.
fn to_avro_entries(v: &AvroValue, entries: &Vec<(String, AvroValue)>) -> Vec<(String, avro_rs::types::Value)>
    requires
        *v == AvroValue::Mapping(*entries) || *v == AvroValue::Record(*entries),
    decreases v, 0nat,
{
    let mut out: Vec<(String, avro_rs::types::Value)> = Vec::new();
    let mut i: usize = 0;
    while i < entries.len()
        invariant
            *v == AvroValue::Mapping(*entries) || *v == AvroValue::Record(*entries),
        decreases entries.len() - i,
    {
        proof {
            vstd::std_specs::vec::axiom_vec_index_decreases(*entries, i as int);
            if *v == AvroValue::Mapping(*entries) {
                assert(decreases_to!(*v => (*v)->Mapping_0));
            } else {
                assert(decreases_to!(*v => (*v)->Record_0));
            }
            assert(decreases_to!(*v => entries[i as int]));
            assert(decreases_to!(*v => entries[i as int].1));
        }
        let name = entries[i].0.clone();
        out.push((name, to_avro(&entries[i].1)));
        i = i + 1;
    }
    out
}

/// Whether the schema whose JSON text is `schema` parses and `value` fits it.
pub uninterp spec fn avro_encodable(schema: Seq<char>, value: AvroValue) -> bool;

/// Relies on avro_rs::Schema::parse_str, then avro_rs::to_avro_datum: the binary encoding
/// of a value under the schema read from its JSON text. Both fail, with the avro error's
/// message, only on what the schema text and the value are: a text that is no schema, a
/// value that does not fit it. The value is converted one for one from the library's own
/// form, which holds no decimal and no container inside a union, the shapes on which
/// the encoder panics.
#[verifier::external_body]
fn avro_encode(schema: &str, value: &AvroValue) -> (r: Result<Vec<u8>, String>)
    ensures
        r is Ok <==> avro_encodable(schema@, *value),
{
    match avro_rs::Schema::parse_str(schema) {
        Ok(parsed) => avro_rs::to_avro_datum(&parsed, to_avro(value)).map_err(|e| e.to_string()),
        Err(e) => Err(e.to_string()),
    }
}

/// The binary encoding of `value` under the schema whose JSON text is `schema`.
/// Every failure is reported as an encoding error, never as a transport one.
pub fn encode_event(schema: &str, value: &AvroValue) -> (r: Result<Vec<u8>, DriverError>)
    ensures
        r is Ok <==> avro_encodable(schema@, *value),
        r matches Err(e) ==> e is Encoding,
{
    match avro_encode(schema, value) {
        Ok(bytes) => Ok(bytes),
        Err(e) => Err(DriverError::Encoding(e)),
    }
}

/// Everything a transport needs to post one event to the delivery endpoint.
pub struct DeliveryRequest {
    pub url: &'static str,
    /// The value of the `authorization` header.
    pub authorization: String,
    /// The value of the `Strm-Schema-Ref` header.
    pub schema_ref: String,
    pub body: Vec<u8>,
}

/// Builds the delivery requests for one delivery endpoint.
pub struct SenderService {
    pub api_url: &'static str,
}

impl SenderService {
    pub fn new(api_url: &'static str) -> (r: Self)
        ensures
            r.api_url@ == api_url@,
    {
        SenderService { api_url }
    }

    /// The request that delivers the already encoded event `encoded` with the bearer
    /// value of `token`; an encoding failure is passed on unchanged.
    pub fn build_request(&self, token: &Token, schema_ref: &str, encoded: Result<Vec<u8>, DriverError>) -> (r:
        Result<DeliveryRequest, DriverError>)
        ensures
            match encoded {
                Ok(bytes) => r matches Ok(req) && {
                    &&& req.url@ == self.api_url@
                    &&& req.authorization@ == bearer_of(token.access_token@)
                    &&& req.schema_ref@ == schema_ref@
                    &&& req.body@ == bytes@
                },
                Err(e) => r == Err::<DeliveryRequest, DriverError>(e),
            },
    {
        match encoded {
            Ok(body) => Ok(
                DeliveryRequest {
                    url: self.api_url,
                    authorization: token.format_bearer(),
                    schema_ref: String::from_str(schema_ref),
                    body,
                },
            ),
            Err(e) => Err(e),
        }
    }

    /// Encodes `value` under `schema` and builds the request that delivers it with the
    /// bearer value of `token` and the routing header `schema_ref`.
    pub fn send_event(
        &self,
        token: &Token,
        schema_ref: &str,
        schema: &str,
        value: &AvroValue,
    ) -> (r: Result<DeliveryRequest, DriverError>)
        ensures
            r is Ok <==> avro_encodable(schema@, *value),
            r matches Ok(req) ==> {
                &&& req.url@ == self.api_url@
                &&& req.authorization@ == bearer_of(token.access_token@)
                &&& req.schema_ref@ == schema_ref@
            },
            r matches Err(e) ==> e is Encoding,
    {
        let encoded = encode_event(schema, value);
        self.build_request(token, schema_ref, encoded)
    }
}

} // verus!
