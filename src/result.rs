use vstd::prelude::*;
use crate::error::FixtureError;
use crate::text::owned;
use crate::value::Value;

verus! {

/// The type that the database reports for a result column.
#[derive(Clone, Copy, Debug, PartialEq, Eq, Structural)]
pub enum NativeType {
    Decimal,
    Tiny,
    Short,
    Long,
    Float,
    Double,
    Null,
    Timestamp,
    LongLong,
    Int24,
    Date,
    Time,
    DateTime,
    Year,
    NewDate,
    VarChar,
    Bit,
    Timestamp2,
    DateTime2,
    Time2,
    TypedArray,
    Vector,
    Unknown,
    Json,
    NewDecimal,
    Enum,
    StringSet,
    TinyBlob,
    MediumBlob,
    LongBlob,
    Blob,
    VarString,
    Char,
    Geometry,
}

/// The coarse type of a result column in a fixture document.
#[derive(Clone, Copy, Debug, PartialEq, Eq, Structural)]
pub enum FixtureType {
    Int,
    Float64,
    Str,
}

impl FixtureType {
    pub open spec fn tag_text(self) -> Seq<char> {
        match self {
            FixtureType::Int => "int"@,
            FixtureType::Float64 => "float64"@,
            FixtureType::Str => "string"@,
        }
    }

    /// The tag written in `expected_types`.
    pub fn tag(&self) -> (r: String)
        ensures
            r@ == self.tag_text(),
    {
        match self {
            FixtureType::Int => owned("int"),
            FixtureType::Float64 => owned("float64"),
            FixtureType::Str => owned("string"),
        }
    }
}

/// Integer-family native types become `int`, floating and decimal types
/// `float64`, and every other type `string`.
pub open spec fn fixture_type_spec(t: NativeType) -> FixtureType {
    match t {
        NativeType::Tiny | NativeType::Short | NativeType::Long | NativeType::LongLong
        | NativeType::Int24 | NativeType::Bit => FixtureType::Int,
        NativeType::Decimal | NativeType::Float | NativeType::Double
        | NativeType::NewDecimal => FixtureType::Float64,
        _ => FixtureType::Str,
    }
}

pub fn fixture_type(t: NativeType) -> (r: FixtureType)
    ensures
        r == fixture_type_spec(t),
{
    match t {
        NativeType::Tiny | NativeType::Short | NativeType::Long | NativeType::LongLong
        | NativeType::Int24 | NativeType::Bit => FixtureType::Int,
        NativeType::Decimal | NativeType::Float | NativeType::Double
        | NativeType::NewDecimal => FixtureType::Float64,
        _ => FixtureType::Str,
    }
}

/// A result cell as the database hands it over. A floating payload is carried
/// as its decimal text; `Other` stands for temporal and any other payload.
#[derive(Debug)]
pub enum NativeValue {
    Null,
    Bytes(Vec<u8>),
    SignedInt(i64),
    UnsignedInt(u64),
    Float(String),
    Other,
}

/// The text that `String::from_utf8_lossy` makes of a byte sequence.
pub uninterp spec fn utf8_lossy(b: Seq<u8>) -> Seq<char>;

/// Every byte is ASCII.
pub open spec fn all_ascii(b: Seq<u8>) -> bool {
    forall|i: int| 0 <= i < b.len() ==> #[trigger] b[i] < 128
}

/// The characters of ASCII bytes, one for each.
pub open spec fn ascii_chars(b: Seq<u8>) -> Seq<char> {
    Seq::new(b.len(), |i: int| b[i] as char)
}

/// Relies on `String::from_utf8_lossy`: invalid sequences become U+FFFD,
/// and valid UTF-8, such as ASCII bytes, is decoded unchanged.
#[verifier::external_body]
fn decode_utf8_lossy(b: &Vec<u8>) -> (r: String)
    ensures
        r@ == utf8_lossy(b@),
        all_ascii(b@) ==> r@ == ascii_chars(b@),
{
    String::from_utf8_lossy(b.as_slice()).into_owned()
}

/// A cell has a conversion: it is not `Other`, and an unsigned integer fits
/// in 64 signed bits.
pub open spec fn convertible(n: NativeValue) -> bool {
    match n {
        NativeValue::Other => false,
        NativeValue::UnsignedInt(u) => u <= i64::MAX,
        _ => true,
    }
}

/// `v` is the value that the convertible cell `n` becomes.
pub open spec fn converts_to(n: NativeValue, v: Value) -> bool {
    match n {
        NativeValue::Null => v == Value::Null,
        NativeValue::Bytes(b) => v is Str && v->Str_0@ == utf8_lossy(b@) && (all_ascii(b@) ==> v->Str_0@
            == ascii_chars(b@)),
        NativeValue::SignedInt(i) => v == Value::Integer(i),
        NativeValue::UnsignedInt(u) => v == Value::Integer(u as i64),
        NativeValue::Float(t) => v == Value::Float(t),
        NativeValue::Other => false,
    }
}

/// Converts a result cell, at `row` and `column` of the result, to a value.
pub fn materialize_value(n: &NativeValue, row: usize, column: usize) -> (r: Result<Value, FixtureError>)
    ensures
        r is Ok <==> convertible(*n),
        r matches Ok(v) ==> converts_to(*n, v),
        r matches Err(e) ==> e == (FixtureError::UnsupportedResultValue { row, column }),
{
    match n {
        NativeValue::Null => Ok(Value::Null),
        NativeValue::Bytes(b) => Ok(Value::Str(decode_utf8_lossy(b))),
        NativeValue::SignedInt(i) => Ok(Value::Integer(*i)),
        NativeValue::UnsignedInt(u) => {
            if *u <= 9223372036854775807u64 {
                Ok(Value::Integer(*u as i64))
            } else {
                Err(FixtureError::UnsupportedResultValue { row, column })
            }
        },
        NativeValue::Float(t) => Ok(Value::Float(t.clone())),
        NativeValue::Other => Err(FixtureError::UnsupportedResultValue { row, column }),
    }
}

} // verus!
