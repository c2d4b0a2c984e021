use vstd::prelude::*;
use crate::result::{all_ascii, convertible, converts_to, NativeValue};
use crate::schema::sample_type;
use crate::statement::renderable;
use crate::value::Value;

verus! {

/// How a column created for a scalar's kind hands the scalar back: integers
/// as signed or unsigned integers, floats as their decimal text, booleans in
/// `tinyint(1)` as 0 or 1, ASCII strings as their bytes, null as null.
pub open spec fn stored_as(v: Value, n: NativeValue) -> bool {
    match v {
        Value::Null => n is Null,
        Value::Bool(b) => n == NativeValue::SignedInt(if b { 1 } else { 0 }) || n == NativeValue::UnsignedInt(
            if b { 1 } else { 0 },
        ),
        Value::Integer(i) => n == NativeValue::SignedInt(i) || (n is UnsignedInt && n->UnsignedInt_0 as int
            == i as int),
        Value::Float(t) => n is Float && n->Float_0@ == t@,
        Value::Str(s) => n is Bytes && n->Bytes_0@.len() == s@.len() && forall|i: int|
            0 <= i < s@.len() ==> #[trigger] n->Bytes_0@[i] < 128 && n->Bytes_0@[i] as char == s@[i],
        Value::Sequence(_) | Value::Mapping(_) => false,
    }
}

/// The value read back holds the same content in the same kind; a boolean
/// comes back as its integer form.
pub open spec fn reads_back_as(v: Value, w: Value) -> bool {
    match v {
        Value::Null => w == Value::Null,
        Value::Bool(b) => w == Value::Integer(if b { 1 } else { 0 }),
        Value::Integer(i) => w == Value::Integer(i),
        Value::Float(t) => w is Float && w->Float_0@ == t@,
        Value::Str(s) => w is Str && w->Str_0@ == s@,
        Value::Sequence(_) | Value::Mapping(_) => false,
    }
}

/// A scalar that the database holds as `stored_as` describes can be written
/// as a literal, gives a column type unless it is null, and is converted back
/// to a value with the same content.
pub proof fn lemma_scalar_round_trip(v: Value, n: NativeValue, w: Value)
    requires
        stored_as(v, n),
        converts_to(n, w),
    ensures
        renderable(v),
        v is Null || sample_type(v) is Some,
        convertible(n),
        reads_back_as(v, w),
{
    if v is Str {
        let b = n->Bytes_0@;
        assert(all_ascii(b));
        assert(w->Str_0@ =~= v->Str_0@);
    }
}

} // verus!
