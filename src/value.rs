use vstd::prelude::*;
use vstd::slice::slice_to_vec;
use vstd::utf8::{decode_utf8, encode_utf8, valid_utf8};

verus! {

broadcast use vstd::utf8::encode_utf8_valid_utf8, vstd::utf8::encode_utf8_decode_utf8;

/// Largest value of `i64`, as an unsigned integer.
pub const I64_MAX: u64 = 0x7fff_ffff_ffff_ffff;

/// A number of the wire format. A floating-point number is held as the bit
/// pattern of its IEEE-754 double.
#[derive(Clone, Copy, Debug, PartialEq, Eq, Structural)]
pub enum JsonNumber {
    Int(i64),
    UInt(u64),
    Float(u64),
}

/// A value of the wire format.
#[derive(Debug)]
pub enum JsonValue {
    Null,
    Bool(bool),
    Number(JsonNumber),
    String(String),
    Array(Vec<JsonValue>),
    Object(Vec<(String, JsonValue)>),
}

/// A value of the database driver. `Float` holds the single-precision value
/// widened to a double, and `Double` the double itself, each as a bit pattern.
#[derive(Debug)]
pub enum NativeValue {
    Null,
    Bool(bool),
    Bytes(Vec<u8>),
    Int(i64),
    UInt(u64),
    Float(u64),
    Double(u64),
    Date(u16, u8, u8, u8, u8, u8, u32),
    Time(bool, u32, u8, u8, u8, u32),
}

/// What the codec sees of a wire value: arrays and objects are only told apart
/// from scalars.
pub enum JsonModel {
    Null,
    Bool(bool),
    Number(JsonNumber),
    String(Seq<char>),
    Array,
    Object,
}

pub enum NativeModel {
    Null,
    Bool(bool),
    Bytes(Seq<u8>),
    Int(i64),
    UInt(u64),
    Float(u64),
    Double(u64),
    Date(u16, u8, u8, u8, u8, u8, u32),
    Time(bool, u32, u8, u8, u8, u32),
}

impl View for JsonValue {
    type V = JsonModel;

    open spec fn view(&self) -> JsonModel {
        match self {
            JsonValue::Null => JsonModel::Null,
            JsonValue::Bool(b) => JsonModel::Bool(*b),
            JsonValue::Number(n) => JsonModel::Number(*n),
            JsonValue::String(s) => JsonModel::String(s@),
            JsonValue::Array(_) => JsonModel::Array,
            JsonValue::Object(_) => JsonModel::Object,
        }
    }
}

impl View for NativeValue {
    type V = NativeModel;

    open spec fn view(&self) -> NativeModel {
        match self {
            NativeValue::Null => NativeModel::Null,
            NativeValue::Bool(b) => NativeModel::Bool(*b),
            NativeValue::Bytes(b) => NativeModel::Bytes(b@),
            NativeValue::Int(i) => NativeModel::Int(*i),
            NativeValue::UInt(u) => NativeModel::UInt(*u),
            NativeValue::Float(f) => NativeModel::Float(*f),
            NativeValue::Double(d) => NativeModel::Double(*d),
            NativeValue::Date(y, mo, d, h, mi, s, us) => NativeModel::Date(
                *y,
                *mo,
                *d,
                *h,
                *mi,
                *s,
                *us,
            ),
            NativeValue::Time(neg, d, h, mi, s, us) => NativeModel::Time(*neg, *d, *h, *mi, *s, *us),
        }
    }
}

/// A double's bit pattern is finite when its exponent is not all ones.
pub open spec fn is_finite_bits(bits: u64) -> bool {
    (bits >> 52u64) & 0x7ffu64 != 0x7ffu64
}

/// An integer number in its canonical form: `Int` whenever the value fits.
pub open spec fn unsigned_number(u: u64) -> JsonNumber {
    if u <= I64_MAX {
        JsonNumber::Int(u as i64)
    } else {
        JsonNumber::UInt(u)
    }
}

/// A number as the wire format holds it: `UInt` only above the signed range,
/// and a float only when finite.
pub open spec fn number_wf(n: JsonNumber) -> bool {
    match n {
        JsonNumber::Int(_) => true,
        JsonNumber::UInt(u) => u > I64_MAX,
        JsonNumber::Float(bits) => is_finite_bits(bits),
    }
}

/// Text of a byte string whose invalid sequences were replaced.
pub uninterp spec fn lossy_text(bytes: Seq<u8>) -> Seq<char>;

/// Bytes read as UTF-8; valid input decodes exactly.
pub open spec fn decoded_text(bytes: Seq<u8>) -> Seq<char> {
    if valid_utf8(bytes) {
        decode_utf8(bytes)
    } else {
        lossy_text(bytes)
    }
}

/// The parameter that a wire value is bound as.
pub open spec fn to_native_spec(v: JsonModel) -> NativeModel {
    match v {
        JsonModel::Null => NativeModel::Null,
        JsonModel::Bool(b) => NativeModel::Bool(b),
        JsonModel::Number(JsonNumber::Int(i)) => NativeModel::Int(i),
        JsonModel::Number(JsonNumber::UInt(u)) => if u <= I64_MAX {
            NativeModel::Int(u as i64)
        } else {
            NativeModel::UInt(u)
        },
        JsonModel::Number(JsonNumber::Float(bits)) => NativeModel::Double(bits),
        JsonModel::String(s) => NativeModel::Bytes(encode_utf8(s)),
        JsonModel::Array => NativeModel::Null,
        JsonModel::Object => NativeModel::Null,
    }
}

/// A floating-point cell: a number when finite, else null.
pub open spec fn float_json(bits: u64) -> JsonModel {
    if is_finite_bits(bits) {
        JsonModel::Number(JsonNumber::Float(bits))
    } else {
        JsonModel::Null
    }
}

/// The wire value that a result cell is sent as.
pub open spec fn to_json_spec(v: NativeModel) -> JsonModel {
    match v {
        NativeModel::Null => JsonModel::Null,
        NativeModel::Bool(b) => JsonModel::Bool(b),
        NativeModel::Bytes(b) => JsonModel::String(decoded_text(b)),
        NativeModel::Int(i) => JsonModel::Number(JsonNumber::Int(i)),
        NativeModel::UInt(u) => JsonModel::Number(unsigned_number(u)),
        NativeModel::Float(bits) => float_json(bits),
        NativeModel::Double(bits) => float_json(bits),
        NativeModel::Date(y, mo, d, h, mi, s, us) => JsonModel::String(
            crate::text::date_text(y, mo, d, h, mi, s, us),
        ),
        NativeModel::Time(neg, d, h, mi, s, us) => JsonModel::String(
            crate::text::time_text(neg, d, h, mi, s, us),
        ),
    }
}

/// A scalar of the wire format, as the wire format holds it.
pub open spec fn is_wf_scalar(v: JsonModel) -> bool {
    match v {
        JsonModel::Null => true,
        JsonModel::Bool(_) => true,
        JsonModel::Number(n) => number_wf(n),
        JsonModel::String(_) => true,
        JsonModel::Array => false,
        JsonModel::Object => false,
    }
}

/// Relies on `String::from_utf8_lossy`: valid UTF-8 is decoded as it is, and
/// the result depends on the bytes alone.
#[verifier::external_body]
fn decode_lossy(bytes: &Vec<u8>) -> (r: String)
    ensures
        valid_utf8(bytes@) ==> r@ == decode_utf8(bytes@),
        !valid_utf8(bytes@) ==> r@ == lossy_text(bytes@),
{
    String::from_utf8_lossy(bytes).into_owned()
}

fn is_finite(bits: u64) -> (r: bool)
    ensures
        r == is_finite_bits(bits),
{
    (bits >> 52u64) & 0x7ffu64 != 0x7ffu64
}

/// Converts a wire value to the parameter it is bound as. Arrays, objects and
/// anything else that has no parameter form become null.
pub fn to_native(v: &JsonValue) -> (r: NativeValue)
    ensures
        r@ == to_native_spec(v@),
{
    match v {
        JsonValue::Null => NativeValue::Null,
        JsonValue::Bool(b) => NativeValue::Bool(*b),
        JsonValue::Number(JsonNumber::Int(i)) => NativeValue::Int(*i),
        JsonValue::Number(JsonNumber::UInt(u)) => {
            if *u <= I64_MAX {
                NativeValue::Int(*u as i64)
            } else {
                NativeValue::UInt(*u)
            }
        },
        JsonValue::Number(JsonNumber::Float(bits)) => NativeValue::Double(*bits),
        JsonValue::String(s) => NativeValue::Bytes(slice_to_vec(s.as_str().as_bytes())),
        JsonValue::Array(_) => NativeValue::Null,
        JsonValue::Object(_) => NativeValue::Null,
    }
}

/// Converts a result cell to the wire value it is sent as.
pub fn to_json(v: &NativeValue) -> (r: JsonValue)
    ensures
        r@ == to_json_spec(v@),
{
    match v {
        NativeValue::Null => JsonValue::Null,
        NativeValue::Bool(b) => JsonValue::Bool(*b),
        NativeValue::Bytes(b) => JsonValue::String(decode_lossy(b)),
        NativeValue::Int(i) => JsonValue::Number(JsonNumber::Int(*i)),
        NativeValue::UInt(u) => {
            if *u <= I64_MAX {
                JsonValue::Number(JsonNumber::Int(*u as i64))
            } else {
                JsonValue::Number(JsonNumber::UInt(*u))
            }
        },
        NativeValue::Float(bits) | NativeValue::Double(bits) => {
            if is_finite(*bits) {
                JsonValue::Number(JsonNumber::Float(*bits))
            } else {
                JsonValue::Null
            }
        },
        NativeValue::Date(y, mo, d, h, mi, s, us) => JsonValue::String(
            crate::text::format_date(*y, *mo, *d, *h, *mi, *s, *us),
        ),
        NativeValue::Time(neg, d, h, mi, s, us) => JsonValue::String(
            crate::text::format_time(*neg, *d, *h, *mi, *s, *us),
        ),
    }
}

/// Converts the parameters of a request, in order.
pub fn bind_values(values: &Vec<JsonValue>) -> (r: Vec<NativeValue>)
    ensures
        r.len() == values.len(),
        forall|i: int| 0 <= i < values.len() ==> #[trigger] r[i]@ == to_native_spec(values[i]@),
{
    let mut out: Vec<NativeValue> = Vec::new();
    let mut i: usize = 0;
    while i < values.len()
        invariant
            i <= values.len(),
            out.len() == i,
            forall|j: int| 0 <= j < i ==> #[trigger] out[j]@ == to_native_spec(values[j]@),
        decreases values.len() - i,
    {
        out.push(to_native(&values[i]));
        i = i + 1;
    }
    out
}

/// A scalar wire value, as the wire format holds it, comes back unchanged
/// after being bound as a parameter and read back as a cell.
pub proof fn lemma_scalar_round_trip(v: JsonModel)
    requires
        is_wf_scalar(v),
    ensures
        to_json_spec(to_native_spec(v)) == v,
{
    match v {
        JsonModel::Number(JsonNumber::Int(i)) => {},
        JsonModel::Number(JsonNumber::UInt(u)) => {},
        JsonModel::Number(JsonNumber::Float(bits)) => {},
        JsonModel::String(s) => {
            assert(valid_utf8(encode_utf8(s)));
            assert(decode_utf8(encode_utf8(s)) == s);
        },
        _ => {},
    }
}

/// Arrays and objects are bound as null, whatever they hold.
pub proof fn lemma_composite_binds_null(v: JsonModel)
    requires
        v is Array || v is Object,
    ensures
        to_native_spec(v) == NativeModel::Null,
{
}

} // verus!
