use vstd::prelude::*;
use vstd::string::StringSliceAdditionalSpecFns;
use vstd::utf8::encode_utf8;
use crate::cstr::{
    c_prefix, c_string, from_c_str, lemma_text_round_trip, make_c_str, no_nul, nul_error,
    text_of_bytes,
};
use crate::error::{check_apicall, Error, Result};

verus! {

/// Capacity of the buffer that receives a string parameter: the native
/// limit on the length of a string value, terminator included.
pub const MAX_STRLEN: usize = 512;

/// The three parameter families of the native API.
#[derive(Debug, Clone, Copy, PartialEq, Eq)]
pub enum ParamFamily {
    Int,
    Double,
    Str,
}

/// A parameter value. A real value is carried as its IEEE-754 bit pattern.
#[derive(Debug, Clone, PartialEq, Eq)]
pub enum ParamValue {
    Int(i32),
    Double(u64),
    Str(String),
}

/// The mathematical value of a parameter.
pub enum ParamVal {
    Int(i32),
    Double(u64),
    Str(Seq<char>),
}

impl View for ParamValue {
    type V = ParamVal;

    open spec fn view(&self) -> ParamVal {
        match self {
            ParamValue::Int(v) => ParamVal::Int(*v),
            ParamValue::Double(v) => ParamVal::Double(*v),
            ParamValue::Str(s) => ParamVal::Str(s@),
        }
    }
}

/// The raw contents of a native value buffer: a scalar, or a C text buffer.
#[derive(Debug, Clone, PartialEq, Eq)]
pub enum RawValue {
    Int(i32),
    Double(u64),
    Str(Vec<u8>),
}

/// The mathematical contents of a native value buffer.
pub enum RawVal {
    Int(i32),
    Double(u64),
    Str(Seq<u8>),
}

impl View for RawValue {
    type V = RawVal;

    open spec fn view(&self) -> RawVal {
        match self {
            RawValue::Int(v) => RawVal::Int(*v),
            RawValue::Double(v) => RawVal::Double(*v),
            RawValue::Str(b) => RawVal::Str(b@),
        }
    }
}

pub open spec fn family_of_val(v: ParamVal) -> ParamFamily {
    match v {
        ParamVal::Int(_) => ParamFamily::Int,
        ParamVal::Double(_) => ParamFamily::Double,
        ParamVal::Str(_) => ParamFamily::Str,
    }
}

/// A value that the native representation can hold: text without NUL.
pub open spec fn encodable(v: ParamVal) -> bool {
    match v {
        ParamVal::Str(s) => no_nul(encode_utf8(s)),
        _ => true,
    }
}

/// The encoding error for a value that cannot be encoded.
pub open spec fn value_nul_error(v: ParamVal) -> Error {
    match v {
        ParamVal::Str(s) => nul_error(encode_utf8(s)),
        _ => Error::NulError(0),
    }
}

/// What a setter is handed for a value: numbers as they are, text as a C
/// string.
pub open spec fn raw_of(v: ParamVal) -> RawVal {
    match v {
        ParamVal::Int(x) => RawVal::Int(x),
        ParamVal::Double(x) => RawVal::Double(x),
        ParamVal::Str(s) => RawVal::Str(c_string(encode_utf8(s))),
    }
}

/// What a getter's buffer holds as a value: numbers as they are, text read
/// up to its terminator.
pub open spec fn value_of_raw(r: RawVal) -> ParamVal {
    match r {
        RawVal::Int(x) => ParamVal::Int(x),
        RawVal::Double(x) => ParamVal::Double(x),
        RawVal::Str(b) => ParamVal::Str(text_of_bytes(c_prefix(b))),
    }
}

/// The fresh buffer for a getter of a family: zero, or a zeroed text buffer
/// of `MAX_STRLEN` bytes.
pub open spec fn fresh_buffer(f: ParamFamily) -> RawVal {
    match f {
        ParamFamily::Int => RawVal::Int(0),
        ParamFamily::Double => RawVal::Double(0),
        ParamFamily::Str => RawVal::Str(Seq::new(MAX_STRLEN as nat, |i: int| 0u8)),
    }
}

/// The family that a value belongs to.
pub fn family_of(v: &ParamValue) -> (f: ParamFamily)
    ensures
        f == family_of_val(v@),
{
    match v {
        ParamValue::Int(_) => ParamFamily::Int,
        ParamValue::Double(_) => ParamFamily::Double,
        ParamValue::Str(_) => ParamFamily::Str,
    }
}

/// A freshly zeroed buffer of the shape that the family's getter writes.
pub fn new_buffer(family: ParamFamily) -> (r: RawValue)
    ensures
        r@ == fresh_buffer(family),
{
    match family {
        ParamFamily::Int => RawValue::Int(0),
        ParamFamily::Double => RawValue::Double(0),
        ParamFamily::Str => {
            let mut b: Vec<u8> = Vec::new();
            let mut i: usize = 0;
            while i < MAX_STRLEN
                invariant
                    i <= MAX_STRLEN,
                    b@ == Seq::new(i as nat, |j: int| 0u8),
                decreases MAX_STRLEN - i,
            {
                b.push(0);
                i = i + 1;
                assert(b@ =~= Seq::new(i as nat, |j: int| 0u8));
            }
            RawValue::Str(b)
        },
    }
}

/// Converts a value into what the family's setter takes; text with a NUL
/// byte is refused.
pub fn to_raw(value: &ParamValue) -> (r: Result<RawValue>)
    ensures
        r is Ok <==> encodable(value@),
        r matches Ok(raw) ==> raw@ == raw_of(value@),
        r matches Err(e) ==> e == value_nul_error(value@),
{
    match value {
        ParamValue::Int(x) => Ok(RawValue::Int(*x)),
        ParamValue::Double(x) => Ok(RawValue::Double(*x)),
        ParamValue::Str(s) => {
            match make_c_str(s.as_str()) {
                Ok(b) => Ok(RawValue::Str(b)),
                Err(e) => Err(e),
            }
        },
    }
}

/// Converts the contents of a getter's buffer into a value.
pub fn from_raw(raw: &RawValue) -> (r: ParamValue)
    ensures
        r@ == value_of_raw(raw@),
{
    match raw {
        RawValue::Int(x) => ParamValue::Int(*x),
        RawValue::Double(x) => ParamValue::Double(*x),
        RawValue::Str(b) => ParamValue::Str(from_c_str(b.as_slice())),
    }
}

/// A staged call of a getter: the parameter's encoded name and the buffer
/// that receives the value.
pub struct GetCall {
    pub name: Vec<u8>,
    pub buf: RawValue,
}

/// A staged call of a setter: the parameter's encoded name and the raw
/// value.
pub struct SetCall {
    pub name: Vec<u8>,
    pub value: RawValue,
}

/// Stages the getter of a parameter of `family` named `name`.
pub fn prepare_get(name: &str, family: ParamFamily) -> (r: Result<GetCall>)
    ensures
        r is Ok <==> no_nul(name.spec_bytes()),
        r matches Ok(c) ==> c.name@ == c_string(name.spec_bytes()) && c.buf@ == fresh_buffer(
            family,
        ),
        r matches Err(e) ==> e == nul_error(name.spec_bytes()),
{
    let name = make_c_str(name)?;
    Ok(GetCall { name, buf: new_buffer(family) })
}

/// Stages the setter of the parameter named `name` with `value`. The name is
/// checked first, then the value.
pub fn prepare_set(name: &str, value: &ParamValue) -> (r: Result<SetCall>)
    ensures
        r is Ok <==> no_nul(name.spec_bytes()) && encodable(value@),
        r matches Ok(c) ==> c.name@ == c_string(name.spec_bytes()) && c.value@ == raw_of(value@),
        r matches Err(e) ==> e == if !no_nul(name.spec_bytes()) {
            nul_error(name.spec_bytes())
        } else {
            value_nul_error(value@)
        },
{
    let name = make_c_str(name)?;
    let raw = to_raw(value)?;
    Ok(SetCall { name, value: raw })
}

/// Completes a getter: its status, the diagnostic text queried on failure,
/// and the buffer that it wrote.
pub fn finish_get(status: i32, errmsg: Option<String>, buf: &RawValue) -> (r: Result<ParamValue>)
    ensures
        r is Ok <==> status == 0,
        r matches Ok(v) ==> v@ == value_of_raw(buf@),
        status != 0 ==> (r matches Err(Error::FromAPI(m, c)) && c == status && m@ == match errmsg {
            Some(s) => s@,
            None => Seq::<char>::empty(),
        }),
{
    check_apicall(status, errmsg)?;
    Ok(from_raw(buf))
}

/// A value handed to a setter, when a getter's buffer holds it back, reads
/// as the same value, in each family.
pub proof fn lemma_set_get_round_trip(v: ParamVal)
    requires
        encodable(v),
    ensures
        value_of_raw(raw_of(v)) == v,
        family_of_val(value_of_raw(raw_of(v))) == family_of_val(v),
{
    if let ParamVal::Str(s) = v {
        lemma_text_round_trip(s);
    }
}

} // verus!
