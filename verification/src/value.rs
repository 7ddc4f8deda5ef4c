//! Dynamic values, native values, and the codec between them.

use vstd::prelude::*;
use crate::error::{BridgeError, ErrorModel};

verus! {

/// A JSON number, carried through unopened: it stands for a floating-point
/// value, which this crate never inspects.
#[verifier::external_type_specification]
#[verifier::external_body]
pub struct ExNumber(serde_json::Number);

/// A value as the host supplies or receives it.
#[derive(Clone, Debug, PartialEq)]
pub enum DynamicValue {
    Null,
    Bool(bool),
    Int(i64),
    Float(serde_json::Number),
    Text(String),
    Blob(Vec<u8>),
}

/// A value as the engine binds or returns it.
///
/// `Real(None)` is a real that is not finite: the engine can return one, and
/// no dynamic value stands for it.
#[derive(Clone, Debug, PartialEq)]
pub enum NativeValue {
    Null,
    Integer(i64),
    Real(Option<serde_json::Number>),
    Text(String),
    Blob(Vec<u8>),
}

/// The mathematical reading of a [`DynamicValue`].
pub enum DynamicModel {
    Null,
    Bool(bool),
    Int(int),
    Float(serde_json::Number),
    Text(Seq<char>),
    Blob(Seq<u8>),
}

/// The mathematical reading of a [`NativeValue`].
pub enum NativeModel {
    Null,
    Integer(int),
    Real(Option<serde_json::Number>),
    Text(Seq<char>),
    Blob(Seq<u8>),
}

impl View for DynamicValue {
    type V = DynamicModel;

    open spec fn view(&self) -> DynamicModel {
        match self {
            DynamicValue::Null => DynamicModel::Null,
            DynamicValue::Bool(b) => DynamicModel::Bool(*b),
            DynamicValue::Int(i) => DynamicModel::Int(*i as int),
            DynamicValue::Float(x) => DynamicModel::Float(*x),
            DynamicValue::Text(s) => DynamicModel::Text(s@),
            DynamicValue::Blob(b) => DynamicModel::Blob(b@),
        }
    }
}

impl View for NativeValue {
    type V = NativeModel;

    open spec fn view(&self) -> NativeModel {
        match self {
            NativeValue::Null => NativeModel::Null,
            NativeValue::Integer(i) => NativeModel::Integer(*i as int),
            NativeValue::Real(x) => NativeModel::Real(*x),
            NativeValue::Text(s) => NativeModel::Text(s@),
            NativeValue::Blob(b) => NativeModel::Blob(b@),
        }
    }
}

/// The native value that the engine binds for a dynamic value. A boolean
/// becomes the integer 0 or 1; every other kind keeps its payload.
pub open spec fn native_of(v: DynamicModel) -> NativeModel {
    match v {
        DynamicModel::Null => NativeModel::Null,
        DynamicModel::Bool(b) => NativeModel::Integer(if b { 1 } else { 0 }),
        DynamicModel::Int(i) => NativeModel::Integer(i),
        DynamicModel::Float(x) => NativeModel::Real(Some(x)),
        DynamicModel::Text(s) => NativeModel::Text(s),
        DynamicModel::Blob(b) => NativeModel::Blob(b),
    }
}

/// The name under which a real that is not finite is reported.
pub open spec fn non_finite_real() -> Seq<char> {
    "non-finite real"@
}

/// The dynamic value that stands for a native value, or the failure where
/// none does.
pub open spec fn dynamic_of(n: NativeModel) -> Result<DynamicModel, ErrorModel> {
    match n {
        NativeModel::Null => Ok(DynamicModel::Null),
        NativeModel::Integer(i) => Ok(DynamicModel::Int(i)),
        NativeModel::Real(Some(x)) => Ok(DynamicModel::Float(x)),
        NativeModel::Real(None) => Err(ErrorModel::UnsupportedType(non_finite_real())),
        NativeModel::Text(s) => Ok(DynamicModel::Text(s)),
        NativeModel::Blob(b) => Ok(DynamicModel::Blob(b)),
    }
}

/// The reading of the outcome of a conversion to a dynamic value.
pub open spec fn decoded(r: Result<DynamicValue, BridgeError>) -> Result<DynamicModel, ErrorModel> {
    match r {
        Ok(v) => Ok(v@),
        Err(e) => Err(e@),
    }
}

/// `Clone` for `serde_json::Number`, which is derived there: the copy is the
/// number itself.
pub assume_specification[ <serde_json::Number as Clone>::clone ](
    x: &serde_json::Number,
) -> (r: serde_json::Number)
    ensures
        r == *x,
;

fn copy_bytes(bytes: &Vec<u8>) -> (r: Vec<u8>)
    ensures
        r@ == bytes@,
{
    let mut out: Vec<u8> = Vec::new();
    let mut i: usize = 0;
    while i < bytes.len()
        invariant
            i <= bytes.len(),
            out@ == bytes@.subrange(0, i as int),
        decreases bytes.len() - i,
    {
        out.push(bytes[i]);
        i = i + 1;
    }
    assert(bytes@.subrange(0, bytes@.len() as int) == bytes@);
    out
}

/// Converts a dynamic value to the native value that the engine binds.
pub fn to_native(value: &DynamicValue) -> (native: NativeValue)
    ensures
        native@ == native_of(value@),
{
    match value {
        DynamicValue::Null => NativeValue::Null,
        DynamicValue::Bool(b) => NativeValue::Integer(if *b { 1 } else { 0 }),
        DynamicValue::Int(i) => NativeValue::Integer(*i),
        DynamicValue::Float(x) => NativeValue::Real(Some(x.clone())),
        DynamicValue::Text(s) => NativeValue::Text(s.clone()),
        DynamicValue::Blob(b) => NativeValue::Blob(copy_bytes(b)),
    }
}

/// Converts a native value to the dynamic value that stands for it. Only a
/// real that is not finite has none.
pub fn from_native(native: NativeValue) -> (r: Result<DynamicValue, BridgeError>)
    ensures
        decoded(r) == dynamic_of(native@),
{
    match native {
        NativeValue::Null => Ok(DynamicValue::Null),
        NativeValue::Integer(i) => Ok(DynamicValue::Int(i)),
        NativeValue::Real(Some(x)) => Ok(DynamicValue::Float(x)),
        NativeValue::Real(None) => Err(BridgeError::UnsupportedType("non-finite real".to_owned())),
        NativeValue::Text(s) => Ok(DynamicValue::Text(s)),
        NativeValue::Blob(b) => Ok(DynamicValue::Blob(b)),
    }
}

/// Every dynamic value but a boolean survives the way to the engine and
/// back unchanged.
pub proof fn lemma_round_trip(v: DynamicModel)
    requires
        !(v is Bool),
    ensures
        dynamic_of(native_of(v)) == Ok::<DynamicModel, ErrorModel>(v),
{
}

/// A boolean comes back from the engine as the integer 0 or 1.
pub proof fn lemma_round_trip_bool(b: bool)
    ensures
        dynamic_of(native_of(DynamicModel::Bool(b))) == Ok::<DynamicModel, ErrorModel>(
            DynamicModel::Int(if b { 1 } else { 0 }),
        ),
{
}

/// Binding never produces a real that is not finite, so what was bound can
/// always be read back.
pub proof fn lemma_bound_value_decodes(v: DynamicModel)
    ensures
        dynamic_of(native_of(v)) is Ok,
        native_of(v) != NativeModel::Real(None),
{
}

} // verus!
