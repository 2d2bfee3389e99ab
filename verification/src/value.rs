//! The values that flow through a pipeline, tagged by their type.
//!
//! A scope stores at most one live value per [`TypeKey`]; a value is keyed by
//! its own kind. The set of kinds is the tagged union of every type that the
//! engine lets flow through a pipeline: integers, booleans, text, optional
//! values and fallible values.

use vstd::prelude::*;

verus! {

/// Identity of a value kind: the key under which a value of that kind lives
/// in a scope. At most one value per key is live at a time.
#[derive(Clone, Copy, PartialEq, Eq, Structural, Debug)]
pub enum TypeKey {
    I64,
    Bool,
    Str,
    OptI64,
    OptStr,
    ResI64,
}

/// One value in flight through a pipeline, tagged with its kind.
#[derive(PartialEq, Eq, Debug)]
pub enum Value {
    I64(i64),
    Bool(bool),
    Str(String),
    OptI64(Option<i64>),
    OptStr(Option<String>),
    ResI64(Result<i64, String>),
}

/// The key a value is stored under: the identity of its own kind.
pub open spec fn key_of(v: Value) -> TypeKey {
    match v {
        Value::I64(_) => TypeKey::I64,
        Value::Bool(_) => TypeKey::Bool,
        Value::Str(_) => TypeKey::Str,
        Value::OptI64(_) => TypeKey::OptI64,
        Value::OptStr(_) => TypeKey::OptStr,
        Value::ResI64(_) => TypeKey::ResI64,
    }
}

/// A value of an optional kind that is absent: the signal on which a "some"
/// stage halts the run.
pub open spec fn is_none_value(v: Value) -> bool {
    match v {
        Value::OptI64(o) => o is None,
        Value::OptStr(o) => o is None,
        _ => false,
    }
}

/// A value of a fallible kind that is an error: the signal on which an "ok"
/// stage halts the run.
pub open spec fn is_err_value(v: Value) -> bool {
    match v {
        Value::ResI64(r) => r is Err,
        _ => false,
    }
}

impl Value {
    /// The key this value is stored under.
    pub fn key(&self) -> (k: TypeKey)
        ensures
            k == key_of(*self),
    {
        match self {
            Value::I64(_) => TypeKey::I64,
            Value::Bool(_) => TypeKey::Bool,
            Value::Str(_) => TypeKey::Str,
            Value::OptI64(_) => TypeKey::OptI64,
            Value::OptStr(_) => TypeKey::OptStr,
            Value::ResI64(_) => TypeKey::ResI64,
        }
    }

    /// An equal copy of this value.
    pub fn duplicate(&self) -> (r: Value)
        ensures
            r == *self,
    {
        match self {
            Value::I64(n) => Value::I64(*n),
            Value::Bool(b) => Value::Bool(*b),
            Value::Str(s) => Value::Str(s.clone()),
            Value::OptI64(o) => Value::OptI64(*o),
            Value::OptStr(o) => match o {
                None => Value::OptStr(None),
                Some(s) => Value::OptStr(Some(s.clone())),
            },
            Value::ResI64(r) => match r {
                Ok(n) => Value::ResI64(Ok(*n)),
                Err(e) => Value::ResI64(Err(e.clone())),
            },
        }
    }

    /// Whether this value is an absent optional: a "some" stage halts on it.
    pub fn is_none_value(&self) -> (r: bool)
        ensures
            r == is_none_value(*self),
    {
        match self {
            Value::OptI64(o) => o.is_none(),
            Value::OptStr(o) => o.is_none(),
            _ => false,
        }
    }

    /// Whether this value is an error: an "ok" stage halts on it.
    pub fn is_err_value(&self) -> (r: bool)
        ensures
            r == is_err_value(*self),
    {
        match self {
            Value::ResI64(r) => r.is_err(),
            _ => false,
        }
    }
}

} // verus!
