//! The two value worlds this layer converts between, and their models.
//!
//! Floating-point numbers are carried as their IEEE-754 binary64 bit
//! patterns: nothing here computes with them, it only routes them.
use vstd::prelude::*;

verus! {

/// A value of the engine's closed variant set.
#[derive(Debug)]
pub enum Value {
    Null,
    Bool(bool),
    Int(i64),
    /// A binary64 number, by its bit pattern.
    Float(u64),
    Str(String),
    Bytes(Vec<u8>),
    Array(Vec<Value>),
    /// Fields of an object; a key occurs at most once.
    Object(Vec<(String, Value)>),
}

/// A dynamically typed value as the host hands it over (JSON-shaped).
#[derive(Debug)]
pub enum HostValue {
    Null,
    Bool(bool),
    /// A number the host holds as a signed integer.
    Int(i64),
    /// A number the host holds as an unsigned integer.
    UInt(u64),
    /// A number the host holds as binary64, by its bit pattern.
    Float(u64),
    Str(String),
    Array(Vec<HostValue>),
    Object(Vec<(String, HostValue)>),
}

/// The mathematical model of a [`Value`].
pub enum ValueModel {
    Null,
    Bool(bool),
    Int(i64),
    Float(u64),
    Str(Seq<char>),
    Bytes(Seq<u8>),
    Array(Seq<ValueModel>),
    Object(Seq<(Seq<char>, ValueModel)>),
}

/// The mathematical model of a [`HostValue`].
pub enum HostModel {
    Null,
    Bool(bool),
    Int(i64),
    UInt(u64),
    Float(u64),
    Str(Seq<char>),
    Array(Seq<HostModel>),
    Object(Seq<(Seq<char>, HostModel)>),
}

pub open spec fn value_model(v: Value) -> ValueModel
    decreases v,
{
    match v {
        Value::Null => ValueModel::Null,
        Value::Bool(b) => ValueModel::Bool(b),
        Value::Int(i) => ValueModel::Int(i),
        Value::Float(f) => ValueModel::Float(f),
        Value::Str(s) => ValueModel::Str(s@),
        Value::Bytes(b) => ValueModel::Bytes(b@),
        Value::Array(a) => ValueModel::Array(
            Seq::new(
                a@.len(),
                |i: int|
                    if 0 <= i < a@.len() {
                        value_model(a@[i])
                    } else {
                        ValueModel::Null
                    },
            ),
        ),
        Value::Object(o) => ValueModel::Object(
            Seq::new(
                o@.len(),
                |i: int|
                    if 0 <= i < o@.len() {
                        (o@[i].0@, value_model(o@[i].1))
                    } else {
                        (Seq::empty(), ValueModel::Null)
                    },
            ),
        ),
    }
}

pub open spec fn host_model(h: HostValue) -> HostModel
    decreases h,
{
    match h {
        HostValue::Null => HostModel::Null,
        HostValue::Bool(b) => HostModel::Bool(b),
        HostValue::Int(i) => HostModel::Int(i),
        HostValue::UInt(u) => HostModel::UInt(u),
        HostValue::Float(f) => HostModel::Float(f),
        HostValue::Str(s) => HostModel::Str(s@),
        HostValue::Array(a) => HostModel::Array(
            Seq::new(
                a@.len(),
                |i: int|
                    if 0 <= i < a@.len() {
                        host_model(a@[i])
                    } else {
                        HostModel::Null
                    },
            ),
        ),
        HostValue::Object(o) => HostModel::Object(
            Seq::new(
                o@.len(),
                |i: int|
                    if 0 <= i < o@.len() {
                        (o@[i].0@, host_model(o@[i].1))
                    } else {
                        (Seq::empty(), HostModel::Null)
                    },
            ),
        ),
    }
}

impl View for Value {
    type V = ValueModel;

    open spec fn view(&self) -> ValueModel {
        value_model(*self)
    }
}

impl View for HostValue {
    type V = HostModel;

    open spec fn view(&self) -> HostModel {
        host_model(*self)
    }
}

/// A value paired with the version and timestamp the engine gave it.
#[derive(Debug)]
pub struct VersionedValue {
    pub value: Value,
    pub version: u64,
    /// Microseconds since the epoch.
    pub timestamp: u64,
}

} // verus!
