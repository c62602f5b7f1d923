//! The argument values handed to listeners.
//!
//! Every emission carries an ordered sequence of `Arg` values; the same
//! sequence is shared by all listeners invoked for that emission.  A
//! consumer extracts a concrete value through a checked query that yields
//! `None` on a type mismatch instead of panicking.

use vstd::prelude::*;

verus! {

/// One dynamically-typed argument of an emission.
pub enum Arg {
    I32(i32),
    I64(i64),
    Bool(bool),
    Str(String),
}

impl Arg {
    /// The payload, if this argument holds an `i32`.
    pub fn as_i32(&self) -> (r: Option<i32>)
        ensures
            r == (match *self {
                Arg::I32(v) => Some(v),
                _ => None::<i32>,
            }),
    {
        match self {
            Arg::I32(v) => Some(*v),
            _ => None,
        }
    }

    /// The payload, if this argument holds an `i64`.
    pub fn as_i64(&self) -> (r: Option<i64>)
        ensures
            r == (match *self {
                Arg::I64(v) => Some(v),
                _ => None::<i64>,
            }),
    {
        match self {
            Arg::I64(v) => Some(*v),
            _ => None,
        }
    }

    /// The payload, if this argument holds a `bool`.
    pub fn as_bool(&self) -> (r: Option<bool>)
        ensures
            r == (match *self {
                Arg::Bool(v) => Some(v),
                _ => None::<bool>,
            }),
    {
        match self {
            Arg::Bool(v) => Some(*v),
            _ => None,
        }
    }

    /// The payload, if this argument holds a string.
    pub fn as_str(&self) -> (r: Option<&String>)
        ensures
            match *self {
                Arg::Str(s) => r matches Some(v) && *v == s,
                _ => r is None,
            },
    {
        match self {
            Arg::Str(s) => Some(s),
            _ => None,
        }
    }
}

} // verus!
