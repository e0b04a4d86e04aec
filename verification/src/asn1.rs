//! The literal and type surface consumed by the constraint tree.
//!
//! The parser that produces values and type references is an external
//! collaborator; this module models only what the constraint logic reads of
//! them: an integer literal's exact value, and opaque identifiers for
//! everything else.

use vstd::prelude::*;
use crate::errors::{GrammarError, GrammarErrorKind};

verus! {

/// A parsed literal value attached to a constraint.
///
/// The resolver only ever inspects integer literals; every other literal is
/// carried through untouched, represented here by its surface text.
#[derive(Debug, PartialEq)]
pub enum ASN1Value {
    Integer(i128),
    Boolean(bool),
    LiteralText(String),
}

impl Clone for ASN1Value {
    fn clone(&self) -> (r: Self)
        ensures
            r == *self,
    {
        match self {
            ASN1Value::Integer(i) => ASN1Value::Integer(*i),
            ASN1Value::Boolean(b) => ASN1Value::Boolean(*b),
            ASN1Value::LiteralText(s) => ASN1Value::LiteralText(s.clone()),
        }
    }
}

impl ASN1Value {
    /// The exact integer behind an integer literal, or an unpacking error for
    /// any other literal.
    pub fn unwrap_as_integer(&self) -> (r: Result<i128, GrammarError>)
        ensures
            match r {
                Ok(i) => *self == ASN1Value::Integer(i),
                Err(e) => !(*self is Integer) && e.kind == GrammarErrorKind::UnpackingError,
            },
    {
        match self {
            ASN1Value::Integer(i) => Ok(*i),
            _ => Err(GrammarError::new(
                "Failed to unwrap value as integer.",
                GrammarErrorKind::UnpackingError,
            )),
        }
    }
}

/// A reference to a schema type, opaque to this core.
#[derive(Debug, Clone, PartialEq)]
pub struct ASN1Type {
    pub identifier: String,
}

/// A governing set of information objects, opaque to this core: resolution of
/// object sets happens in an external collaborator, and a table constraint
/// only links to one.
#[derive(Debug, Clone, PartialEq)]
pub struct ObjectSet {
    pub identifier: String,
}

/// Fields of an information object handed in as a parameter, opaque to this
/// core.
#[derive(Debug, Clone, PartialEq)]
pub struct InformationObjectFields {
    pub identifier: String,
}

} // verus!
