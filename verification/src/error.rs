//! The errors that the shop logic reports.

use vstd::prelude::*;

verus! {

/// What kind of failure a [`ShopError`] reports.
#[derive(Debug, Clone, Copy, PartialEq, Eq, Structural)]
pub enum ShopErrorKind {
    /// The request is malformed or names something that is not supported.
    Validation,
    /// The addressed record does not exist.
    NotFound,
    /// The storage layer failed or returned something inconsistent.
    Storage,
}

/// A failure of a shop operation: its kind and a human-readable message.
#[derive(Debug)]
pub struct ShopError {
    pub kind: ShopErrorKind,
    pub message: String,
}

impl ShopError {
    pub fn validation(message: String) -> (e: ShopError)
        ensures
            e.kind == ShopErrorKind::Validation,
            e.message@ == message@,
    {
        ShopError { kind: ShopErrorKind::Validation, message }
    }

    pub fn not_found(message: &str) -> (e: ShopError)
        ensures
            e.kind == ShopErrorKind::NotFound,
            e.message@ == message@,
    {
        ShopError { kind: ShopErrorKind::NotFound, message: message.to_owned() }
    }

    pub fn storage(message: &str) -> (e: ShopError)
        ensures
            e.kind == ShopErrorKind::Storage,
            e.message@ == message@,
    {
        ShopError { kind: ShopErrorKind::Storage, message: message.to_owned() }
    }
}

} // verus!
