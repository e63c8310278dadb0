//! The error vocabulary of the order store.
use vstd::prelude::*;

verus! {

/// What kind of failure an operation reports.
#[derive(Clone, Copy, Debug, PartialEq, Eq, Structural)]
pub enum ErrorKind {
    Validation,
    Storage,
    Conflict,
    NotFound,
    InvalidState,
    ProviderUnavailable,
}

/// A failure with its kind and a human-readable message.
#[derive(Clone, Debug)]
pub struct CommerceError {
    pub kind: ErrorKind,
    pub message: String,
}

pub fn commerce_error(kind: ErrorKind, message: &str) -> (e: CommerceError)
    ensures
        e.kind == kind,
        e.message@ == message@,
{
    CommerceError { kind, message: message.to_owned() }
}

pub fn validation(message: &str) -> (e: CommerceError)
    ensures
        e.kind == ErrorKind::Validation,
        e.message@ == message@,
{
    commerce_error(ErrorKind::Validation, message)
}

pub fn storage(message: &str) -> (e: CommerceError)
    ensures
        e.kind == ErrorKind::Storage,
        e.message@ == message@,
{
    commerce_error(ErrorKind::Storage, message)
}

pub fn conflict(message: &str) -> (e: CommerceError)
    ensures
        e.kind == ErrorKind::Conflict,
        e.message@ == message@,
{
    commerce_error(ErrorKind::Conflict, message)
}

pub fn not_found(message: &str) -> (e: CommerceError)
    ensures
        e.kind == ErrorKind::NotFound,
        e.message@ == message@,
{
    commerce_error(ErrorKind::NotFound, message)
}

pub fn invalid_state(message: &str) -> (e: CommerceError)
    ensures
        e.kind == ErrorKind::InvalidState,
        e.message@ == message@,
{
    commerce_error(ErrorKind::InvalidState, message)
}

pub fn provider_unavailable(message: &str) -> (e: CommerceError)
    ensures
        e.kind == ErrorKind::ProviderUnavailable,
        e.message@ == message@,
{
    commerce_error(ErrorKind::ProviderUnavailable, message)
}

} // verus!
