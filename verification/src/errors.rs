//! The error type of the engine.
//!
//! Every failure carries a class name (a coarse taxonomy the embedder can
//! route on: permission denials, malformed descriptor input, cooperative
//! yields) together with a human-readable message.

use vstd::prelude::*;

verus! {

/// An error with a caller-specified class name and message.
///
/// `PermissionDenied` is a routine outcome that callers are expected to
/// handle; parse errors (`TypeError`, `URIError`) and escalation errors are
/// configuration mistakes and propagate as hard failures.
#[derive(Debug)]
pub struct PermError {
    pub class: &'static str,
    pub message: String,
}

impl PermError {
    /// The class name.
    pub fn error_class(&self) -> (r: &'static str)
        ensures
            r@ == self.class@,
    {
        self.class
    }

    /// The human-readable message.
    pub fn error_message(&self) -> (r: &str)
        ensures
            r@ == self.message@,
    {
        self.message.as_str()
    }
}

/// Creates a new error with a caller-specified error class name and message.
pub fn custom_error(class: &'static str, message: String) -> (r: PermError)
    ensures
        r.class@ == class@,
        r.message@ == message@,
{
    PermError { class, message }
}

pub fn generic_error(message: String) -> (r: PermError)
    ensures
        r.class@ == "Error"@,
        r.message@ == message@,
{
    custom_error("Error", message)
}

pub fn type_error(message: String) -> (r: PermError)
    ensures
        r.class@ == "TypeError"@,
        r.message@ == message@,
{
    custom_error("TypeError", message)
}

pub fn range_error(message: String) -> (r: PermError)
    ensures
        r.class@ == "RangeError"@,
        r.message@ == message@,
{
    custom_error("RangeError", message)
}

/// The error for a hostname the host grammar rejects.
pub fn invalid_hostname(hostname: &str) -> (r: PermError)
    ensures
        r.class@ == "TypeError"@,
        r.message@ == "Invalid hostname: '"@ + hostname@ + "'"@,
{
    let mut msg = String::new();
    msg.append("Invalid hostname: '");
    msg.append(hostname);
    msg.append("'");
    type_error(msg)
}

pub fn uri_error(message: String) -> (r: PermError)
    ensures
        r.class@ == "URIError"@,
        r.message@ == message@,
{
    custom_error("URIError", message)
}

pub fn bad_resource(message: String) -> (r: PermError)
    ensures
        r.class@ == "BadResource"@,
        r.message@ == message@,
{
    custom_error("BadResource", message)
}

pub fn bad_resource_id() -> (r: PermError)
    ensures
        r.class@ == "BadResource"@,
        r.message@ == "Bad resource ID"@,
{
    custom_error("BadResource", String::from_str("Bad resource ID"))
}

pub fn not_supported() -> (r: PermError)
    ensures
        r.class@ == "NotSupported"@,
        r.message@ == "The operation is not supported"@,
{
    custom_error("NotSupported", String::from_str("The operation is not supported"))
}

pub fn resource_unavailable() -> (r: PermError)
    ensures
        r.class@ == "Busy"@,
        r.message@ == "Resource is unavailable because it is in use by a promise"@,
{
    custom_error("Busy", String::from_str("Resource is unavailable because it is in use by a promise"))
}

/// An error meaning "suspend this call and redrive the identical query
/// later"; used by hosts whose prompter cannot block synchronously.
pub fn yield_error(message: String) -> (r: PermError)
    ensures
        r.class@ == "Yield"@,
        r.message@ == message@,
{
    custom_error("Yield", message)
}

/// The class name of the error, for embedders that route on it; every
/// error of this engine carries a class, so this always answers.
pub fn get_custom_error_class(error: &PermError) -> (r: Option<&'static str>)
    ensures
        r matches Some(c) && c@ == error.class@,
{
    Some(error.class)
}

/// Whether an error class denotes a cooperative yield rather than a
/// terminal failure.
pub fn is_yield_error_class(class: &str) -> (r: bool)
    ensures
        r == (class@ == "Yield"@),
{
    crate::strings::str_eq(class, "Yield")
}

/// The error raised when a derived child scope asks for a grant its parent
/// does not hold.
pub fn escalation_error() -> (r: PermError)
    ensures
        r.class@ == "PermissionDenied"@,
        r.message@ == "Can't escalate parent thread permissions"@,
{
    custom_error("PermissionDenied", String::from_str("Can't escalate parent thread permissions"))
}

} // verus!
