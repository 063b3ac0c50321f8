//! Error and success values handed back across the library's boundary.

use vstd::prelude::*;

verus! {

/// The kinds of failure the library reports.
#[derive(Clone, Copy, Debug, PartialEq, Eq, Structural)]
pub enum ErrorTypes {
    /// The store failed, a transaction failed, or no free route was found.
    InternalError,
    /// A domain-level conflict, such as a malformed visibility name.
    Conflict,
    /// A candidate record broke a field constraint.
    Validation,
    /// A lookup matched no row.
    NotFound,
}

/// The status tag written into an error's message for each kind.
pub open spec fn status_tag(t: ErrorTypes) -> Seq<char> {
    match t {
        ErrorTypes::InternalError => "(500) "@,
        ErrorTypes::Conflict => "(409) "@,
        ErrorTypes::Validation => "(400) "@,
        ErrorTypes::NotFound => "(404) "@,
    }
}

/// The full message of an error of kind `t` built from `message`.
pub open spec fn error_text(t: ErrorTypes, message: Seq<char>) -> Seq<char> {
    "[Perse Error] "@ + status_tag(t) + message
}

/// An error with its kind and a formatted message.
#[derive(Clone, Debug)]
pub struct PerseError {
    pub error_type: ErrorTypes,
    pub data: String,
}

impl ErrorTypes {
    /// The status tag of this kind, as text.
    pub fn tag(&self) -> (r: &'static str)
        ensures
            r@ == status_tag(*self),
    {
        match self {
            ErrorTypes::InternalError => "(500) ",
            ErrorTypes::Conflict => "(409) ",
            ErrorTypes::Validation => "(400) ",
            ErrorTypes::NotFound => "(404) ",
        }
    }
}

impl PerseError {
    /// Builds an error of kind `error_type`; its message is
    /// `"[Perse Error] "`, the kind's status tag, then `message`.
    pub fn new(error_type: ErrorTypes, message: &str) -> (r: PerseError)
        ensures
            r.error_type == error_type,
            r.data@ == error_text(error_type, message@),
    {
        let mut message_template = String::from_str("[Perse Error] ");
        message_template.append(error_type.tag());
        message_template.append(message);
        PerseError { error_type, data: message_template }
    }

    /// The kind of this error.
    pub fn error_type(&self) -> (r: ErrorTypes)
        ensures
            r == self.error_type,
    {
        self.error_type
    }

    /// The formatted message of this error.
    pub fn message(&self) -> (r: &str)
        ensures
            r@ == self.data@,
    {
        self.data.as_str()
    }
}

/// A successful response carrying serialised data.
#[derive(Clone, Debug)]
pub struct SuccessResponse {
    pub success: bool,
    pub data: String,
}

impl SuccessResponse {
    /// A response marked successful that carries `data`.
    pub fn new(data: &str) -> (r: SuccessResponse)
        ensures
            r.success,
            r.data@ == data@,
    {
        SuccessResponse { success: true, data: String::from_str(data) }
    }
}

} // verus!
