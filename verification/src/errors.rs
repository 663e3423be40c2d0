//! Error taxonomy of the dynamic-link core.
//!
//! Every failure of a dynamic-linked call or of an interface validation is
//! surfaced as one of these kinds, together with a human-readable message.
//! Errors are terminal for the call they occur in; nothing here is retried.

use vstd::prelude::*;
use vstd::string::StrSliceExecFns;
use vstd::string::StringExecFns;

verus! {

/// The result is the `UnsetArgument` error for field `f`.
pub open spec fn is_unset<T>(r: Result<T, LinkError>, f: Seq<char>) -> bool {
    &&& r matches Err(e)
    &&& e matches LinkError::UnsetArgument { field } && field@ == f
}

/// The result is the `SerializationError` error for field `f`.
pub open spec fn is_serialization<T>(r: Result<T, LinkError>, f: Seq<char>) -> bool {
    &&& r matches Err(e)
    &&& e matches LinkError::SerializationError { field, cause: _ } && field@ == f
}

/// The result is the `EmptyArgument` error for output slot `f`.
pub open spec fn is_empty_slot<T>(r: Result<T, LinkError>, f: Seq<char>) -> bool {
    &&& r matches Err(e)
    &&& e matches LinkError::EmptyArgument { field } && field@ == f
}

/// One recoverable failure of the dynamic-link core.
#[derive(Debug)]
pub enum LinkError {
    /// A required input field was absent.
    UnsetArgument { field: String },
    /// A required output slot was not provided by the caller for an operation
    /// that needs it.
    EmptyArgument { field: String },
    /// A field failed to decode; carries the field name and the cause.
    SerializationError { field: String, cause: String },
    /// The checksum bytes do not have the expected fixed length.
    InvalidChecksum,
    /// The named callable point could not be found, was ill-typed, trapped
    /// during invocation, or returned more values than the ABI allows.
    DynamicLinkError { cause: String },
    /// The event records produced by the callee failed to serialize.
    InvalidEvents { cause: String },
    /// The attribute records produced by the callee failed to serialize.
    InvalidAttributes { cause: String },
    /// Permission installation rejected the call.
    PermissionError { cause: String },
    /// An unrecoverable native fault during guest execution, caught at the
    /// outermost boundary and converted instead of propagated.
    InternalPanic,
}

impl LinkError {
    /// The message of this error, as a sequence of characters.
    pub open spec fn message_view(&self) -> Seq<char> {
        match self {
            LinkError::UnsetArgument { field } => "unset argument: "@ + field@,
            LinkError::EmptyArgument { field } => "empty output slot: "@ + field@,
            LinkError::SerializationError { field, cause } => "cannot decode "@ + field@
                + ": "@ + cause@,
            LinkError::InvalidChecksum => "invalid checksum length"@,
            LinkError::DynamicLinkError { cause } => "dynamic link error: "@ + cause@,
            LinkError::InvalidEvents { cause } => "invalid events: "@ + cause@,
            LinkError::InvalidAttributes { cause } => "invalid attributes: "@ + cause@,
            LinkError::PermissionError { cause } => "permission error: "@ + cause@,
            LinkError::InternalPanic => "internal panic caught at the boundary"@,
        }
    }

    /// The human-readable message of this error.
    pub fn message(&self) -> (s: String)
        ensures
            s@ == self.message_view(),
    {
        match self {
            LinkError::UnsetArgument { field } => {
                let mut s = String::from_str("unset argument: ");
                s.append(field.as_str());
                s
            }
            LinkError::EmptyArgument { field } => {
                let mut s = String::from_str("empty output slot: ");
                s.append(field.as_str());
                s
            }
            LinkError::SerializationError { field, cause } => {
                let mut s = String::from_str("cannot decode ");
                s.append(field.as_str());
                s.append(": ");
                s.append(cause.as_str());
                s
            }
            LinkError::InvalidChecksum => String::from_str("invalid checksum length"),
            LinkError::DynamicLinkError { cause } => {
                let mut s = String::from_str("dynamic link error: ");
                s.append(cause.as_str());
                s
            }
            LinkError::InvalidEvents { cause } => {
                let mut s = String::from_str("invalid events: ");
                s.append(cause.as_str());
                s
            }
            LinkError::InvalidAttributes { cause } => {
                let mut s = String::from_str("invalid attributes: ");
                s.append(cause.as_str());
                s
            }
            LinkError::PermissionError { cause } => {
                let mut s = String::from_str("permission error: ");
                s.append(cause.as_str());
                s
            }
            LinkError::InternalPanic => String::from_str("internal panic caught at the boundary"),
        }
    }
}

} // verus!
