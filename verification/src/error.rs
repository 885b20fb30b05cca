use vstd::prelude::*;
use vstd::string::StringExecFns;
use crate::decimal::{decimal, decimal_text, signed_decimal, signed_decimal_text};

verus! {

/// The ways in which a server response can break the shape that the flow
/// expects.
#[derive(Clone, Copy, Debug, PartialEq, Eq, Structural)]
pub enum ProtocolViolation {
    /// A flow state arrived without its set of actions.
    MissingActions,
    /// A provider's country code has no glyph in the table.
    UnmappedCountry,
    /// A selection index resolves to no provider or option.
    NoSuchEntry,
    /// The inline image of a form input could not be decoded.
    UndecodableImage,
    /// The event does not answer the command that is outstanding.
    UnexpectedEvent,
}

/// Why an authorization flow stopped before the server ended it.
#[derive(Clone, Copy, Debug, PartialEq, Eq, Structural)]
pub enum FlowError {
    /// The terminal interaction could not complete.
    InputError,
    /// The operator refused consent.
    ConsentDeclined,
    /// A form input needs a capability that is not offered (a remote image).
    UnsupportedInput,
    /// The server response does not have the expected shape.
    ProtocolError(ProtocolViolation),
    /// A call to the remote service failed.
    RemoteError,
}

/// Why an entered text was turned down.
#[derive(Clone, Debug, PartialEq, Eq)]
pub enum ValidationError {
    /// The length in bytes lies outside the declared bounds.
    Length { min_length: i32, max_length: i32, length: usize },
    /// A rule's pattern does not match; `message` is that rule's own.
    Pattern { message: String },
    /// A rule's pattern is no valid regular expression.
    BadPattern,
}

/// Mathematical model of a `ValidationError`.
pub enum ValidationErrorModel {
    Length { min_length: int, max_length: int, length: nat },
    Pattern { message: Seq<char> },
    BadPattern,
}

impl DeepView for ValidationError {
    type V = ValidationErrorModel;

    open spec fn deep_view(&self) -> ValidationErrorModel {
        match *self {
            ValidationError::Length { min_length, max_length, length } => ValidationErrorModel::Length {
                min_length: min_length as int,
                max_length: max_length as int,
                length: length as nat,
            },
            ValidationError::Pattern { message } => ValidationErrorModel::Pattern {
                message: message@,
            },
            ValidationError::BadPattern => ValidationErrorModel::BadPattern,
        }
    }
}

impl ValidationErrorModel {
    /// The words in which the operator is told of the failure.
    pub open spec fn message(self) -> Seq<char> {
        match self {
            ValidationErrorModel::Length { min_length, max_length, length } =>
                "Should have length between "@ + signed_decimal(min_length) + " and "@
                + signed_decimal(max_length) + ", was "@ + decimal(length),
            ValidationErrorModel::Pattern { message } => message,
            ValidationErrorModel::BadPattern => "could not build validation regex"@,
        }
    }
}

impl ValidationError {
    /// The words in which the operator is told of the failure.
    pub fn message(&self) -> (res: String)
        ensures
            res@ == self.deep_view().message(),
    {
        match self {
            ValidationError::Length { min_length, max_length, length } => {
                let min_text = signed_decimal_text(*min_length as i64);
                let max_text = signed_decimal_text(*max_length as i64);
                let len_text = decimal_text(*length as u64);
                String::from_str("Should have length between ").concat(min_text.as_str()).concat(
                    " and ",
                ).concat(max_text.as_str()).concat(", was ").concat(len_text.as_str())
            },
            ValidationError::Pattern { message } => message.clone(),
            ValidationError::BadPattern => String::from_str("could not build validation regex"),
        }
    }
}

} // verus!
