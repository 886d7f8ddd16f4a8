//! Validation of the data models.
use vstd::prelude::*;
use crate::float_bits;
use crate::text::{all_id_chars, is_id_char, with_decimal, decimal, utf8_len};
use crate::time::Timestamp;


verus! {

/// What a failed validation reports. Numbers of `OutOfRange` are the bit
/// patterns of the `f64` values (see [`crate::float_bits`]).
#[derive(Debug)]
pub enum ValidationError {
    EmptyField(String),
    OutOfRange { field: String, value: u64, min: u64, max: u64 },
    InvalidFormat { field: String, message: String },
    MissingField(String),
}

/// [`ValidationError`] with its texts as character sequences.
pub enum ValidationErrorView {
    EmptyField(Seq<char>),
    OutOfRange { field: Seq<char>, value: u64, min: u64, max: u64 },
    InvalidFormat { field: Seq<char>, message: Seq<char> },
    MissingField(Seq<char>),
}

impl View for ValidationError {
    type V = ValidationErrorView;

    open spec fn view(&self) -> ValidationErrorView {
        match self {
            ValidationError::EmptyField(f) => ValidationErrorView::EmptyField(f@),
            ValidationError::OutOfRange { field, value, min, max } => ValidationErrorView::OutOfRange {
                field: field@,
                value: *value,
                min: *min,
                max: *max,
            },
            ValidationError::InvalidFormat { field, message } => ValidationErrorView::InvalidFormat {
                field: field@,
                message: message@,
            },
            ValidationError::MissingField(f) => ValidationErrorView::MissingField(f@),
        }
    }
}

/// The outcome of a validation, with the error by its view.
pub type Checked = Result<(), ValidationErrorView>;

/// The view of a validation result.
pub open spec fn checked(r: Result<(), ValidationError>) -> Checked {
    match r {
        Ok(()) => Ok(()),
        Err(e) => Err(e@),
    }
}

/// The first failure of two checks made in turn.
pub open spec fn then_check(first: Checked, second: Checked) -> Checked {
    match first {
        Ok(()) => second,
        Err(e) => Err(e),
    }
}

/// Data models that check their own contents.
pub trait Validate {
    fn validate(&self) -> Result<(), ValidationError>;
}

/// The outcome of [`validate_non_empty_string`].
pub open spec fn non_empty_check(field: Seq<char>, value: Seq<char>) -> Checked {
    if value.len() == 0 {
        Err(ValidationErrorView::EmptyField(field))
    } else {
        Ok(())
    }
}

/// The message of an identifier with a character that is not allowed.
pub open spec fn id_format_message() -> Seq<char> {
    "must contain only alphanumeric characters and underscores"@
}

/// The outcome of [`validate_id_format`].
pub open spec fn id_format_check(field: Seq<char>, value: Seq<char>) -> Checked {
    if value.len() == 0 {
        Err(ValidationErrorView::EmptyField(field))
    } else if !(forall|i: int| 0 <= i < value.len() ==> is_id_char(#[trigger] value[i])) {
        Err(ValidationErrorView::InvalidFormat { field, message: id_format_message() })
    } else {
        Ok(())
    }
}

/// The outcome of [`validate_range`].
pub open spec fn range_check(field: Seq<char>, value: u64, min: u64, max: u64) -> Checked {
    if !float_bits::in_range(value, min, max) {
        Err(ValidationErrorView::OutOfRange { field, value, min, max })
    } else {
        Ok(())
    }
}

/// The message of a timestamp in the future.
pub open spec fn future_message() -> Seq<char> {
    "timestamp cannot be in the future"@
}

/// The outcome of checking that the instant `ts` is not after `now`
/// (both in nanoseconds since the epoch).
pub open spec fn not_future_check(field: Seq<char>, ts: int, now: int) -> Checked {
    if ts > now {
        Err(ValidationErrorView::InvalidFormat { field, message: future_message() })
    } else {
        Ok(())
    }
}

/// The outcome of [`validate_string_length`]; the length counted is that of
/// the UTF-8 encoding.
pub open spec fn length_check(field: Seq<char>, value: Seq<char>, max_length: usize) -> Checked {
    if utf8_len(value) > max_length {
        Err(
            ValidationErrorView::InvalidFormat {
                field,
                message: "must be no more than "@ + decimal(max_length as nat) + " characters"@,
            },
        )
    } else {
        Ok(())
    }
}

/// Checks that a string field is not empty.
pub fn validate_non_empty_string(field_name: &str, value: &str) -> (r: Result<(), ValidationError>)
    ensures
        checked(r) == non_empty_check(field_name@, value@),
{
    if value.is_empty() {
        Err(ValidationError::EmptyField(field_name.to_owned()))
    } else {
        Ok(())
    }
}

/// Checks that a string is a non-empty identifier made of alphanumeric
/// characters and underscores.
pub fn validate_id_format(field_name: &str, value: &str) -> (r: Result<(), ValidationError>)
    ensures
        checked(r) == id_format_check(field_name@, value@),
{
    validate_non_empty_string(field_name, value)?;
    if !all_id_chars(value) {
        return Err(
            ValidationError::InvalidFormat {
                field: field_name.to_owned(),
                message: String::from_str("must contain only alphanumeric characters and underscores"),
            },
        );
    }
    Ok(())
}

/// Checks that `min <= value <= max`, all three given as `f64` bit patterns.
/// A NaN anywhere fails the check.
pub fn validate_range(field_name: &str, value: u64, min: u64, max: u64) -> (r: Result<(), ValidationError>)
    ensures
        checked(r) == range_check(field_name@, value, min, max),
{
    if !float_bits::bits_in_range(value, min, max) {
        Err(ValidationError::OutOfRange { field: field_name.to_owned(), value, min, max })
    } else {
        Ok(())
    }
}

/// Checks that `timestamp` is not after `now`.
pub fn validate_timestamp_not_after(field_name: &str, timestamp: &Timestamp, now: &Timestamp) -> (r:
    Result<(), ValidationError>)
    ensures
        checked(r) == not_future_check(field_name@, timestamp@, now@),
{
    if !timestamp.is_not_after(now) {
        Err(
            ValidationError::InvalidFormat {
                field: field_name.to_owned(),
                message: String::from_str("timestamp cannot be in the future"),
            },
        )
    } else {
        Ok(())
    }
}

/// Checks that `timestamp` is not in the future, by the clock now: the
/// outcome is that of [`validate_timestamp_not_after`] for some reading of
/// the clock.
pub fn validate_timestamp_not_future(field_name: &str, timestamp: &Timestamp) -> (r: Result<
    (),
    ValidationError,
>)
    ensures
        exists|now: int| checked(r) == not_future_check(field_name@, timestamp@, now),
{
    let now = Timestamp::now();
    validate_timestamp_not_after(field_name, timestamp, &now)
}

/// Checks that a string is at most `max_length` bytes long in UTF-8.
pub fn validate_string_length(field_name: &str, value: &str, max_length: usize) -> (r: Result<
    (),
    ValidationError,
>)
    ensures
        checked(r) == length_check(field_name@, value@, max_length),
{
    if value.len() > max_length {
        Err(
            ValidationError::InvalidFormat {
                field: field_name.to_owned(),
                message: with_decimal("must be no more than ", max_length as u64, " characters"),
            },
        )
    } else {
        Ok(())
    }
}

} // verus!
