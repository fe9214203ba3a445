//! The validation contract shared by every composite validator: required-field
//! enforcement, minimum-length enforcement, and the two-kind, field-path
//! qualified error that every failed validation returns.

use vstd::prelude::*;

use crate::path::{field_name, spec_field_path, spec_opt_path};

verus! {

/// The outcome of a failed validation step: which kind of failure, and the
/// full path of the offending field.
#[derive(Debug)]
pub enum ValidationError {
    /// A required field was absent from the raw message.
    Missing { field: String },
    /// A field was present but failed its domain rule, a custom check, or
    /// command parsing.
    Invalid { field: String },
}

/// The mathematical shape of a `ValidationError`.
pub enum SpecError {
    Missing(Seq<char>),
    Invalid(Seq<char>),
}

impl View for ValidationError {
    type V = SpecError;

    open spec fn view(&self) -> SpecError {
        match self {
            ValidationError::Missing { field } => SpecError::Missing(field@),
            ValidationError::Invalid { field } => SpecError::Invalid(field@),
        }
    }
}

impl ValidationError {
    /// The path of the field the error is about.
    pub fn field(&self) -> (r: &str)
        ensures
            self@ matches SpecError::Missing(f) ==> r@ == f,
            self@ matches SpecError::Invalid(f) ==> r@ == f,
    {
        match self {
            ValidationError::Missing { field } => field.as_str(),
            ValidationError::Invalid { field } => field.as_str(),
        }
    }

    /// Whether this error reports an absent required field.
    pub fn is_missing(&self) -> (r: bool)
        ensures
            r == (self@ matches SpecError::Missing(_)),
    {
        match self {
            ValidationError::Missing { .. } => true,
            ValidationError::Invalid { .. } => false,
        }
    }

    /// Whether this error reports a present but rule-breaking field.
    pub fn is_invalid(&self) -> (r: bool)
        ensures
            r == (self@ matches SpecError::Invalid(_)),
    {
        match self {
            ValidationError::Missing { .. } => false,
            ValidationError::Invalid { .. } => true,
        }
    }
}

/// The required-field strategy: absence is `Missing` at the field's path,
/// presence unwraps to the inner raw value.
pub fn required<T>(value: Option<T>, field: &str, parent: Option<&str>) -> (r: Result<
    T,
    ValidationError,
>)
    ensures
        match value {
            Option::Some(v) => r matches Ok(x) && x == v,
            Option::None => (r matches Err(e) && e@ == SpecError::Missing(
                spec_field_path(field@, spec_opt_path(parent)),
            )),
        },
{
    match value {
        Option::Some(v) => Ok(v),
        Option::None => Err(ValidationError::Missing { field: field_name(field, parent) }),
    }
}

/// The required-field strategy for a string that must also be non-empty:
/// absence is `Missing`, an empty string is `Invalid`, both at the field's
/// path.
pub fn required_not_empty(value: Option<String>, field: &str, parent: Option<&str>) -> (r: Result<
    String,
    ValidationError,
>)
    ensures
        match value {
            Option::Some(v) => if v@.len() == 0 {
                r matches Err(e) && e@ == SpecError::Invalid(
                    spec_field_path(field@, spec_opt_path(parent)),
                )
            } else {
                r matches Ok(x) && x@ == v@
            },
            Option::None => (r matches Err(e) && e@ == SpecError::Missing(
                spec_field_path(field@, spec_opt_path(parent)),
            )),
        },
{
    match value {
        Option::Some(v) => {
            if v.as_str().is_empty() {
                Err(ValidationError::Invalid { field: field_name(field, parent) })
            } else {
                Ok(v)
            }
        },
        Option::None => Err(ValidationError::Missing { field: field_name(field, parent) }),
    }
}

/// The minimum-length check for a repeated field: a list shorter than
/// `minimum` is `Invalid` at the field's path.
pub fn minimum_length<T>(list: &Vec<T>, minimum: usize, field: &str, parent: Option<&str>) -> (r:
    Result<(), ValidationError>)
    ensures
        list@.len() >= minimum <==> r is Ok,
        list@.len() < minimum ==> (r matches Err(e) && e@ == SpecError::Invalid(
            spec_field_path(field@, spec_opt_path(parent)),
        )),
{
    if list.len() < minimum {
        Err(ValidationError::Invalid { field: field_name(field, parent) })
    } else {
        Ok(())
    }
}

} // verus!
