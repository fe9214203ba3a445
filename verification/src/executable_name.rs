//! The identifier of an executable: a constrained value type sharing the
//! naming rule of cell identifiers.

use vstd::prelude::*;

use crate::cell_name::{is_valid_name, valid_name};
use crate::path::{field_name, spec_field_path, spec_opt_path};
use crate::validation::{SpecError, ValidationError};

verus! {

/// A well-formed executable identifier.
#[derive(Debug)]
pub struct ExecutableName {
    value: String,
}

impl View for ExecutableName {
    type V = Seq<char>;

    closed spec fn view(&self) -> Seq<char> {
        self.value@
    }
}

impl ExecutableName {
    /// Every executable name satisfies the naming rule; only `validate` can
    /// construct one.
    #[verifier::type_invariant]
    spec fn inv(self) -> bool {
        valid_name(self@)
    }

    /// The required-plus-construct strategy for an executable name field:
    /// absence is `Missing`, a rule-breaking value is `Invalid`, both at the
    /// field's path; a valid value constructs the identifier unchanged.
    pub fn validate(value: Option<String>, field: &str, parent: Option<&str>) -> (r: Result<
        ExecutableName,
        ValidationError,
    >)
        ensures
            match value {
                Option::Some(v) => if valid_name(v@) {
                    r matches Ok(n) && n@ == v@
                } else {
                    r matches Err(e) && e@ == SpecError::Invalid(
                        spec_field_path(field@, spec_opt_path(parent)),
                    )
                },
                Option::None => (r matches Err(e) && e@ == SpecError::Missing(
                    spec_field_path(field@, spec_opt_path(parent)),
                )),
            },
    {
        match value {
            Option::Some(v) => {
                if is_valid_name(v.as_str()) {
                    Ok(ExecutableName { value: v })
                } else {
                    Err(ValidationError::Invalid { field: field_name(field, parent) })
                }
            },
            Option::None => Err(ValidationError::Missing { field: field_name(field, parent) }),
        }
    }

    /// The identifier as a string slice.
    pub fn as_str(&self) -> (r: &str)
        ensures
            r@ == self@,
    {
        self.value.as_str()
    }
}

} // verus!
