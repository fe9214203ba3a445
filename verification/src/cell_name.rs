//! The identifier of a cell: a constrained value type whose only constructor
//! is fallible, so every instance satisfies the naming rule.

use vstd::prelude::*;

use crate::path::{field_name, spec_field_path, spec_opt_path};
use crate::validation::{SpecError, ValidationError};

verus! {

/// The characters an identifier may contain: ASCII letters, digits, `-`, `_`
/// and `.`.
pub open spec fn allowed_name_char(c: char) -> bool {
    ('a' as u32 <= c as u32 && c as u32 <= 'z' as u32) || ('A' as u32 <= c as u32 && c as u32
        <= 'Z' as u32) || ('0' as u32 <= c as u32 && c as u32 <= '9' as u32) || c == '-' || c == '_'
        || c == '.'
}

/// The naming rule shared by cell and executable identifiers: between 1 and
/// 256 characters, all of them allowed identifier characters.
pub open spec fn valid_name(s: Seq<char>) -> bool {
    1 <= s.len() <= 256 && (forall|i: int| 0 <= i < s.len() ==> allowed_name_char(#[trigger] s[i]))
}

/// Whether `c` may appear in an identifier.
pub fn is_allowed_name_char(c: char) -> (r: bool)
    ensures
        r == allowed_name_char(c),
{
    let u = c as u32;
    ('a' as u32 <= u && u <= 'z' as u32) || ('A' as u32 <= u && u <= 'Z' as u32) || ('0' as u32 <= u
        && u <= '9' as u32) || c == '-' || c == '_' || c == '.'
}

/// Whether `s` satisfies the naming rule.
pub fn is_valid_name(s: &str) -> (r: bool)
    ensures
        r == valid_name(s@),
{
    let n = s.unicode_len();
    if n == 0 || n > 256 {
        return false;
    }
    let mut i: usize = 0;
    while i < n
        invariant
            i <= n,
            n == s@.len(),
            forall|j: int| 0 <= j < i ==> allowed_name_char(#[trigger] s@[j]),
        decreases n - i,
    {
        let c = s.get_char(i);
        if !is_allowed_name_char(c) {
            return false;
        }
        i = i + 1;
    }
    true
}

/// A well-formed cell identifier.
#[derive(Debug)]
pub struct CellName {
    value: String,
}

impl View for CellName {
    type V = Seq<char>;

    closed spec fn view(&self) -> Seq<char> {
        self.value@
    }
}

impl CellName {
    /// Every cell name satisfies the naming rule; only `validate` can
    /// construct one.
    #[verifier::type_invariant]
    spec fn inv(self) -> bool {
        valid_name(self@)
    }

    /// The required-plus-construct strategy for a cell name field: absence is
    /// `Missing`, a rule-breaking value is `Invalid`, both at the field's
    /// path; a valid value constructs the identifier unchanged.
    pub fn validate(value: Option<String>, field: &str, parent: Option<&str>) -> (r: Result<
        CellName,
        ValidationError,
    >)
        ensures
            match value {
                Option::Some(v) => if valid_name(v@) {
                    r matches Ok(n) && n@ == v@
                } else {
                    r matches Err(e) && e@ == SpecError::Invalid(
                        spec_field_path(field@, spec_opt_path(parent)),
                    )
                },
                Option::None => (r matches Err(e) && e@ == SpecError::Missing(
                    spec_field_path(field@, spec_opt_path(parent)),
                )),
            },
    {
        match value {
            Option::Some(v) => {
                if is_valid_name(v.as_str()) {
                    Ok(CellName { value: v })
                } else {
                    Err(ValidationError::Invalid { field: field_name(field, parent) })
                }
            },
            Option::None => Err(ValidationError::Missing { field: field_name(field, parent) }),
        }
    }

    /// The identifier as a string slice.
    pub fn as_str(&self) -> (r: &str)
        ensures
            r@ == self@,
    {
        self.value.as_str()
    }
}

} // verus!
