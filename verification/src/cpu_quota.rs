//! The CPU bandwidth quota of a cell: a constrained value type around the
//! allowed CPU time, in microseconds per scheduling period.

use vstd::prelude::*;

use crate::path::{field_name, spec_field_path, spec_opt_path};
use crate::validation::{SpecError, ValidationError};

verus! {

/// The largest quota a cell may request: one full scheduling period.
pub const CPU_QUOTA_MAX: i64 = 1000000;

/// The domain rule of a CPU quota: strictly positive and at most one full
/// scheduling period.
pub open spec fn valid_cpu_quota(q: i64) -> bool {
    0 < q <= CPU_QUOTA_MAX
}

/// A well-formed CPU quota.
#[derive(Debug)]
pub struct CpuQuota {
    value: i64,
}

impl View for CpuQuota {
    type V = i64;

    closed spec fn view(&self) -> i64 {
        self.value
    }
}

impl CpuQuota {
    /// Every quota satisfies its domain rule; only `validate` can construct
    /// one.
    #[verifier::type_invariant]
    spec fn inv(self) -> bool {
        valid_cpu_quota(self@)
    }

    /// The required-plus-construct strategy for a CPU quota field: absence is
    /// `Missing`, a rule-breaking value is `Invalid`, both at the field's
    /// path; a valid value constructs the quota unchanged.
    pub fn validate(value: Option<i64>, field: &str, parent: Option<&str>) -> (r: Result<
        CpuQuota,
        ValidationError,
    >)
        ensures
            match value {
                Option::Some(v) => if valid_cpu_quota(v) {
                    r matches Ok(q) && q@ == v
                } else {
                    r matches Err(e) && e@ == SpecError::Invalid(
                        spec_field_path(field@, spec_opt_path(parent)),
                    )
                },
                Option::None => (r matches Err(e) && e@ == SpecError::Missing(
                    spec_field_path(field@, spec_opt_path(parent)),
                )),
            },
    {
        match value {
            Option::Some(v) => {
                if 0 < v && v <= CPU_QUOTA_MAX {
                    Ok(CpuQuota { value: v })
                } else {
                    Err(ValidationError::Invalid { field: field_name(field, parent) })
                }
            },
            Option::None => Err(ValidationError::Missing { field: field_name(field, parent) }),
        }
    }

    /// The quota in microseconds per scheduling period.
    pub fn value(&self) -> (r: i64)
        ensures
            r == self@,
    {
        self.value
    }
}

} // verus!
