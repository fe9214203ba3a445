//! The CPU-set specifier of a cell: which CPU cores its processes may run
//! on, written as a comma-separated list of core numbers and ranges, such as
//! `0-2,4`. An empty specifier means no restriction.

use vstd::prelude::*;

use crate::path::{field_name, spec_field_path, spec_opt_path};
use crate::validation::{SpecError, ValidationError};

verus! {

/// Whether `c` is a decimal digit.
pub open spec fn digit_char(c: char) -> bool {
    '0' as u32 <= c as u32 && c as u32 <= '9' as u32
}

/// Where the CPU-set grammar stands while reading a specifier: at the start
/// of a list item, inside an item's first number, just after the `-` of a
/// range, or inside a range's second number.
pub enum CpusetState {
    ItemStart,
    InFirst,
    RangeStart,
    InSecond,
}

/// Whether the suffix of `s` from `i` on completes a CPU-set list whose
/// reading stands in state `st`.
pub open spec fn cpuset_ok_from(s: Seq<char>, i: int, st: CpusetState) -> bool
    decreases s.len() - i,
{
    if i >= s.len() {
        st is InFirst || st is InSecond
    } else {
        let c = s[i];
        match st {
            CpusetState::ItemStart => digit_char(c) && cpuset_ok_from(s, i + 1, CpusetState::InFirst),
            CpusetState::InFirst => if digit_char(c) {
                cpuset_ok_from(s, i + 1, CpusetState::InFirst)
            } else if c == '-' {
                cpuset_ok_from(s, i + 1, CpusetState::RangeStart)
            } else if c == ',' {
                cpuset_ok_from(s, i + 1, CpusetState::ItemStart)
            } else {
                false
            },
            CpusetState::RangeStart => digit_char(c) && cpuset_ok_from(
                s,
                i + 1,
                CpusetState::InSecond,
            ),
            CpusetState::InSecond => if digit_char(c) {
                cpuset_ok_from(s, i + 1, CpusetState::InSecond)
            } else if c == ',' {
                cpuset_ok_from(s, i + 1, CpusetState::ItemStart)
            } else {
                false
            },
        }
    }
}

/// The domain rule of a CPU-set specifier: empty, or a comma-separated list
/// of core numbers and `low-high` ranges.
pub open spec fn valid_cpuset(s: Seq<char>) -> bool {
    s.len() == 0 || cpuset_ok_from(s, 0, CpusetState::ItemStart)
}

/// Whether `c` is a decimal digit.
pub fn is_digit_char(c: char) -> (r: bool)
    ensures
        r == digit_char(c),
{
    '0' as u32 <= c as u32 && c as u32 <= '9' as u32
}

/// Whether `s` satisfies the CPU-set grammar.
pub fn is_valid_cpuset(s: &str) -> (r: bool)
    ensures
        r == valid_cpuset(s@),
{
    let n = s.unicode_len();
    if n == 0 {
        return true;
    }
    let mut st = CpusetState::ItemStart;
    let mut i: usize = 0;
    while i < n
        invariant
            i <= n,
            n == s@.len(),
            valid_cpuset(s@) == cpuset_ok_from(s@, i as int, st),
        decreases n - i,
    {
        let c = s.get_char(i);
        let next = match st {
            CpusetState::ItemStart => {
                if is_digit_char(c) {
                    CpusetState::InFirst
                } else {
                    proof {
                        assert(!cpuset_ok_from(s@, i as int, st));
                    }
                    return false;
                }
            },
            CpusetState::InFirst => {
                if is_digit_char(c) {
                    CpusetState::InFirst
                } else if c == '-' {
                    CpusetState::RangeStart
                } else if c == ',' {
                    CpusetState::ItemStart
                } else {
                    proof {
                        assert(!cpuset_ok_from(s@, i as int, st));
                    }
                    return false;
                }
            },
            CpusetState::RangeStart => {
                if is_digit_char(c) {
                    CpusetState::InSecond
                } else {
                    proof {
                        assert(!cpuset_ok_from(s@, i as int, st));
                    }
                    return false;
                }
            },
            CpusetState::InSecond => {
                if is_digit_char(c) {
                    CpusetState::InSecond
                } else if c == ',' {
                    CpusetState::ItemStart
                } else {
                    proof {
                        assert(!cpuset_ok_from(s@, i as int, st));
                    }
                    return false;
                }
            },
        };
        st = next;
        i = i + 1;
    }
    match st {
        CpusetState::InFirst => true,
        CpusetState::InSecond => true,
        CpusetState::ItemStart => false,
        CpusetState::RangeStart => false,
    }
}

/// A well-formed CPU-set specifier.
#[derive(Debug)]
pub struct CpuCpus {
    value: String,
}

impl View for CpuCpus {
    type V = Seq<char>;

    closed spec fn view(&self) -> Seq<char> {
        self.value@
    }
}

impl CpuCpus {
    /// Every CPU-set specifier satisfies its grammar; only `validate` can
    /// construct one.
    #[verifier::type_invariant]
    spec fn inv(self) -> bool {
        valid_cpuset(self@)
    }

    /// The required-plus-construct strategy for a CPU-set field: absence is
    /// `Missing`, a rule-breaking value is `Invalid`, both at the field's
    /// path; a valid value constructs the specifier unchanged.
    pub fn validate(value: Option<String>, field: &str, parent: Option<&str>) -> (r: Result<
        CpuCpus,
        ValidationError,
    >)
        ensures
            match value {
                Option::Some(v) => if valid_cpuset(v@) {
                    r matches Ok(c) && c@ == v@
                } else {
                    r matches Err(e) && e@ == SpecError::Invalid(
                        spec_field_path(field@, spec_opt_path(parent)),
                    )
                },
                Option::None => (r matches Err(e) && e@ == SpecError::Missing(
                    spec_field_path(field@, spec_opt_path(parent)),
                )),
            },
    {
        match value {
            Option::Some(v) => {
                if is_valid_cpuset(v.as_str()) {
                    Ok(CpuCpus { value: v })
                } else {
                    Err(ValidationError::Invalid { field: field_name(field, parent) })
                }
            },
            Option::None => Err(ValidationError::Missing { field: field_name(field, parent) }),
        }
    }

    /// The specifier as a string slice.
    pub fn as_str(&self) -> (r: &str)
        ensures
            r@ == self@,
    {
        self.value.as_str()
    }
}

} // verus!
