//! The cell descriptor: its raw, untrusted shape, its validated counterpart,
//! and the composite validator joining the two.
//!
//! Fields are checked in declaration order — name, CPU set, CPU shares, CPU
//! memory nodes, CPU quota — and the first failure aborts the whole
//! descriptor. CPU shares and CPU memory nodes have no rule yet: they are
//! explicit pass-through fields, kept so a rule can be added without changing
//! the message shape.

use vstd::prelude::*;

use crate::cell_name::{valid_name, CellName};
use crate::cpu_cpus::{valid_cpuset, CpuCpus};
use crate::cpu_quota::{valid_cpu_quota, CpuQuota};
use crate::path::{spec_field_path, spec_opt_path};
use crate::validation::{SpecError, ValidationError};

verus! {

/// A cell descriptor as it arrives: every constrained field may be absent.
pub struct RawCell {
    pub name: Option<String>,
    pub cpu_cpus: Option<String>,
    pub cpu_shares: u64,
    pub cpu_mems: String,
    pub cpu_quota: Option<i64>,
}

/// The mathematical shape of a raw cell descriptor.
pub struct SpecRawCell {
    pub name: Option<Seq<char>>,
    pub cpu_cpus: Option<Seq<char>>,
    pub cpu_shares: u64,
    pub cpu_mems: Seq<char>,
    pub cpu_quota: Option<i64>,
}

impl View for RawCell {
    type V = SpecRawCell;

    open spec fn view(&self) -> SpecRawCell {
        SpecRawCell {
            name: self.name.deep_view(),
            cpu_cpus: self.cpu_cpus.deep_view(),
            cpu_shares: self.cpu_shares,
            cpu_mems: self.cpu_mems@,
            cpu_quota: self.cpu_quota,
        }
    }
}

impl DeepView for RawCell {
    type V = SpecRawCell;

    open spec fn deep_view(&self) -> SpecRawCell {
        self.view()
    }
}

/// A cell descriptor whose fields all satisfy their domain rules.
#[derive(Debug)]
pub struct ValidatedCell {
    pub name: CellName,
    pub cpu_cpus: CpuCpus,
    pub cpu_shares: u64,
    pub cpu_mems: String,
    pub cpu_quota: CpuQuota,
}

/// The mathematical shape of a validated cell descriptor.
pub struct SpecCell {
    pub name: Seq<char>,
    pub cpu_cpus: Seq<char>,
    pub cpu_shares: u64,
    pub cpu_mems: Seq<char>,
    pub cpu_quota: i64,
}

impl View for ValidatedCell {
    type V = SpecCell;

    open spec fn view(&self) -> SpecCell {
        SpecCell {
            name: self.name@,
            cpu_cpus: self.cpu_cpus@,
            cpu_shares: self.cpu_shares,
            cpu_mems: self.cpu_mems@,
            cpu_quota: self.cpu_quota@,
        }
    }
}

/// What validating a raw cell descriptor must return: the first field, in
/// declaration order, that is absent (`Missing`) or rule-breaking
/// (`Invalid`), or the validated descriptor carrying exactly the raw values.
pub open spec fn spec_validate_cell(raw: SpecRawCell, parent: Option<Seq<char>>) -> Result<
    SpecCell,
    SpecError,
> {
    if raw.name is None {
        Err(SpecError::Missing(spec_field_path("name"@, parent)))
    } else if !valid_name(raw.name->Some_0) {
        Err(SpecError::Invalid(spec_field_path("name"@, parent)))
    } else if raw.cpu_cpus is None {
        Err(SpecError::Missing(spec_field_path("cpu_cpus"@, parent)))
    } else if !valid_cpuset(raw.cpu_cpus->Some_0) {
        Err(SpecError::Invalid(spec_field_path("cpu_cpus"@, parent)))
    } else if raw.cpu_quota is None {
        Err(SpecError::Missing(spec_field_path("cpu_quota"@, parent)))
    } else if !valid_cpu_quota(raw.cpu_quota->Some_0) {
        Err(SpecError::Invalid(spec_field_path("cpu_quota"@, parent)))
    } else {
        Ok(
            SpecCell {
                name: raw.name->Some_0,
                cpu_cpus: raw.cpu_cpus->Some_0,
                cpu_shares: raw.cpu_shares,
                cpu_mems: raw.cpu_mems,
                cpu_quota: raw.cpu_quota->Some_0,
            },
        )
    }
}

impl ValidatedCell {
    /// Validates a raw cell descriptor, qualifying every error path with the
    /// parent path, if any.
    pub fn validate(raw: RawCell, parent: Option<&str>) -> (r: Result<
        ValidatedCell,
        ValidationError,
    >)
        ensures
            match r {
                Ok(v) => spec_validate_cell(raw@, spec_opt_path(parent)) == Ok::<
                    SpecCell,
                    SpecError,
                >(v@),
                Err(e) => spec_validate_cell(raw@, spec_opt_path(parent)) == Err::<
                    SpecCell,
                    SpecError,
                >(e@),
            },
    {
        let name = match CellName::validate(raw.name, "name", parent) {
            Ok(v) => v,
            Err(e) => return Err(e),
        };
        let cpu_cpus = match CpuCpus::validate(raw.cpu_cpus, "cpu_cpus", parent) {
            Ok(v) => v,
            Err(e) => return Err(e),
        };
        let cpu_quota = match CpuQuota::validate(raw.cpu_quota, "cpu_quota", parent) {
            Ok(v) => v,
            Err(e) => return Err(e),
        };
        Ok(
            ValidatedCell {
                name,
                cpu_cpus,
                cpu_shares: raw.cpu_shares,
                cpu_mems: raw.cpu_mems,
                cpu_quota,
            },
        )
    }
}

/// Law: a raw cell descriptor whose required fields are all present and all
/// satisfy their domain rules validates successfully, and the validated
/// fields carry exactly the raw values.
pub proof fn lemma_valid_cell_accepted(raw: SpecRawCell, parent: Option<Seq<char>>)
    requires
        raw.name matches Some(n) && valid_name(n),
        raw.cpu_cpus matches Some(c) && valid_cpuset(c),
        raw.cpu_quota matches Some(q) && valid_cpu_quota(q),
    ensures
        spec_validate_cell(raw, parent) == Ok::<SpecCell, SpecError>(
            SpecCell {
                name: raw.name->Some_0,
                cpu_cpus: raw.cpu_cpus->Some_0,
                cpu_shares: raw.cpu_shares,
                cpu_mems: raw.cpu_mems,
                cpu_quota: raw.cpu_quota->Some_0,
            },
        ),
{
}

/// Law: an absent required field is reported as `Missing` at exactly that
/// field's path — the first absent or rule-breaking field, in declaration
/// order, wins.
pub proof fn lemma_cell_missing_field_reported(raw: SpecRawCell, parent: Option<Seq<char>>)
    ensures
        raw.name is None ==> spec_validate_cell(raw, parent) == Err::<SpecCell, SpecError>(
            SpecError::Missing(spec_field_path("name"@, parent)),
        ),
        (raw.name is Some && valid_name(raw.name->Some_0) && raw.cpu_cpus is None)
            ==> spec_validate_cell(raw, parent) == Err::<SpecCell, SpecError>(
            SpecError::Missing(spec_field_path("cpu_cpus"@, parent)),
        ),
        (raw.name is Some && valid_name(raw.name->Some_0) && raw.cpu_cpus is Some && valid_cpuset(
            raw.cpu_cpus->Some_0,
        ) && raw.cpu_quota is None) ==> spec_validate_cell(raw, parent) == Err::<
            SpecCell,
            SpecError,
        >(SpecError::Missing(spec_field_path("cpu_quota"@, parent))),
{
}

/// Law: a present but rule-breaking field is reported as `Invalid` at exactly
/// that field's path; in particular a bad CPU quota is reported at
/// `cpu_quota` under the parent path, whatever the unchecked fields hold.
pub proof fn lemma_cell_invalid_field_reported(raw: SpecRawCell, parent: Option<Seq<char>>)
    ensures
        (raw.name is Some && !valid_name(raw.name->Some_0)) ==> spec_validate_cell(raw, parent)
            == Err::<SpecCell, SpecError>(SpecError::Invalid(spec_field_path("name"@, parent))),
        (raw.name is Some && valid_name(raw.name->Some_0) && raw.cpu_cpus is Some && !valid_cpuset(
            raw.cpu_cpus->Some_0,
        )) ==> spec_validate_cell(raw, parent) == Err::<SpecCell, SpecError>(
            SpecError::Invalid(spec_field_path("cpu_cpus"@, parent)),
        ),
        (raw.name is Some && valid_name(raw.name->Some_0) && raw.cpu_cpus is Some && valid_cpuset(
            raw.cpu_cpus->Some_0,
        ) && raw.cpu_quota is Some && !valid_cpu_quota(raw.cpu_quota->Some_0))
            ==> spec_validate_cell(raw, parent) == Err::<SpecCell, SpecError>(
            SpecError::Invalid(spec_field_path("cpu_quota"@, parent)),
        ),
{
}

/// The raw shape a validated cell descriptor reads back as: every field
/// present, carrying the validated value.
pub open spec fn spec_raw_of_cell(v: SpecCell) -> SpecRawCell {
    SpecRawCell {
        name: Some(v.name),
        cpu_cpus: Some(v.cpu_cpus),
        cpu_shares: v.cpu_shares,
        cpu_mems: v.cpu_mems,
        cpu_quota: Some(v.cpu_quota),
    }
}

/// Law: validation is idempotent — a raw descriptor that validates to `v`
/// still validates to exactly `v` when `v`'s own fields are resubmitted as a
/// raw descriptor.
pub proof fn lemma_cell_validation_idempotent(
    raw: SpecRawCell,
    parent: Option<Seq<char>>,
    v: SpecCell,
)
    requires
        spec_validate_cell(raw, parent) == Ok::<SpecCell, SpecError>(v),
    ensures
        spec_validate_cell(spec_raw_of_cell(v), parent) == Ok::<SpecCell, SpecError>(v),
{
}

} // verus!
