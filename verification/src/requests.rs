//! The four request shapes — allocate, free, start, stop — each with its raw,
//! untrusted form and its validated counterpart, and the repeated-field
//! validator for a start request's executables.
//!
//! Element errors in the executables list propagate fail-fast, like every
//! other composite here: the first invalid element aborts the whole request,
//! reported at its positional path (`executables[index].field`). Silently
//! dropping invalid elements and keeping the rest was considered and
//! rejected as inconsistent with the fail-fast contract.

use vstd::prelude::*;

use crate::cell::{spec_validate_cell, RawCell, SpecCell, SpecRawCell, ValidatedCell};
use crate::cell_name::{valid_name, CellName};
use crate::executable::{
    spec_validate_executable, RawExecutable, SpecExecutable, SpecRawExecutable, ValidatedExecutable,
};
use crate::executable_name::ExecutableName;
use crate::path::{
    field_name, indexed_field_name, spec_field_path, spec_indexed_path, spec_opt_path,
};
use crate::validation::{minimum_length, required, SpecError, ValidationError};

verus! {

// ---------------------------------------------------------------------------
// Allocate
// ---------------------------------------------------------------------------
/// A request to allocate a cell, as it arrives.
pub struct AllocateCellRequest {
    pub cell: Option<RawCell>,
}

/// The mathematical shape of a raw allocate request.
pub struct SpecAllocateRequest {
    pub cell: Option<SpecRawCell>,
}

impl View for AllocateCellRequest {
    type V = SpecAllocateRequest;

    open spec fn view(&self) -> SpecAllocateRequest {
        SpecAllocateRequest { cell: self.cell.deep_view() }
    }
}

/// A validated request to allocate a cell.
#[derive(Debug)]
pub struct ValidatedAllocateCellRequest {
    pub cell: ValidatedCell,
}

/// The mathematical shape of a validated allocate request.
pub struct SpecValidatedAllocate {
    pub cell: SpecCell,
}

impl View for ValidatedAllocateCellRequest {
    type V = SpecValidatedAllocate;

    open spec fn view(&self) -> SpecValidatedAllocate {
        SpecValidatedAllocate { cell: self.cell@ }
    }
}

/// What validating a required cell-descriptor field must return: `Missing` at
/// the field's path when absent, otherwise the descriptor's own validation
/// under that path.
pub open spec fn spec_validate_cell_field(
    cell: Option<SpecRawCell>,
    field: Seq<char>,
    parent: Option<Seq<char>>,
) -> Result<SpecCell, SpecError> {
    match cell {
        Option::None => Err(SpecError::Missing(spec_field_path(field, parent))),
        Option::Some(c) => spec_validate_cell(c, Option::Some(spec_field_path(field, parent))),
    }
}

/// What validating a raw allocate request must return.
pub open spec fn spec_validate_allocate(
    raw: SpecAllocateRequest,
    parent: Option<Seq<char>>,
) -> Result<SpecValidatedAllocate, SpecError> {
    match spec_validate_cell_field(raw.cell, "cell"@, parent) {
        Ok(c) => Ok(SpecValidatedAllocate { cell: c }),
        Err(e) => Err(e),
    }
}

impl ValidatedAllocateCellRequest {
    /// The required-plus-delegate strategy for the cell field: absence is
    /// `Missing` at the field's path; a present descriptor is validated with
    /// that path as its parent.
    pub fn validate_cell(cell: Option<RawCell>, field: &str, parent: Option<&str>) -> (r: Result<
        ValidatedCell,
        ValidationError,
    >)
        ensures
            match r {
                Ok(v) => spec_validate_cell_field(cell.deep_view(), field@, spec_opt_path(parent))
                    == Ok::<SpecCell, SpecError>(v@),
                Err(e) => spec_validate_cell_field(cell.deep_view(), field@, spec_opt_path(parent))
                    == Err::<SpecCell, SpecError>(e@),
            },
    {
        let cell = match required(cell, field, parent) {
            Ok(c) => c,
            Err(e) => return Err(e),
        };
        let base = field_name(field, parent);
        ValidatedCell::validate(cell, Option::Some(base.as_str()))
    }

    /// Validates a raw allocate request.
    pub fn validate(raw: AllocateCellRequest, parent: Option<&str>) -> (r: Result<
        ValidatedAllocateCellRequest,
        ValidationError,
    >)
        ensures
            match r {
                Ok(v) => spec_validate_allocate(raw@, spec_opt_path(parent)) == Ok::<
                    SpecValidatedAllocate,
                    SpecError,
                >(v@),
                Err(e) => spec_validate_allocate(raw@, spec_opt_path(parent)) == Err::<
                    SpecValidatedAllocate,
                    SpecError,
                >(e@),
            },
    {
        let cell = match Self::validate_cell(raw.cell, "cell", parent) {
            Ok(c) => c,
            Err(e) => return Err(e),
        };
        Ok(ValidatedAllocateCellRequest { cell })
    }
}

// ---------------------------------------------------------------------------
// Free
// ---------------------------------------------------------------------------
/// A request to free a cell, as it arrives.
pub struct FreeCellRequest {
    pub cell_name: Option<String>,
}

/// The mathematical shape of a raw free request.
pub struct SpecFreeRequest {
    pub cell_name: Option<Seq<char>>,
}

impl View for FreeCellRequest {
    type V = SpecFreeRequest;

    open spec fn view(&self) -> SpecFreeRequest {
        SpecFreeRequest { cell_name: self.cell_name.deep_view() }
    }
}

/// A validated request to free a cell.
#[derive(Debug)]
pub struct ValidatedFreeCellRequest {
    pub cell_name: CellName,
}

/// The mathematical shape of a validated free request.
pub struct SpecValidatedFree {
    pub cell_name: Seq<char>,
}

impl View for ValidatedFreeCellRequest {
    type V = SpecValidatedFree;

    open spec fn view(&self) -> SpecValidatedFree {
        SpecValidatedFree { cell_name: self.cell_name@ }
    }
}

/// What validating a required name field must return.
pub open spec fn spec_validate_name_field(
    name: Option<Seq<char>>,
    field: Seq<char>,
    parent: Option<Seq<char>>,
) -> Result<Seq<char>, SpecError> {
    match name {
        Option::None => Err(SpecError::Missing(spec_field_path(field, parent))),
        Option::Some(n) => if valid_name(n) {
            Ok(n)
        } else {
            Err(SpecError::Invalid(spec_field_path(field, parent)))
        },
    }
}

/// What validating a raw free request must return.
pub open spec fn spec_validate_free(raw: SpecFreeRequest, parent: Option<Seq<char>>) -> Result<
    SpecValidatedFree,
    SpecError,
> {
    match spec_validate_name_field(raw.cell_name, "cell_name"@, parent) {
        Ok(n) => Ok(SpecValidatedFree { cell_name: n }),
        Err(e) => Err(e),
    }
}

impl ValidatedFreeCellRequest {
    /// Validates a raw free request.
    pub fn validate(raw: FreeCellRequest, parent: Option<&str>) -> (r: Result<
        ValidatedFreeCellRequest,
        ValidationError,
    >)
        ensures
            match r {
                Ok(v) => spec_validate_free(raw@, spec_opt_path(parent)) == Ok::<
                    SpecValidatedFree,
                    SpecError,
                >(v@),
                Err(e) => spec_validate_free(raw@, spec_opt_path(parent)) == Err::<
                    SpecValidatedFree,
                    SpecError,
                >(e@),
            },
    {
        let cell_name = match CellName::validate(raw.cell_name, "cell_name", parent) {
            Ok(n) => n,
            Err(e) => return Err(e),
        };
        Ok(ValidatedFreeCellRequest { cell_name })
    }
}

// ---------------------------------------------------------------------------
// Stop
// ---------------------------------------------------------------------------
/// A request to stop one executable of a cell, as it arrives.
pub struct StopCellRequest {
    pub cell_name: Option<String>,
    pub executable_name: Option<String>,
}

/// The mathematical shape of a raw stop request.
pub struct SpecStopRequest {
    pub cell_name: Option<Seq<char>>,
    pub executable_name: Option<Seq<char>>,
}

impl View for StopCellRequest {
    type V = SpecStopRequest;

    open spec fn view(&self) -> SpecStopRequest {
        SpecStopRequest {
            cell_name: self.cell_name.deep_view(),
            executable_name: self.executable_name.deep_view(),
        }
    }
}

/// A validated request to stop one executable of a cell.
#[derive(Debug)]
pub struct ValidatedStopCellRequest {
    pub cell_name: CellName,
    pub executable_name: ExecutableName,
}

/// The mathematical shape of a validated stop request.
pub struct SpecValidatedStop {
    pub cell_name: Seq<char>,
    pub executable_name: Seq<char>,
}

impl View for ValidatedStopCellRequest {
    type V = SpecValidatedStop;

    open spec fn view(&self) -> SpecValidatedStop {
        SpecValidatedStop {
            cell_name: self.cell_name@,
            executable_name: self.executable_name@,
        }
    }
}

/// What validating a raw stop request must return: the cell name first, the
/// executable name second, fail-fast.
pub open spec fn spec_validate_stop(raw: SpecStopRequest, parent: Option<Seq<char>>) -> Result<
    SpecValidatedStop,
    SpecError,
> {
    match spec_validate_name_field(raw.cell_name, "cell_name"@, parent) {
        Err(e) => Err(e),
        Ok(cn) => match spec_validate_name_field(raw.executable_name, "executable_name"@, parent) {
            Err(e) => Err(e),
            Ok(en) => Ok(SpecValidatedStop { cell_name: cn, executable_name: en }),
        },
    }
}

impl ValidatedStopCellRequest {
    /// Validates a raw stop request.
    pub fn validate(raw: StopCellRequest, parent: Option<&str>) -> (r: Result<
        ValidatedStopCellRequest,
        ValidationError,
    >)
        ensures
            match r {
                Ok(v) => spec_validate_stop(raw@, spec_opt_path(parent)) == Ok::<
                    SpecValidatedStop,
                    SpecError,
                >(v@),
                Err(e) => spec_validate_stop(raw@, spec_opt_path(parent)) == Err::<
                    SpecValidatedStop,
                    SpecError,
                >(e@),
            },
    {
        let cell_name = match CellName::validate(raw.cell_name, "cell_name", parent) {
            Ok(n) => n,
            Err(e) => return Err(e),
        };
        let executable_name = match ExecutableName::validate(
            raw.executable_name,
            "executable_name",
            parent,
        ) {
            Ok(n) => n,
            Err(e) => return Err(e),
        };
        Ok(ValidatedStopCellRequest { cell_name, executable_name })
    }
}

// ---------------------------------------------------------------------------
// Start
// ---------------------------------------------------------------------------
/// A request to start executables inside a cell, as it arrives.
pub struct StartCellRequest {
    pub cell_name: Option<String>,
    pub executables: Vec<RawExecutable>,
}

/// The mathematical shape of a raw start request.
pub struct SpecStartRequest {
    pub cell_name: Option<Seq<char>>,
    pub executables: Seq<SpecRawExecutable>,
}

impl View for StartCellRequest {
    type V = SpecStartRequest;

    open spec fn view(&self) -> SpecStartRequest {
        SpecStartRequest {
            cell_name: self.cell_name.deep_view(),
            executables: self.executables.deep_view(),
        }
    }
}

/// A validated request to start executables inside a cell.
#[derive(Debug)]
pub struct ValidatedStartCellRequest {
    pub cell_name: CellName,
    pub executables: Vec<ValidatedExecutable>,
}

/// The mathematical shape of a validated start request.
pub struct SpecValidatedStart {
    pub cell_name: Seq<char>,
    pub executables: Seq<SpecExecutable>,
}

impl View for ValidatedStartCellRequest {
    type V = SpecValidatedStart;

    open spec fn view(&self) -> SpecValidatedStart {
        SpecValidatedStart {
            cell_name: self.cell_name@,
            executables: self.executables.deep_view(),
        }
    }
}

/// The tail of the repeated-field validation: the elements of `list` from `i`
/// on, each validated under its positional path `base[index]`, appended to
/// the already-validated `acc`; the first element error aborts the whole
/// list.
pub open spec fn spec_validate_executables_from(
    list: Seq<SpecRawExecutable>,
    base: Seq<char>,
    i: int,
    acc: Seq<SpecExecutable>,
) -> Result<Seq<SpecExecutable>, SpecError>
    decreases list.len() - i,
{
    if i >= list.len() {
        Ok(acc)
    } else {
        match spec_validate_executable(list[i], Option::Some(spec_indexed_path(base, i as nat))) {
            Err(e) => Err(e),
            Ok(v) => spec_validate_executables_from(list, base, i + 1, acc.push(v)),
        }
    }
}

/// What validating a start request's executables must return: an empty list
/// is `Invalid` at the repeated field's own path, before any element is
/// inspected; otherwise the elements validate in order, fail-fast.
pub open spec fn spec_validate_executables(
    list: Seq<SpecRawExecutable>,
    field: Seq<char>,
    parent: Option<Seq<char>>,
) -> Result<Seq<SpecExecutable>, SpecError> {
    if list.len() == 0 {
        Err(SpecError::Invalid(spec_field_path(field, parent)))
    } else {
        spec_validate_executables_from(list, spec_field_path(field, parent), 0, Seq::empty())
    }
}

/// What validating a raw start request must return.
pub open spec fn spec_validate_start(raw: SpecStartRequest, parent: Option<Seq<char>>) -> Result<
    SpecValidatedStart,
    SpecError,
> {
    match spec_validate_name_field(raw.cell_name, "cell_name"@, parent) {
        Err(e) => Err(e),
        Ok(cn) => match spec_validate_executables(raw.executables, "executables"@, parent) {
            Err(e) => Err(e),
            Ok(v) => Ok(SpecValidatedStart { cell_name: cn, executables: v }),
        },
    }
}

impl ValidatedStartCellRequest {
    /// The repeated-field strategy for the executables list: at least one
    /// element, then each element validated under its positional path, with
    /// the first element error aborting the whole list.
    pub fn validate_executables(
        executables: Vec<RawExecutable>,
        field: &str,
        parent: Option<&str>,
    ) -> (r: Result<Vec<ValidatedExecutable>, ValidationError>)
        ensures
            match r {
                Ok(v) => spec_validate_executables(
                    executables.deep_view(),
                    field@,
                    spec_opt_path(parent),
                ) == Ok::<Seq<SpecExecutable>, SpecError>(v.deep_view()),
                Err(e) => spec_validate_executables(
                    executables.deep_view(),
                    field@,
                    spec_opt_path(parent),
                ) == Err::<Seq<SpecExecutable>, SpecError>(e@),
            },
    {
        match minimum_length(&executables, 1, field, parent) {
            Ok(u) => u,
            Err(e) => return Err(e),
        };
        let base = field_name(field, parent);
        let ghost all = executables.deep_view();
        let mut remaining = executables;
        let mut out: Vec<ValidatedExecutable> = Vec::new();
        let n = remaining.len();
        let mut i: usize = 0;
        proof {
            assert(remaining.deep_view() =~= all.subrange(0, n as int));
            assert(out.deep_view() =~= Seq::<SpecExecutable>::empty());
        }
        while i < n
            invariant
                i <= n,
                n == all.len(),
                all == executables.deep_view(),
                remaining@.len() == n - i,
                remaining.deep_view() == all.subrange(i as int, n as int),
                base@ == spec_field_path(field@, spec_opt_path(parent)),
                spec_validate_executables_from(all, base@, 0, Seq::empty())
                    == spec_validate_executables_from(all, base@, i as int, out.deep_view()),
            decreases n - i,
        {
            let ghost remaining_before = remaining.deep_view();
            let raw_e = remaining.remove(0);
            proof {
                assert(raw_e.deep_view() == remaining_before[0]);
                assert(raw_e.deep_view() == all[i as int]);
                assert forall|k: int| 0 <= k < remaining.deep_view().len() implies
                    remaining.deep_view()[k] == all.subrange(i as int + 1, n as int)[k] by {
                    assert(remaining.deep_view()[k] == remaining_before[k + 1]);
                }
                assert(remaining.deep_view() =~= all.subrange(i as int + 1, n as int));
            }
            let element_path = indexed_field_name(base.as_str(), i);
            match ValidatedExecutable::validate(raw_e, Option::Some(element_path.as_str())) {
                Ok(v) => {
                    let ghost out_before = out.deep_view();
                    let ghost v_view = v@;
                    out.push(v);
                    proof {
                        assert forall|k: int| 0 <= k < out.deep_view().len() implies out.deep_view()[k]
                            == out_before.push(v_view)[k] by {
                            if k < out_before.len() {
                                assert(out.deep_view()[k] == out_before[k]);
                            } else {
                                assert(out.deep_view()[k] == v_view);
                            }
                        }
                        assert(out.deep_view() =~= out_before.push(v_view));
                    }
                },
                Err(e) => {
                    proof {
                        assert(spec_validate_executable(
                            all[i as int],
                            Option::Some(spec_indexed_path(base@, i as nat)),
                        ) == Err::<SpecExecutable, SpecError>(e@));
                        assert(spec_validate_executables_from(all, base@, i as int, out.deep_view())
                            == Err::<Seq<SpecExecutable>, SpecError>(e@));
                    }
                    return Err(e);
                },
            }
            i = i + 1;
        }
        Ok(out)
    }

    /// Validates a raw start request.
    pub fn validate(raw: StartCellRequest, parent: Option<&str>) -> (r: Result<
        ValidatedStartCellRequest,
        ValidationError,
    >)
        ensures
            match r {
                Ok(v) => spec_validate_start(raw@, spec_opt_path(parent)) == Ok::<
                    SpecValidatedStart,
                    SpecError,
                >(v@),
                Err(e) => spec_validate_start(raw@, spec_opt_path(parent)) == Err::<
                    SpecValidatedStart,
                    SpecError,
                >(e@),
            },
    {
        let cell_name = match CellName::validate(raw.cell_name, "cell_name", parent) {
            Ok(n) => n,
            Err(e) => return Err(e),
        };
        let executables = match Self::validate_executables(raw.executables, "executables", parent) {
            Ok(v) => v,
            Err(e) => return Err(e),
        };
        Ok(ValidatedStartCellRequest { cell_name, executables })
    }
}

// ---------------------------------------------------------------------------
// Laws
// ---------------------------------------------------------------------------
/// Law: an allocate request without a cell descriptor is rejected as
/// `Missing` at exactly the cell field's path.
pub proof fn lemma_allocate_missing_cell(raw: SpecAllocateRequest, parent: Option<Seq<char>>)
    requires
        raw.cell is None,
    ensures
        spec_validate_allocate(raw, parent) == Err::<SpecValidatedAllocate, SpecError>(
            SpecError::Missing(spec_field_path("cell"@, parent)),
        ),
{
}

/// Law: an allocate request whose cell descriptor is present and valid in
/// every field is accepted, carrying the descriptor's validation result.
pub proof fn lemma_valid_allocate_accepted(raw: SpecAllocateRequest, parent: Option<Seq<char>>)
    requires
        raw.cell matches Some(c) && spec_validate_cell(
            c,
            Option::Some(spec_field_path("cell"@, parent)),
        ) is Ok,
    ensures
        spec_validate_allocate(raw, parent) == Ok::<SpecValidatedAllocate, SpecError>(
            SpecValidatedAllocate {
                cell: spec_validate_cell(
                    raw.cell->Some_0,
                    Option::Some(spec_field_path("cell"@, parent)),
                )->Ok_0,
            },
        ),
{
}

/// Law: a free request whose cell name is present and well-formed is
/// accepted, carrying the raw name; an absent cell name is reported as
/// `Missing` at exactly that field's path.
pub proof fn lemma_free_request_outcomes(raw: SpecFreeRequest, parent: Option<Seq<char>>)
    ensures
        (raw.cell_name is Some && valid_name(raw.cell_name->Some_0)) ==> spec_validate_free(
            raw,
            parent,
        ) == Ok::<SpecValidatedFree, SpecError>(
            SpecValidatedFree { cell_name: raw.cell_name->Some_0 },
        ),
        raw.cell_name is None ==> spec_validate_free(raw, parent) == Err::<
            SpecValidatedFree,
            SpecError,
        >(SpecError::Missing(spec_field_path("cell_name"@, parent))),
{
}

/// Law: a stop request whose two names are present and well-formed is
/// accepted, carrying the raw names.
pub proof fn lemma_valid_stop_accepted(raw: SpecStopRequest, parent: Option<Seq<char>>)
    requires
        raw.cell_name matches Some(n) && valid_name(n),
        raw.executable_name matches Some(n) && valid_name(n),
    ensures
        spec_validate_stop(raw, parent) == Ok::<SpecValidatedStop, SpecError>(
            SpecValidatedStop {
                cell_name: raw.cell_name->Some_0,
                executable_name: raw.executable_name->Some_0,
            },
        ),
{
}

/// Law: an absent required field of a stop request is reported as `Missing`
/// at exactly that field's path, the first absent field in declaration order
/// winning.
pub proof fn lemma_stop_missing_field_reported(raw: SpecStopRequest, parent: Option<Seq<char>>)
    ensures
        raw.cell_name is None ==> spec_validate_stop(raw, parent) == Err::<
            SpecValidatedStop,
            SpecError,
        >(SpecError::Missing(spec_field_path("cell_name"@, parent))),
        (raw.cell_name is Some && valid_name(raw.cell_name->Some_0) && raw.executable_name is None)
            ==> spec_validate_stop(raw, parent) == Err::<SpecValidatedStop, SpecError>(
            SpecError::Missing(spec_field_path("executable_name"@, parent)),
        ),
{
}

/// Law: a start request with no executables at all is rejected as `Invalid`
/// at the repeated field's own path — before any element-level check runs,
/// since there is no element the outcome could depend on.
pub proof fn lemma_start_empty_executables(raw: SpecStartRequest, parent: Option<Seq<char>>)
    requires
        raw.cell_name matches Some(n) && valid_name(n),
        raw.executables.len() == 0,
    ensures
        spec_validate_start(raw, parent) == Err::<SpecValidatedStart, SpecError>(
            SpecError::Invalid(spec_field_path("executables"@, parent)),
        ),
{
}

proof fn lemma_executables_from_first_error(
    list: Seq<SpecRawExecutable>,
    base: Seq<char>,
    i: int,
    j: int,
    acc: Seq<SpecExecutable>,
    e: SpecError,
)
    requires
        0 <= i <= j < list.len(),
        forall|k: int|
            i <= k < j ==> spec_validate_executable(
                list[k],
                Option::Some(spec_indexed_path(base, k as nat)),
            ) is Ok,
        spec_validate_executable(list[j], Option::Some(spec_indexed_path(base, j as nat))) == Err::<
            SpecExecutable,
            SpecError,
        >(e),
    ensures
        spec_validate_executables_from(list, base, i, acc) == Err::<Seq<SpecExecutable>, SpecError>(
            e,
        ),
    decreases j - i,
{
    if i < j {
        let v = spec_validate_executable(
            list[i],
            Option::Some(spec_indexed_path(base, i as nat)),
        )->Ok_0;
        lemma_executables_from_first_error(list, base, i + 1, j, acc.push(v), e);
    }
}

/// Law: element errors are fail-fast — when every executable before position
/// `j` validates and the one at `j` fails, the whole list fails with exactly
/// the element's error, carrying its positional path.
pub proof fn lemma_executables_first_error(
    list: Seq<SpecRawExecutable>,
    field: Seq<char>,
    parent: Option<Seq<char>>,
    j: int,
    e: SpecError,
)
    requires
        0 <= j < list.len(),
        forall|k: int|
            0 <= k < j ==> spec_validate_executable(
                list[k],
                Option::Some(spec_indexed_path(spec_field_path(field, parent), k as nat)),
            ) is Ok,
        spec_validate_executable(
            list[j],
            Option::Some(spec_indexed_path(spec_field_path(field, parent), j as nat)),
        ) == Err::<SpecExecutable, SpecError>(e),
    ensures
        spec_validate_executables(list, field, parent) == Err::<Seq<SpecExecutable>, SpecError>(e),
{
    lemma_executables_from_first_error(
        list,
        spec_field_path(field, parent),
        0,
        j,
        Seq::empty(),
        e,
    );
}

proof fn lemma_executables_from_all_ok(
    list: Seq<SpecRawExecutable>,
    base: Seq<char>,
    i: int,
    acc: Seq<SpecExecutable>,
)
    requires
        0 <= i <= list.len(),
        forall|k: int|
            i <= k < list.len() ==> spec_validate_executable(
                list[k],
                Option::Some(spec_indexed_path(base, k as nat)),
            ) is Ok,
    ensures
        spec_validate_executables_from(list, base, i, acc) is Ok,
        spec_validate_executables_from(list, base, i, acc)->Ok_0 =~= acc + Seq::new(
            (list.len() - i) as nat,
            |k: int|
                spec_validate_executable(
                    list[k + i],
                    Option::Some(spec_indexed_path(base, (k + i) as nat)),
                )->Ok_0,
        ),
    decreases list.len() - i,
{
    if i < list.len() {
        let v = spec_validate_executable(
            list[i],
            Option::Some(spec_indexed_path(base, i as nat)),
        )->Ok_0;
        assert(spec_validate_executables_from(list, base, i, acc)
            == spec_validate_executables_from(list, base, i + 1, acc.push(v)));
        lemma_executables_from_all_ok(list, base, i + 1, acc.push(v));
    }
}

/// Law: when every executable of a non-empty list validates under its
/// positional path, the whole list validates, and the validated elements are,
/// in order, exactly the elements' own validation results.
pub proof fn lemma_executables_all_accepted(
    list: Seq<SpecRawExecutable>,
    field: Seq<char>,
    parent: Option<Seq<char>>,
)
    requires
        list.len() > 0,
        forall|k: int|
            0 <= k < list.len() ==> spec_validate_executable(
                list[k],
                Option::Some(spec_indexed_path(spec_field_path(field, parent), k as nat)),
            ) is Ok,
    ensures
        spec_validate_executables(list, field, parent) is Ok,
        spec_validate_executables(list, field, parent)->Ok_0 =~= Seq::new(
            list.len(),
            |k: int|
                spec_validate_executable(
                    list[k],
                    Option::Some(spec_indexed_path(spec_field_path(field, parent), k as nat)),
                )->Ok_0,
        ),
{
    let base = spec_field_path(field, parent);
    lemma_executables_from_all_ok(list, base, 0, Seq::empty());
}

/// Law: a start request whose cell name is present and well-formed and whose
/// executables all validate is accepted, carrying the raw cell name and, in
/// order, each element's own validation result.
pub proof fn lemma_valid_start_accepted(raw: SpecStartRequest, parent: Option<Seq<char>>)
    requires
        raw.cell_name matches Some(n) && valid_name(n),
        raw.executables.len() > 0,
        forall|k: int|
            0 <= k < raw.executables.len() ==> spec_validate_executable(
                raw.executables[k],
                Option::Some(
                    spec_indexed_path(spec_field_path("executables"@, parent), k as nat),
                ),
            ) is Ok,
    ensures
        spec_validate_start(raw, parent) is Ok,
        spec_validate_start(raw, parent)->Ok_0.cell_name == raw.cell_name->Some_0,
        spec_validate_start(raw, parent)->Ok_0.executables =~= Seq::new(
            raw.executables.len(),
            |k: int|
                spec_validate_executable(
                    raw.executables[k],
                    Option::Some(
                        spec_indexed_path(spec_field_path("executables"@, parent), k as nat),
                    ),
                )->Ok_0,
        ),
{
    lemma_executables_all_accepted(raw.executables, "executables"@, parent);
}

/// Law: a start request whose cell name is valid fails with exactly the first
/// failing element's error, carrying that element's positional path.
pub proof fn lemma_start_first_element_error(
    raw: SpecStartRequest,
    parent: Option<Seq<char>>,
    j: int,
    e: SpecError,
)
    requires
        raw.cell_name matches Some(n) && valid_name(n),
        0 <= j < raw.executables.len(),
        forall|k: int|
            0 <= k < j ==> spec_validate_executable(
                raw.executables[k],
                Option::Some(
                    spec_indexed_path(spec_field_path("executables"@, parent), k as nat),
                ),
            ) is Ok,
        spec_validate_executable(
            raw.executables[j],
            Option::Some(spec_indexed_path(spec_field_path("executables"@, parent), j as nat)),
        ) == Err::<SpecExecutable, SpecError>(e),
    ensures
        spec_validate_start(raw, parent) == Err::<SpecValidatedStart, SpecError>(e),
{
    lemma_executables_first_error(raw.executables, "executables"@, parent, j, e);
}

/// Law: validation has no hidden state — any two outcomes of validating the
/// same raw start request under the same parent path are equal, so validating
/// an already-valid raw message twice yields field-equal validated values
/// both times.
pub proof fn lemma_validate_start_repeatable(
    raw: SpecStartRequest,
    parent: Option<Seq<char>>,
    out1: Result<SpecValidatedStart, SpecError>,
    out2: Result<SpecValidatedStart, SpecError>,
)
    requires
        out1 == spec_validate_start(raw, parent),
        out2 == spec_validate_start(raw, parent),
    ensures
        out1 == out2,
{
}

/// Law: validation has no hidden state — any two outcomes of validating the
/// same raw allocate request under the same parent path are equal.
pub proof fn lemma_validate_allocate_repeatable(
    raw: SpecAllocateRequest,
    parent: Option<Seq<char>>,
    out1: Result<SpecValidatedAllocate, SpecError>,
    out2: Result<SpecValidatedAllocate, SpecError>,
)
    requires
        out1 == spec_validate_allocate(raw, parent),
        out2 == spec_validate_allocate(raw, parent),
    ensures
        out1 == out2,
{
}

} // verus!
