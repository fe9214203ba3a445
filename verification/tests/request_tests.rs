use cell_validation::cell::{RawCell, ValidatedCell};
use cell_validation::executable::{RawExecutable, ValidatedExecutable};
use cell_validation::requests::{
    AllocateCellRequest, FreeCellRequest, StartCellRequest, StopCellRequest,
    ValidatedAllocateCellRequest, ValidatedFreeCellRequest, ValidatedStartCellRequest,
    ValidatedStopCellRequest,
};
use cell_validation::validation::ValidationError;

fn good_cell() -> RawCell {
    RawCell {
        name: Some("client-workload".to_string()),
        cpu_cpus: Some("0-2,4".to_string()),
        cpu_shares: 1024,
        cpu_mems: "0".to_string(),
        cpu_quota: Some(400000),
    }
}

fn good_executable(name: &str, command: &str) -> RawExecutable {
    RawExecutable {
        name: Some(name.to_string()),
        command: Some(command.to_string()),
        description: "a workload".to_string(),
    }
}

#[test]
fn valid_allocate_request_is_accepted_with_fields_kept() {
    let r = AllocateCellRequest { cell: Some(good_cell()) };
    let v = ValidatedAllocateCellRequest::validate(r, None).unwrap();
    assert_eq!(v.cell.name.as_str(), "client-workload");
    assert_eq!(v.cell.cpu_cpus.as_str(), "0-2,4");
    assert_eq!(v.cell.cpu_shares, 1024);
    assert_eq!(v.cell.cpu_mems, "0");
    assert_eq!(v.cell.cpu_quota.value(), 400000);
}

#[test]
fn allocate_without_cell_is_missing_at_cell() {
    let r = AllocateCellRequest { cell: None };
    let e = ValidatedAllocateCellRequest::validate(r, None).unwrap_err();
    assert!(matches!(e, ValidationError::Missing { ref field } if field == "cell"));
}

#[test]
fn allocate_reports_missing_nested_field_under_cell() {
    let mut cell = good_cell();
    cell.cpu_quota = None;
    let r = AllocateCellRequest { cell: Some(cell) };
    let e = ValidatedAllocateCellRequest::validate(r, None).unwrap_err();
    assert!(matches!(e, ValidationError::Missing { ref field } if field == "cell.cpu_quota"));
}

#[test]
fn bad_cpu_quota_is_invalid_at_cell_cpu_quota() {
    let mut cell = good_cell();
    cell.cpu_quota = Some(0);
    let r = AllocateCellRequest { cell: Some(cell) };
    let e = ValidatedAllocateCellRequest::validate(r, None).unwrap_err();
    assert!(matches!(e, ValidationError::Invalid { ref field } if field == "cell.cpu_quota"));
}

#[test]
fn first_declared_bad_field_wins() {
    // Both the name and the quota break their rules: the name is declared
    // first, so the error is reported there.
    let mut cell = good_cell();
    cell.name = Some("bad name".to_string());
    cell.cpu_quota = Some(-1);
    let e = ValidatedCell::validate(cell, Some("cell")).unwrap_err();
    assert!(matches!(e, ValidationError::Invalid { ref field } if field == "cell.name"));
}

#[test]
fn cell_validates_without_a_parent_path() {
    let mut cell = good_cell();
    cell.cpu_cpus = Some("0-".to_string());
    let e = ValidatedCell::validate(cell, None).unwrap_err();
    assert!(matches!(e, ValidationError::Invalid { ref field } if field == "cpu_cpus"));
}

#[test]
fn valid_free_request_is_accepted() {
    let r = FreeCellRequest { cell_name: Some("client-workload".to_string()) };
    let v = ValidatedFreeCellRequest::validate(r, None).unwrap();
    assert_eq!(v.cell_name.as_str(), "client-workload");
}

#[test]
fn free_without_cell_name_is_missing_at_cell_name() {
    let r = FreeCellRequest { cell_name: None };
    let e = ValidatedFreeCellRequest::validate(r, None).unwrap_err();
    assert!(matches!(e, ValidationError::Missing { ref field } if field == "cell_name"));
}

#[test]
fn valid_stop_request_is_accepted() {
    let r = StopCellRequest {
        cell_name: Some("client-workload".to_string()),
        executable_name: Some("sleeper".to_string()),
    };
    let v = ValidatedStopCellRequest::validate(r, None).unwrap();
    assert_eq!(v.cell_name.as_str(), "client-workload");
    assert_eq!(v.executable_name.as_str(), "sleeper");
}

#[test]
fn stop_without_executable_name_is_missing_there() {
    let r = StopCellRequest {
        cell_name: Some("client-workload".to_string()),
        executable_name: None,
    };
    let e = ValidatedStopCellRequest::validate(r, None).unwrap_err();
    assert!(matches!(e, ValidationError::Missing { ref field } if field == "executable_name"));
}

#[test]
fn valid_start_request_is_accepted_with_parsed_commands() {
    let r = StartCellRequest {
        cell_name: Some("client-workload".to_string()),
        executables: vec![
            good_executable("sleeper", "sleep 400"),
            good_executable("greeter", "echo hello world"),
        ],
    };
    let v = ValidatedStartCellRequest::validate(r, None).unwrap();
    assert_eq!(v.cell_name.as_str(), "client-workload");
    assert_eq!(v.executables.len(), 2);
    assert_eq!(v.executables[0].name.as_str(), "sleeper");
    assert_eq!(v.executables[0].command.program, "sleep");
    assert_eq!(v.executables[0].command.args, vec!["400".to_string()]);
    assert_eq!(v.executables[1].command.program, "echo");
    assert_eq!(
        v.executables[1].command.args,
        vec!["hello".to_string(), "world".to_string()]
    );
    assert_eq!(v.executables[1].description, "a workload");
}

#[test]
fn start_with_zero_executables_fails_before_elements() {
    let r = StartCellRequest {
        cell_name: Some("client-workload".to_string()),
        executables: vec![],
    };
    let e = ValidatedStartCellRequest::validate(r, None).unwrap_err();
    assert!(matches!(e, ValidationError::Invalid { ref field } if field == "executables"));
}

#[test]
fn empty_command_in_second_executable_fails_at_its_positional_path() {
    // Three executables, the second with an empty command: the element errors
    // propagate fail-fast, so validation fails there instead of silently
    // keeping the other two elements.
    let r = StartCellRequest {
        cell_name: Some("client-workload".to_string()),
        executables: vec![
            good_executable("one", "sleep 1"),
            good_executable("two", ""),
            good_executable("three", "sleep 3"),
        ],
    };
    let e = ValidatedStartCellRequest::validate(r, None).unwrap_err();
    assert!(matches!(e, ValidationError::Invalid { ref field } if field == "executables[1].command"));
}

#[test]
fn missing_name_in_first_executable_fails_at_its_positional_path() {
    let mut bad = good_executable("ignored", "sleep 1");
    bad.name = None;
    let r = StartCellRequest {
        cell_name: Some("client-workload".to_string()),
        executables: vec![bad, good_executable("two", "sleep 2")],
    };
    let e = ValidatedStartCellRequest::validate(r, None).unwrap_err();
    assert!(matches!(e, ValidationError::Missing { ref field } if field == "executables[0].name"));
}

#[test]
fn unparsable_command_is_invalid_at_the_command_path() {
    let e = ValidatedExecutable::validate(
        good_executable("one", "echo \"unclosed"),
        Some("executables[0]"),
    )
    .unwrap_err();
    assert!(matches!(e, ValidationError::Invalid { ref field } if field == "executables[0].command"));
}

#[test]
fn missing_command_is_missing_at_the_command_path() {
    let mut raw = good_executable("one", "ignored");
    raw.command = None;
    let e = ValidatedExecutable::validate(raw, None).unwrap_err();
    assert!(matches!(e, ValidationError::Missing { ref field } if field == "command"));
}

#[test]
fn validating_twice_yields_field_equal_values() {
    let build = || StartCellRequest {
        cell_name: Some("client-workload".to_string()),
        executables: vec![good_executable("sleeper", "sleep 400")],
    };
    let v1 = ValidatedStartCellRequest::validate(build(), None).unwrap();
    let v2 = ValidatedStartCellRequest::validate(build(), None).unwrap();
    assert_eq!(v1.cell_name.as_str(), v2.cell_name.as_str());
    assert_eq!(v1.executables.len(), v2.executables.len());
    assert_eq!(v1.executables[0].name.as_str(), v2.executables[0].name.as_str());
    assert_eq!(v1.executables[0].command.program, v2.executables[0].command.program);
    assert_eq!(v1.executables[0].command.args, v2.executables[0].command.args);
    assert_eq!(v1.executables[0].description, v2.executables[0].description);
}

#[test]
fn start_with_invalid_cell_name_fails_there_first() {
    let r = StartCellRequest {
        cell_name: Some("bad name".to_string()),
        executables: vec![good_executable("one", "sleep 1")],
    };
    let e = ValidatedStartCellRequest::validate(r, None).unwrap_err();
    assert!(matches!(e, ValidationError::Invalid { ref field } if field == "cell_name"));
}

#[test]
fn positional_paths_carry_two_digit_indices() {
    let mut executables: Vec<RawExecutable> = (0..11)
        .map(|i| good_executable(&format!("exe{i}"), "sleep 1"))
        .collect();
    executables[10].command = Some("echo \"unclosed".to_string());
    let r = StartCellRequest {
        cell_name: Some("client-workload".to_string()),
        executables,
    };
    let e = ValidatedStartCellRequest::validate(r, None).unwrap_err();
    assert!(matches!(e, ValidationError::Invalid { ref field } if field == "executables[10].command"));
}

#[test]
fn error_accessors_report_kind_and_field() {
    let r = AllocateCellRequest { cell: None };
    let e = ValidatedAllocateCellRequest::validate(r, None).unwrap_err();
    assert!(e.is_missing());
    assert!(!e.is_invalid());
    assert_eq!(e.field(), "cell");
}
