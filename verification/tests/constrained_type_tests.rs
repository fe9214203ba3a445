use cell_validation::cell_name::CellName;
use cell_validation::cpu_cpus::CpuCpus;
use cell_validation::cpu_quota::CpuQuota;
use cell_validation::executable_name::ExecutableName;
use cell_validation::path::{field_name, indexed_field_name};
use cell_validation::validation::ValidationError;

#[test]
fn cell_name_accepts_well_formed_names() {
    let n = CellName::validate(Some("my-cell_01.a".to_string()), "name", None).unwrap();
    assert_eq!(n.as_str(), "my-cell_01.a");
}

#[test]
fn cell_name_rejects_absent_name_as_missing() {
    let e = CellName::validate(None, "name", Some("cell")).unwrap_err();
    assert!(matches!(e, ValidationError::Missing { ref field } if field == "cell.name"));
}

#[test]
fn cell_name_rejects_empty_name_as_invalid() {
    let e = CellName::validate(Some(String::new()), "name", None).unwrap_err();
    assert!(matches!(e, ValidationError::Invalid { ref field } if field == "name"));
}

#[test]
fn cell_name_rejects_forbidden_characters() {
    let e = CellName::validate(Some("a/b".to_string()), "name", None).unwrap_err();
    assert!(e.is_invalid());
    let e = CellName::validate(Some("a b".to_string()), "name", None).unwrap_err();
    assert!(e.is_invalid());
}

#[test]
fn cell_name_rejects_overlong_names() {
    let long = "a".repeat(257);
    assert!(CellName::validate(Some(long), "name", None).is_err());
    let max = "a".repeat(256);
    assert!(CellName::validate(Some(max), "name", None).is_ok());
}

#[test]
fn executable_name_follows_the_same_rule() {
    assert!(ExecutableName::validate(Some("runner-1".to_string()), "name", None).is_ok());
    let e = ExecutableName::validate(Some("bad name".to_string()), "name", None).unwrap_err();
    assert!(matches!(e, ValidationError::Invalid { ref field } if field == "name"));
}

#[test]
fn cpu_cpus_accepts_lists_and_ranges() {
    for ok in ["", "0", "0-2", "0-2,4", "1,3,5", "10-12,14,20-31"] {
        let c = CpuCpus::validate(Some(ok.to_string()), "cpu_cpus", None).unwrap();
        assert_eq!(c.as_str(), ok);
    }
}

#[test]
fn cpu_cpus_rejects_malformed_lists() {
    for bad in ["-1", "0-", "0--2", "0,,1", ",0", "0,", "a", "0-2,"] {
        let e = CpuCpus::validate(Some(bad.to_string()), "cpu_cpus", None).unwrap_err();
        assert!(
            matches!(e, ValidationError::Invalid { ref field } if field == "cpu_cpus"),
            "{bad} should be invalid"
        );
    }
}

#[test]
fn cpu_cpus_missing_is_reported_at_its_path() {
    let e = CpuCpus::validate(None, "cpu_cpus", Some("cell")).unwrap_err();
    assert!(matches!(e, ValidationError::Missing { ref field } if field == "cell.cpu_cpus"));
}

#[test]
fn cpu_quota_accepts_positive_quotas_up_to_one_period() {
    let q = CpuQuota::validate(Some(400000), "cpu_quota", None).unwrap();
    assert_eq!(q.value(), 400000);
    assert!(CpuQuota::validate(Some(1), "cpu_quota", None).is_ok());
    assert!(CpuQuota::validate(Some(1000000), "cpu_quota", None).is_ok());
}

#[test]
fn cpu_quota_rejects_out_of_range_quotas() {
    for bad in [0i64, -1, -400000, 1000001, i64::MAX] {
        let e = CpuQuota::validate(Some(bad), "cpu_quota", Some("cell")).unwrap_err();
        assert!(matches!(e, ValidationError::Invalid { ref field } if field == "cell.cpu_quota"));
    }
}

#[test]
fn field_paths_join_with_dots_and_indices() {
    assert_eq!(field_name("cell", None), "cell");
    assert_eq!(field_name("cpu_quota", Some("cell")), "cell.cpu_quota");
    assert_eq!(indexed_field_name("executables", 0), "executables[0]");
    assert_eq!(indexed_field_name("executables", 1), "executables[1]");
    assert_eq!(indexed_field_name("executables", 107), "executables[107]");
}
