use sbatch_rs::dependency_type::DependencyType;
use sbatch_rs::sbatch_dependency::{DependencySeparator, SbatchDependency};
use sbatch_rs::{Sbatch, SbatchOption};

#[test]
fn test_scenario_shorthand_afterok() {
    let parsed = SbatchDependency::from_str("afterok:1:2:3").unwrap();
    assert_eq!(parsed.len(), 3);
    assert_eq!(parsed.render(), "\"afterok:1,afterok:2,afterok:3\"");
}

#[test]
fn test_scenario_shorthand_after() {
    let parsed = SbatchDependency::from_str("after:1:2:3").unwrap();
    assert_eq!(parsed.len(), 3);
    assert_eq!(parsed.render(), "\"after:1,after:2,after:3\"");
}

#[test]
fn test_scenario_after_time_delay() {
    let clause = DependencyType::from_str("after:1+1").unwrap();
    assert_eq!(clause, DependencyType::after_time_delay("1", "1").unwrap());
    assert_eq!(clause.render(), "after:1+1");
}

#[test]
fn test_scenario_too_many_plus_parts() {
    assert!(DependencyType::from_str("after:123+1+4").is_err());
}

#[test]
fn test_scenario_or_separator() {
    let parsed = SbatchDependency::from_str("after:1?after:2").unwrap();
    assert_eq!(parsed.render(), "\"after:1?after:2\"");
}

#[test]
fn test_scenario_singleton_with_job_id() {
    assert!(DependencyType::from_str("singleton:1").is_err());
    assert!(SbatchDependency::from_str("singleton:1").is_err());
}

#[test]
fn test_scenario_command_assembly() {
    let command = Sbatch::new()
        .add_option(SbatchOption::JobName("test".to_string()))
        .unwrap()
        .add_option(SbatchOption::Output("test.out".to_string()))
        .unwrap()
        .set_script("test.sh".to_string())
        .unwrap()
        .build()
        .unwrap();
    assert_eq!(command, "sbatch --job-name=test --output=test.out test.sh");
}

#[test]
fn test_scenario_dependency_option_round_trip() {
    let option = SbatchOption::from_str("--dependency=\"afterok:1:2:3\"").unwrap();
    assert_eq!(option.render(), "--dependency=\"afterok:1,afterok:2,afterok:3\"");

    let short = SbatchOption::from_str("-d \"afterok:1:2:3\"").unwrap();
    assert!(option.is_same_variant(&short));
    assert_eq!(short.render(), "--dependency=\"afterok:1,afterok:2,afterok:3\"");
}

#[test]
fn test_scenario_expression_round_trip() {
    let first = SbatchDependency::from_str("afterok:3?after:1+5?singleton").unwrap();
    let rendered = first.render();
    assert_eq!(rendered, "\"after:1+5?afterok:3?singleton\"");

    let second = SbatchDependency::from_str(&rendered).unwrap();
    assert_eq!(second.render(), rendered);
}

#[test]
fn test_scenario_variable_normalisation() {
    let parsed = SbatchDependency::from_str("after:$step1").unwrap();
    assert_eq!(parsed.render(), "\"after:${step1}\"");
}

#[test]
fn test_scenario_set_separator_overwrites() {
    let mut parsed = SbatchDependency::from_str("after:1,after:2").unwrap();
    parsed.set_separator(DependencySeparator::Or);
    assert_eq!(parsed.render(), "\"after:1?after:2\"");
}
