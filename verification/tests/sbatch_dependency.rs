use sbatch_rs::dependency_type::DependencyType;
use sbatch_rs::sbatch_dependency::{
    determine_separator, split_dependency_by_colon, DependencySeparator, SbatchDependency,
    SbatchDependencyError,
};

#[test]
fn test_single_dependency() {
    for separator in [DependencySeparator::And, DependencySeparator::Or] {
        let mut dependencies = SbatchDependency::new();
        dependencies.set_dependency(DependencyType::after("1").unwrap());
        dependencies.set_separator(separator);
        assert_eq!(dependencies.render(), "\"after:1\"");
    }
}

#[test]
fn test_and_dependencies() {
    let mut dependencies = SbatchDependency::new();
    dependencies.set_dependency(DependencyType::after("1").unwrap());
    dependencies.set_dependency(DependencyType::after("2").unwrap());
    dependencies.set_separator(DependencySeparator::And);

    assert_eq!(dependencies.render(), "\"after:1,after:2\"");
}

#[test]
fn test_or_dependencies() {
    let mut dependencies = SbatchDependency::new();
    dependencies.set_dependency(DependencyType::after("1").unwrap());
    dependencies.set_dependency(DependencyType::after("2").unwrap());
    dependencies.set_separator(DependencySeparator::Or);

    assert_eq!(dependencies.render(), "\"after:1?after:2\"");
}

#[test]
fn test_determine_separator() {
    let cases = [
        ("after:1", DependencySeparator::And),
        ("after:1,after:2", DependencySeparator::And),
        ("after:1?after:2", DependencySeparator::Or),
        ("\"after:1?after:2\"", DependencySeparator::Or),
    ];
    for (input_value, expected) in cases {
        let result = determine_separator(input_value);
        assert_eq!(result.unwrap(), expected);
    }
}

#[test]
fn test_determine_separator_error() {
    let result = determine_separator("after:1?after:2,after:3");
    assert!(result.is_err());
}

#[test]
fn test_split_dependency_by_colon() {
    let cases: [(&str, Vec<&str>); 8] = [
        ("after:1", vec!["after:1"]),
        ("after:1:2", vec!["after:1", "after:2"]),
        ("after:1:2:3", vec!["after:1", "after:2", "after:3"]),
        ("afterok:1:2:3", vec!["afterok:1", "afterok:2", "afterok:3"]),
        ("afternotok:1:2", vec!["afternotok:1", "afternotok:2"]),
        ("aftercorr:1", vec!["aftercorr:1"]),
        ("afterburstbuffer:1:2", vec!["afterburstbuffer:1", "afterburstbuffer:2"]),
        ("singleton", vec!["singleton"]),
    ];
    for (input_value, expected) in cases {
        let result = split_dependency_by_colon(input_value).unwrap();
        assert_eq!(result, expected);
    }
}

#[test]
fn test_split_dependency_by_colon_error() {
    let result = split_dependency_by_colon("not_valid:1:2:3:4");
    assert!(result.is_err());
}

#[test]
fn test_parse_counts() {
    let cases = [
        ("after:1", 1),
        ("after:1,after:2", 2),
        ("after:1?after:2", 2),
        ("after:1:2", 2),
        ("after:1:2:3", 3),
        ("afterok:1:2:3", 3),
        ("\"afterok:1:2:3\"", 3),
        ("singleton", 1),
    ];
    for (input_value, length) in cases {
        let result = SbatchDependency::from_str(input_value).unwrap();
        assert_eq!(result.len(), length);
    }
}

#[test]
fn test_parse_dedups_repeats() {
    let result = SbatchDependency::from_str("after:1,after:1,after:1").unwrap();
    assert_eq!(result.len(), 1);
    assert_eq!(result.render(), "\"after:1\"");

    let shorthand = SbatchDependency::from_str("after:1:1:1").unwrap();
    assert_eq!(shorthand.len(), 1);
    assert_eq!(shorthand.render(), "\"after:1\"");
}

#[test]
fn test_parse_mixed_separators_error() {
    match SbatchDependency::from_str("after:1?after:2,after:3") {
        Err(SbatchDependencyError::MixedSeparators(t)) => {
            assert_eq!(t, "after:1?after:2,after:3");
        },
        other => panic!("expected a mixed-separator error, got {:?}", other),
    }
}

#[test]
fn test_parse_defaults_to_and() {
    let single = SbatchDependency::from_str("after:1:2").unwrap();
    assert_eq!(single.render(), "\"after:1,after:2\"");
}

#[test]
fn test_render_deterministic_across_orders() {
    let mut forward = SbatchDependency::new();
    forward.set_dependency(DependencyType::after("1").unwrap());
    forward.set_dependency(DependencyType::after_ok("2").unwrap());
    forward.set_dependency(DependencyType::Singleton);

    let mut backward = SbatchDependency::new();
    backward.set_dependency(DependencyType::Singleton);
    backward.set_dependency(DependencyType::after_ok("2").unwrap());
    backward.set_dependency(DependencyType::after("1").unwrap());

    assert_eq!(forward.render(), backward.render());
    assert_eq!(forward.render(), "\"after:1,afterok:2,singleton\"");
}

#[test]
fn test_parse_order_insensitive() {
    let forward = SbatchDependency::from_str("after:1,after:2").unwrap();
    let backward = SbatchDependency::from_str("after:2,after:1").unwrap();
    assert_eq!(forward.render(), backward.render());
}

#[test]
fn test_set_dependency_is_idempotent() {
    let mut dependencies = SbatchDependency::new();
    dependencies.set_dependency(DependencyType::after("1").unwrap());
    dependencies.set_dependency(DependencyType::after("1").unwrap());
    assert_eq!(dependencies.len(), 1);
}

#[test]
fn test_parse_bad_token_error() {
    match SbatchDependency::from_str("bogus:1,after:2") {
        Err(SbatchDependencyError::ParseError(t)) => assert_eq!(t, "bogus:1"),
        other => panic!("expected a parse error, got {:?}", other),
    }
    assert!(SbatchDependency::from_str("").is_err());
    assert!(SbatchDependency::from_str("after").is_err());
}

#[test]
fn test_parse_bad_clause_error() {
    match SbatchDependency::from_str("after:nope") {
        Err(SbatchDependencyError::ParseError(t)) => assert_eq!(t, "after:nope"),
        other => panic!("expected a parse error, got {:?}", other),
    }
}

#[test]
fn test_parse_reports_first_failure() {
    match SbatchDependency::from_str("bogus:1,worse:2") {
        Err(SbatchDependencyError::ParseError(t)) => assert_eq!(t, "bogus:1"),
        other => panic!("expected a parse error, got {:?}", other),
    }
    match SbatchDependency::from_str("after:1,after:nope,after:zzz") {
        Err(SbatchDependencyError::ParseError(t)) => assert_eq!(t, "after:nope"),
        other => panic!("expected a parse error, got {:?}", other),
    }
}
