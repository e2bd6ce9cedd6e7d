use sbatch_rs::dependency_type::{DependencyType, DependencyTypeError};
use sbatch_rs::time_delay::{TimeDelay, TimeDelayError};

#[test]
fn test_after_time_delay_is_ok() {
    let dependency = DependencyType::after_time_delay("123", "1");
    assert!(dependency.is_ok());

    let dependency = DependencyType::after("123+1");
    assert!(dependency.is_ok());
}

#[test]
fn test_after_time_delay_is_error() {
    let dependency = DependencyType::after_time_delay("123", "");
    assert!(dependency.is_err());

    let dependency = DependencyType::after_time_delay("", "1");
    assert!(dependency.is_err());

    let dependency = DependencyType::after("123+1+4");
    assert!(dependency.is_err());

    let dependency = DependencyType::after("123+");
    assert!(dependency.is_err());
}

#[test]
fn test_clause_constructors_accept_job_forms() {
    for value in ["1", "$name", "$name1", "$name_", "$name_1", "${name1}", "${name_}", "${name_1}"] {
        assert!(DependencyType::after(value).is_ok());
        assert!(DependencyType::after_any(value).is_ok());
        assert!(DependencyType::after_burst_buffer(value).is_ok());
        assert!(DependencyType::after_corr(value).is_ok());
        assert!(DependencyType::after_not_ok(value).is_ok());
        assert!(DependencyType::after_ok(value).is_ok());
        assert!(DependencyType::singleton("").is_ok());
        assert!(DependencyType::singleton(value).is_err());
    }
}

#[test]
fn test_clause_constructors_reject_bad_jobs() {
    for value in ["", "asb"] {
        assert!(DependencyType::after(value).is_err());
        assert!(DependencyType::after_any(value).is_err());
        assert!(DependencyType::after_burst_buffer(value).is_err());
        assert!(DependencyType::after_corr(value).is_err());
        assert!(DependencyType::after_not_ok(value).is_err());
        assert!(DependencyType::after_ok(value).is_err());
    }
}

#[test]
fn test_clause_render() {
    assert_eq!(DependencyType::after("1").unwrap().render(), "after:1");
    assert_eq!(DependencyType::after("$variable").unwrap().render(), "after:${variable}");
    assert_eq!(DependencyType::after_time_delay("1", "1").unwrap().render(), "after:1+1");
    assert_eq!(DependencyType::after_any("1").unwrap().render(), "afterany:1");
    assert_eq!(
        DependencyType::after_burst_buffer("1").unwrap().render(),
        "afterburstbuffer:1"
    );
    assert_eq!(DependencyType::after_corr("1").unwrap().render(), "aftercorr:1");
    assert_eq!(DependencyType::after_not_ok("1").unwrap().render(), "afternotok:1");
    assert_eq!(DependencyType::after_ok("1").unwrap().render(), "afterok:1");
    assert_eq!(DependencyType::Singleton.render(), "singleton");
}

#[test]
fn test_clause_from_str() {
    let cases = [
        ("after:1", DependencyType::after("1").unwrap()),
        ("after:${variable}", DependencyType::after("$variable").unwrap()),
        ("\"after:${variable}\"", DependencyType::after("$variable").unwrap()),
        ("after:1+1", DependencyType::after_time_delay("1", "1").unwrap()),
        ("\"after:1+1\"", DependencyType::after_time_delay("1", "1").unwrap()),
        ("afterany:1", DependencyType::after_any("1").unwrap()),
        ("afterburstbuffer:1", DependencyType::after_burst_buffer("1").unwrap()),
        ("aftercorr:1", DependencyType::after_corr("1").unwrap()),
        ("afternotok:1", DependencyType::after_not_ok("1").unwrap()),
        ("afterok:1", DependencyType::after_ok("1").unwrap()),
        ("singleton", DependencyType::Singleton),
    ];
    for (text, expected) in cases {
        assert_eq!(DependencyType::from_str(text).unwrap(), expected);
    }
    assert!(DependencyType::from_str("").is_err());
    assert!(DependencyType::from_str("asb").is_err());
}

#[test]
fn test_clause_round_trip_concrete() {
    let clauses = [
        DependencyType::after("123").unwrap(),
        DependencyType::after("$step1").unwrap(),
        DependencyType::after_time_delay("123", "10").unwrap(),
        DependencyType::after_time_delay("$a", "1").unwrap(),
        DependencyType::after_any("7").unwrap(),
        DependencyType::after_burst_buffer("${x}").unwrap(),
        DependencyType::after_corr("42").unwrap(),
        DependencyType::after_not_ok("9").unwrap(),
        DependencyType::after_ok("4294967295").unwrap(),
        DependencyType::Singleton,
    ];
    for clause in clauses {
        let rendered = clause.render();
        let reparsed = DependencyType::from_str(&rendered).unwrap();
        assert_eq!(reparsed, clause);
    }
}

#[test]
fn test_singleton_with_operand_is_error() {
    match DependencyType::from_str("singleton:1") {
        Err(DependencyTypeError::SingletonJobIdFound(t)) => assert_eq!(t, ":1"),
        other => panic!("expected a singleton error, got {:?}", other),
    }
}

#[test]
fn test_clause_empty_is_error() {
    assert_eq!(DependencyType::from_str("  "), Err(DependencyTypeError::EmptyString));
}

#[test]
fn test_time_delay_bounds() {
    assert_eq!(TimeDelay::from_str("1").unwrap().get(), 1);
    assert_eq!(TimeDelay::from_str("\"3\"").unwrap().get(), 3);
    assert!(matches!(
        TimeDelay::from_str("0"),
        Err(TimeDelayError::ParseIntError(_))
    ));
    assert!(matches!(
        TimeDelay::from_str("a"),
        Err(TimeDelayError::ParseIntError(_))
    ));
    assert_eq!(TimeDelay::new(0), Err(TimeDelayError::TryFromIntError));
    assert_eq!(TimeDelay::new(2).unwrap().render(), "2");
}
