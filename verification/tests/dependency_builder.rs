use sbatch_rs::{Dependency, DependencyType};

#[test]
fn test_push_after() {
    let dependency = Dependency::new_and()
        .push_after("123")
        .unwrap()
        .build()
        .unwrap();
    assert_eq!(dependency, "after:123");
}

#[test]
fn test_push_after_time_delay() {
    let dependency = Dependency::new_and()
        .push_after_time_delay("123", "1")
        .unwrap()
        .build()
        .unwrap();
    assert_eq!(dependency, "after:123+1");
}

#[test]
fn test_push_after_any() {
    let dependency = Dependency::new_and()
        .push_after_any("123")
        .unwrap()
        .build()
        .unwrap();
    assert_eq!(dependency, "afterany:123");
}

#[test]
fn test_push_after_burst_buffer() {
    let dependency = Dependency::new_and()
        .push_after_burst_buffer("123")
        .unwrap()
        .build()
        .unwrap();
    assert_eq!(dependency, "afterburstbuffer:123");
}

#[test]
fn test_push_after_corr() {
    let dependency = Dependency::new_and()
        .push_after_corr("123")
        .unwrap()
        .build()
        .unwrap();
    assert_eq!(dependency, "aftercorr:123");
}

#[test]
fn test_push_after_not_ok() {
    let dependency = Dependency::new_and()
        .push_after_not_ok("123")
        .unwrap()
        .build()
        .unwrap();
    assert_eq!(dependency, "afternotok:123");
}

#[test]
fn test_push_after_ok() {
    let dependency = Dependency::new_and()
        .push_after_ok("123")
        .unwrap()
        .build()
        .unwrap();
    assert_eq!(dependency, "afterok:123");
}

#[test]
fn test_push_singleton() {
    let dependency = Dependency::new_and()
        .push_singleton()
        .unwrap()
        .build()
        .unwrap();
    assert_eq!(dependency, "singleton");
}

#[test]
fn test_push_after_error() {
    let dependency = Dependency::new_and();
    let dependency = dependency.push_after("123 ");
    assert!(dependency.is_err());
}

#[test]
fn test_push_after_time_delay_error() {
    let dependency = Dependency::new_and();
    let dependency = dependency.push_after_time_delay("123", "1 ");
    assert!(dependency.is_err());
}

#[test]
fn test_push_after_any_error() {
    let dependency = Dependency::new_and();
    let dependency = dependency.push_after_any("123 ");
    assert!(dependency.is_err());
}

#[test]
fn test_push_after_burst_buffer_error() {
    let dependency = Dependency::new_and();
    let dependency = dependency.push_after_burst_buffer("123 ");
    assert!(dependency.is_err());
}

#[test]
fn test_push_after_corr_error() {
    let dependency = Dependency::new_and();
    let dependency = dependency.push_after_corr("123 ");
    assert!(dependency.is_err());
}

#[test]
fn test_push_after_not_ok_error() {
    let dependency = Dependency::new_and();
    let dependency = dependency.push_after_not_ok("123 ");
    assert!(dependency.is_err());
}

#[test]
fn test_push_after_ok_error() {
    let dependency = Dependency::new_and();
    let dependency = dependency.push_after_ok("123 ");
    assert!(dependency.is_err());
}

#[test]
fn test_push() {
    let dependency = Dependency::new_and()
        .push(DependencyType::After("123".to_string()))
        .unwrap()
        .build()
        .unwrap();
    assert_eq!(dependency, "after:123");

    let dependency = Dependency::new_or()
        .push(DependencyType::After("123".to_string()))
        .unwrap()
        .build()
        .unwrap();
    assert_eq!(dependency, "after:123");
}

#[test]
fn test_push_complex() {
    let dependency = Dependency::new_and()
        .push(DependencyType::After("123".to_string()))
        .unwrap()
        .push(DependencyType::AfterOk("456".to_string()))
        .unwrap()
        .push(DependencyType::Singleton)
        .unwrap()
        .build()
        .unwrap();
    assert_eq!(dependency, "after:123,afterok:456,singleton");
}

#[test]
fn test_build_orders_and_dedups() {
    let dependency = Dependency::Or(vec![
        DependencyType::After("456".to_string()),
        DependencyType::After("123".to_string()),
        DependencyType::After("456".to_string()),
    ]);
    assert_eq!(dependency.build().unwrap(), "after:123?after:456");
}

#[test]
fn test_build_no_clauses_is_error() {
    assert!(Dependency::And(vec![]).build().is_err());
    assert!(Dependency::Or(vec![]).build().is_err());
    assert!(Dependency::And(vec![DependencyType::After("123  ".to_string())])
        .build()
        .is_err());
}
