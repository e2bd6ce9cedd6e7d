use sbatch_rs::Sbatch;
use sbatch_rs::SbatchOption;

#[test]
fn test_new_and_default() {
    let sbatch = Sbatch::new();
    assert!(sbatch.build().is_err());

    let sbatch = Sbatch::default();
    assert!(sbatch.build().is_err());
}

#[test]
fn test_build_add_option() {
    let sbatch = Sbatch::new()
        .add_option(SbatchOption::JobName("test".to_string()))
        .unwrap()
        .add_option(SbatchOption::Output("test.out".to_string()))
        .unwrap()
        .add_option(SbatchOption::Error("test.err".to_string()))
        .unwrap()
        .build();

    assert!(sbatch.is_ok());
}

#[test]
fn test_build_set_script() {
    let sbatch = Sbatch::new()
        .set_script("echo test".to_string())
        .unwrap()
        .build();

    assert!(sbatch.is_ok());
}

#[test]
fn test_build_error_empty() {
    let sbatch = Sbatch::new().build();
    assert!(sbatch.is_err());
}

#[test]
fn test_set_script() {
    // Verify that it builds properly
    let sbatch = Sbatch::new()
        .set_script("test.sh".to_string())
        .unwrap()
        .build();
    assert!(sbatch.is_ok());
    assert_eq!(sbatch.unwrap(), "sbatch test.sh");
}

#[test]
fn test_set_script_bad_formatting() {
    // Verify that it builds properly
    let sbatch = Sbatch::new()
        .set_script(" test.sh ".to_string())
        .unwrap()
        .build();
    assert!(sbatch.is_ok());
    assert_eq!(sbatch.unwrap(), "sbatch test.sh");
}

#[test]
fn test_add_option() {
    // Verify that it builds properly
    let sbatch = Sbatch::new()
        .add_option(SbatchOption::JobName("test".to_string()))
        .unwrap()
        .add_option(SbatchOption::Output("test.out".to_string()))
        .unwrap()
        .add_option(SbatchOption::Error("test.err".to_string()))
        .unwrap()
        .set_script("test.sh".to_string())
        .unwrap()
        .build();
    assert!(sbatch.is_ok());

    // Extract the bash string
    assert_eq!(
        sbatch.unwrap(),
        "sbatch --error=test.err --job-name=test --output=test.out test.sh"
    );
}

#[test]
fn test_set_script_rejects_blank() {
    for script in ["", " ", "  ", "   "] {
        let sbatch = Sbatch::new();
        let set_result = sbatch.set_script(script.to_string());
        assert!(set_result.is_err());
    }
}

#[test]
fn test_add_option_rejects_bad_value() {
    let sbatch = Sbatch::new();
    assert!(sbatch.add_option(SbatchOption::Account("".to_string())).is_err());
    let sbatch = Sbatch::new();
    assert!(sbatch.add_option(SbatchOption::Account(" account ".to_string())).is_err());
}

#[test]
fn test_add_option_replaces_same_flag() {
    let sbatch = Sbatch::new()
        .add_option(SbatchOption::JobName("first".to_string()))
        .unwrap()
        .add_option(SbatchOption::JobName("second".to_string()))
        .unwrap()
        .build()
        .unwrap();
    assert_eq!(sbatch, "sbatch --job-name=second");
}

#[test]
fn test_add_option_same_flag_different_arity() {
    let sbatch = Sbatch::new()
        .add_option(SbatchOption::Exclusive(Some("user".to_string())))
        .unwrap()
        .add_option(SbatchOption::Exclusive(None))
        .unwrap()
        .build()
        .unwrap();
    assert_eq!(sbatch, "sbatch --exclusive");
}

#[test]
fn test_add_option_identical_twice() {
    let sbatch = Sbatch::new()
        .add_option(SbatchOption::JobName("test".to_string()))
        .unwrap()
        .add_option(SbatchOption::JobName("test".to_string()))
        .unwrap()
        .build()
        .unwrap();
    assert_eq!(sbatch, "sbatch --job-name=test");
}

#[test]
fn test_build_full_scenario() {
    let sbatch = Sbatch::new()
        .add_option(SbatchOption::JobName("test".to_string()))
        .unwrap()
        .add_option(SbatchOption::Output("test.out".to_string()))
        .unwrap()
        .set_script("test.sh".to_string())
        .unwrap()
        .build()
        .unwrap();
    assert_eq!(sbatch, "sbatch --job-name=test --output=test.out test.sh");
}
