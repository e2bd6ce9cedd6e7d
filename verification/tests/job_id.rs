use std::num::NonZeroU32;

use sbatch_rs::job_id::JobId;
use sbatch_rs::variable::Variable;

#[test]
fn test_from_number() {
    let number = NonZeroU32::try_from(1).unwrap();
    let job_id_type = JobId::Number(number.get());
    assert_eq!(job_id_type, JobId::Number(1));
}

#[test]
fn test_from_variable() {
    let variable = Variable::new("variable").unwrap();
    let job_id_type: JobId = variable.clone().into();
    assert_eq!(job_id_type, JobId::Variable(variable));
}

#[test]
fn test_job_id_from_str_number() {
    let result = JobId::from_str("1").unwrap();
    assert_eq!(result, JobId::Number(1));
    let quoted = JobId::from_str("\"1\"").unwrap();
    assert_eq!(quoted, JobId::Number(1));
    let single = JobId::from_str("'1'").unwrap();
    assert_eq!(single, JobId::Number(1));
}

#[test]
fn test_job_id_from_str_variable() {
    let expected = JobId::Variable(Variable::new("variable").unwrap());
    assert_eq!(JobId::from_str("$variable").unwrap(), expected);
    assert_eq!(JobId::from_str("${variable}").unwrap(), expected);
    assert_eq!(JobId::from_str("\"$variable\"").unwrap(), expected);
}

#[test]
fn test_job_id_from_str_error() {
    assert!(JobId::from_str("invalid").is_err());
    assert!(JobId::from_str("").is_err());
    assert!(JobId::from_str("0").is_err());
}

#[test]
fn test_job_id_render() {
    assert_eq!(JobId::from_str("123").unwrap().render(), "123");
    assert_eq!(JobId::from_str("$step1").unwrap().render(), "${step1}");
}

#[test]
fn test_job_id_number_bounds() {
    assert_eq!(JobId::from_str("4294967295").unwrap(), JobId::Number(u32::MAX));
    assert!(JobId::from_str("4294967296").is_err());
    assert_eq!(JobId::from_str("007").unwrap(), JobId::Number(7));
}
