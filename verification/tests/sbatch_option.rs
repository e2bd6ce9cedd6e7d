use sbatch_rs::{SbatchOption, SbatchOptionError};

#[test]
fn test_option_long_value_forms() {
    let cases = [
        ("--account=account", "--account=account"),
        ("--account account", "--account=account"),
        ("-A account", "--account=account"),
        ("--job-name=job_name", "--job-name=job_name"),
        ("-J job_name", "--job-name=job_name"),
        ("--partition=partition", "--partition=partition"),
        ("-p partition", "--partition=partition"),
        ("--output=out.txt", "--output=out.txt"),
        ("--acctg-freq=acctg_freq", "--acctg-freq=acctg_freq"),
        ("--cluster-constraint=cc", "--cluster-constraint=cc"),
        ("--wrap=wrap", "--wrap=wrap"),
    ];
    for (input, expected) in cases {
        let option = SbatchOption::from_str(input).unwrap();
        assert_eq!(option.render(), expected);
    }
}

#[test]
fn test_option_quoted_values_kept_verbatim() {
    let option = SbatchOption::from_str("--account=\"account\"").unwrap();
    assert_eq!(option.render(), "--account=\"account\"");
    let option = SbatchOption::from_str("-A \"account\"").unwrap();
    assert_eq!(option.render(), "--account=\"account\"");
}

#[test]
fn test_option_flags() {
    let cases = [
        ("--contiguous", "--contiguous"),
        ("--help", "--help"),
        ("-h", "--help"),
        ("--hold", "--hold"),
        ("--ignore-pbs", "--ignore-pbs"),
        ("--no-requeue", "--no-requeue"),
        ("--overcommit", "--overcommit"),
        ("--oversubscribe", "--oversubscribe"),
        ("--parsable", "--parsable"),
        ("--quiet", "--quiet"),
        ("--reboot", "--reboot"),
        ("--requeue", "--requeue"),
        ("--spread-job", "--spread-job"),
        ("--stepmgr", "--stepmgr"),
        ("--test-only", "--test-only"),
        ("--usage", "--usage"),
        ("--use-min-nodes", "--use-min-nodes"),
        ("--verbose", "--verbose"),
        ("--version", "--version"),
        ("--wait", "--wait"),
    ];
    for (input, expected) in cases {
        let option = SbatchOption::from_str(input).unwrap();
        assert_eq!(option.render(), expected);
    }
}

#[test]
fn test_option_numeric_values() {
    let cases = [
        ("--core-spec=1", "--core-spec=1"),
        ("--cores-per-socket=2", "--cores-per-socket=2"),
        ("--cpus-per-gpu=3", "--cpus-per-gpu=3"),
        ("--cpus-per-task=4", "--cpus-per-task=4"),
        ("--delay-boot=5", "--delay-boot=5"),
        ("--min-cpus=6", "--min-cpus=6"),
        ("--ntasks=12345", "--ntasks=12345"),
        ("--ntasks-per-core=7", "--ntasks-per-core=7"),
        ("--ntasks-per-gpu=8", "--ntasks-per-gpu=8"),
        ("--ntasks-per-node=9", "--ntasks-per-node=9"),
        ("--ntasks-per-socket=10", "--ntasks-per-socket=10"),
        ("--thread-spec=11", "--thread-spec=11"),
        ("--threads-per-core=12", "--threads-per-core=12"),
        ("-n 4294967295", "--ntasks=4294967295"),
    ];
    for (input, expected) in cases {
        let option = SbatchOption::from_str(input).unwrap();
        assert_eq!(option.render(), expected);
    }
}

#[test]
fn test_option_numeric_errors() {
    for input in [
        "--core-spec=hi",
        "--cores-per-socket=hi",
        "--cpus-per-gpu=-1",
        "--cpus-per-task=-1",
        "--delay-boot=hi",
        "--min-cpus=-1",
        "--ntasks=hi",
        "--ntasks=4294967296",
    ] {
        assert!(matches!(
            SbatchOption::from_str(input),
            Err(SbatchOptionError::ParseValueError(_))
        ));
    }
    for input in [
        "--ntasks=0",
        "--ntasks-per-core=0",
        "--ntasks-per-gpu=0",
        "--ntasks-per-node=0",
        "--ntasks-per-socket=0",
        "--thread-spec=0",
        "--threads-per-core=0",
    ] {
        assert!(matches!(
            SbatchOption::from_str(input),
            Err(SbatchOptionError::ValueMustBeGreaterThanZero)
        ));
    }
}

#[test]
fn test_option_optional_values() {
    let cases = [
        ("--exclusive=exclusive", "--exclusive=exclusive"),
        ("--exclusive", "--exclusive"),
        ("--get-user-env=guv", "--get-user-env=guv"),
        ("--get-user-env", "--get-user-env"),
        ("--no-kill=nk", "--no-kill=nk"),
        ("--no-kill", "--no-kill"),
        ("--oom-kill-step=oks", "--oom-kill-step=oks"),
        ("--oom-kill-step", "--oom-kill-step"),
        ("--propagate=prop", "--propagate=prop"),
        ("--propagate", "--propagate"),
        ("--resv-ports=rp", "--resv-ports=rp"),
        ("--resv-ports", "--resv-ports"),
    ];
    for (input, expected) in cases {
        let option = SbatchOption::from_str(input).unwrap();
        assert_eq!(option.render(), expected);
    }
}

#[test]
fn test_option_nice_values() {
    assert_eq!(SbatchOption::from_str("--nice=1").unwrap().render(), "--nice=1");
    assert_eq!(SbatchOption::from_str("--nice=-5").unwrap().render(), "--nice=-5");
    assert_eq!(SbatchOption::from_str("--nice").unwrap().render(), "--nice");
    assert!(matches!(
        SbatchOption::from_str("--nice=abc"),
        Err(SbatchOptionError::ParseValueError(_))
    ));
}

#[test]
fn test_option_unknown_arguments() {
    for input in ["--unknown=account", "-u hi", "-u", "invalid", "invalid=", "--i=value"] {
        assert!(matches!(
            SbatchOption::from_str(input),
            Err(SbatchOptionError::UnknownArgument(_))
        ));
    }
    assert!(matches!(
        SbatchOption::from_str("--contiguous=1"),
        Err(SbatchOptionError::UnknownArgument(_))
    ));
}

#[test]
fn test_option_value_rejects_newline() {
    assert!(matches!(
        SbatchOption::from_str("--job-name=a\nb"),
        Err(SbatchOptionError::UnknownArgument(_))
    ));
    assert!(matches!(
        SbatchOption::from_str("-o a\nb"),
        Err(SbatchOptionError::UnknownArgument(_))
    ));
    assert_eq!(
        SbatchOption::from_str("--job-name\nvalue").unwrap().render(),
        "--job-name=value"
    );
}

#[test]
fn test_option_dependency_error() {
    assert!(matches!(
        SbatchOption::from_str("--dependency=bogus:1"),
        Err(SbatchOptionError::ParseDependencyError(_))
    ));
}

#[test]
fn test_option_is_same_variant() {
    let left = SbatchOption::JobName("a".to_string());
    let right = SbatchOption::JobName("b".to_string());
    let other = SbatchOption::Partition("a".to_string());
    assert!(left.is_same_variant(&right));
    assert!(!left.is_same_variant(&other));
}

#[test]
fn test_option_validate() {
    assert!(SbatchOption::Account("account".to_string()).validate().is_ok());
    assert_eq!(
        SbatchOption::Account("".to_string()).validate(),
        Err(SbatchOptionError::EmptyString)
    );
    assert_eq!(
        SbatchOption::Account(" account ".to_string()).validate(),
        Err(SbatchOptionError::LeadingOrTrailingSpaces)
    );
    assert!(SbatchOption::Wrap("".to_string()).validate().is_ok());
    assert!(SbatchOption::Contiguous.validate().is_ok());
    assert!(SbatchOption::NTasks(3).validate().is_ok());
}

#[test]
fn test_option_short_forms() {
    let cases = [
        ("-a array", "--array=array"),
        ("-b begin", "--begin=begin"),
        ("-D chdir", "--chdir=chdir"),
        ("-M clusters", "--clusters=clusters"),
        ("-C constraint", "--constraint=constraint"),
        ("-m dist", "--distribution=dist"),
        ("-e err", "--error=err"),
        ("-x excl", "--exclude=excl"),
        ("-B info", "--extra-node-info=info"),
        ("-G gpus", "--gpus=gpus"),
        ("-i in", "--input=in"),
        ("-L lic", "--licenses=lic"),
        ("-w nodes", "--nodelist=nodes"),
        ("-N nodes", "--nodes=nodes"),
        ("-o out", "--output=out"),
        ("-q qos", "--qos=qos"),
        ("-t time", "--time=time"),
        ("-S 1", "--core-spec=1"),
        ("-c 2", "--cpus-per-task=2"),
    ];
    for (input, expected) in cases {
        let option = SbatchOption::from_str(input).unwrap();
        assert_eq!(option.render(), expected);
    }
}
