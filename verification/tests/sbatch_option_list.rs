use sbatch_rs::sbatch_option_list::SbatchOptionList;
use sbatch_rs::SbatchOption;

#[test]
fn test_append() {
    // Create a new SbatchOptionList
    let mut sbatch_options = SbatchOptionList::new();

    // Create a new SbatchOption using a string
    let sbatch_option = SbatchOption::from_str("--partition=test");
    if sbatch_option.is_err() {
        panic!("Failed to create SbatchOption: {:?}", sbatch_option.err());
    }
    let sbatch_option = sbatch_option.unwrap();

    // Try to append the SbatchOption to the SbatchOptionList
    let append_result = sbatch_options.append(sbatch_option.clone());
    if append_result.is_err() {
        panic!("Failed to append SbatchOption: {:?}", append_result.err());
    }

    // Check that the SbatchOptionList contains the SbatchOption
    assert_eq!(sbatch_options.len(), 1);

    // Try to add the same SbatchOption again which should fail
    let append_result = sbatch_options.append(sbatch_option);
    assert!(append_result.is_err());
}

#[test]
fn test_overwrite() {
    let mut sbatch_options = SbatchOptionList::new();
    let sbatch_option = SbatchOption::from_str("--partition=test").unwrap();
    sbatch_options.append(sbatch_option.clone()).unwrap();
    assert_eq!(sbatch_options.len(), 1);

    let sbatch_option = SbatchOption::from_str("--partition=test").unwrap();
    sbatch_options.overwrite(sbatch_option.clone());
    assert_eq!(sbatch_options.len(), 1);
}

#[test]
fn test_contains() {
    let mut sbatch_options = SbatchOptionList::new();
    let sbatch_option = SbatchOption::from_str("--partition=test").unwrap();
    sbatch_options.append(sbatch_option.clone()).unwrap();
    assert_eq!(sbatch_options.contains(&sbatch_option), true);
}

#[test]
fn test_discard() {
    let mut sbatch_options = SbatchOptionList::new();
    let sbatch_option = SbatchOption::from_str("--partition=test").unwrap();
    sbatch_options.append(sbatch_option.clone()).unwrap();
    assert_eq!(sbatch_options.len(), 1);

    sbatch_options.discard(&sbatch_option);
    assert_eq!(sbatch_options.len(), 0);
}

#[test]
fn test_get_options() {
    let mut sbatch_options = SbatchOptionList::new();
    let sbatch_option = SbatchOption::from_str("--partition=test").unwrap();
    sbatch_options.append(sbatch_option.clone()).unwrap();
    let options = sbatch_options.get_options();
    assert_eq!(options.len(), 1);
    assert_eq!(options[0], "--partition=test");
}

#[test]
fn test_to_string() {
    let mut sbatch_options = SbatchOptionList::new();
    let sbatch_option = SbatchOption::from_str("--partition=test").unwrap();
    sbatch_options.append(sbatch_option.clone()).unwrap();
    let options = sbatch_options.render();
    assert_eq!(options, "--partition=test");
}

#[test]
fn test_default() {
    let sbatch_options = SbatchOptionList::default();
    assert_eq!(sbatch_options.len(), 0);
}

#[test]
fn test_overwrite_replaces_value() {
    let mut sbatch_options = SbatchOptionList::new();
    sbatch_options
        .append(SbatchOption::from_str("--partition=old").unwrap())
        .unwrap();
    sbatch_options.overwrite(SbatchOption::from_str("--partition=new").unwrap());
    assert_eq!(sbatch_options.render(), "--partition=new");
}

#[test]
fn test_get_options_sorted() {
    let mut sbatch_options = SbatchOptionList::new();
    sbatch_options
        .append(SbatchOption::from_str("--partition=general").unwrap())
        .unwrap();
    sbatch_options
        .append(SbatchOption::from_str("--job-name=test").unwrap())
        .unwrap();
    let options = sbatch_options.get_options();
    assert_eq!(options, vec!["--job-name=test", "--partition=general"]);
}
