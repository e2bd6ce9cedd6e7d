use sbatch_rs::name::{reserved_names, Name, NameError};
use sbatch_rs::variable::{Variable, VariableError};

#[test]
fn test_name_reserved_keywords() {
    for keyword in reserved_names() {
        let name = Name::new(keyword);
        assert!(name.is_err());
    }
}

#[test]
fn test_variable_display() {
    let variable = Variable::new("name").unwrap();
    assert_eq!(variable.render(), "${name}");
}

#[test]
fn test_name_boundaries() {
    assert_eq!(Name::new(""), Err(NameError::EmptyName));
    assert_eq!(
        Name::new("1abc"),
        Err(NameError::StartsWithNumber("1abc".to_string()))
    );
    assert_eq!(
        Name::new("ab!"),
        Err(NameError::InvalidCharacters("ab!".to_string()))
    );
    assert_eq!(
        Name::new("alias"),
        Err(NameError::ReservedName("alias".to_string()))
    );
    let ok = Name::new("ab_1").unwrap();
    assert_eq!(ok.render(), "ab_1");
}

#[test]
fn test_variable_parse_shapes() {
    assert_eq!(Variable::from_str("${name}").unwrap().render(), "${name}");
    assert_eq!(Variable::from_str("$name").unwrap().render(), "${name}");
    assert_eq!(Variable::from_str("\"$name_1\"").unwrap().render(), "${name_1}");
    assert!(Variable::from_str("name").is_err());
    assert!(Variable::from_str("$name$").is_err());
    assert!(Variable::from_str("$$name1").is_err());
    assert!(Variable::from_str("$name/blah").is_err());
}

#[test]
fn test_variable_error_kinds() {
    match Variable::from_str("name") {
        Err(VariableError::ParseError(t)) => assert_eq!(t, "name"),
        other => panic!("expected a parse error, got {:?}", other),
    }
    match Variable::from_str("$1name") {
        Err(VariableError::InvalidName(t)) => assert_eq!(t, "1name"),
        other => panic!("expected an invalid-name error, got {:?}", other),
    }
}
