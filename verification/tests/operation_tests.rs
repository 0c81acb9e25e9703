use tiny_orm::attr::Parser;
use tiny_orm::types::Operation;

#[test]
fn test_get_them_all_by_default() {
    let mut result = Parser::get_operations(None, None, None, Operation::all()).unwrap();
    result.sort();
    assert_eq!(
        result,
        vec![
            Operation::Get,
            Operation::List,
            Operation::Create,
            Operation::Update,
            Operation::Delete
        ]
    );
}

#[test]
fn test_get_default_by_default() {
    let mut result =
        Parser::get_operations(None, None, None, vec![Operation::Create, Operation::Delete])
            .unwrap();
    result.sort();
    assert_eq!(result, vec![Operation::Create, Operation::Delete]);
}

#[test]
fn test_only_and_exclude() {
    let only = Some(vec![Operation::Create]);
    let exclude = Some(vec![Operation::Delete]);
    let result = Parser::get_operations(only, exclude, None, Operation::all());
    assert!(result.is_err());
}

#[test]
fn test_only_and_add() {
    let only = Some(vec![Operation::Create]);
    let add = Some(vec![Operation::Delete]);
    let result = Parser::get_operations(only, None, add, Operation::all());
    assert!(result.is_err());
}

#[test]
fn test_only_one_value() {
    let only = vec![Operation::Create];
    let result = Parser::get_operations(Some(only.clone()), None, None, Operation::all());
    assert_eq!(result.unwrap(), only);
}

#[test]
fn test_only_multiple_values() {
    let only = vec![Operation::Update, Operation::Delete];
    let result = Parser::get_operations(Some(only.clone()), None, None, Operation::all());
    assert_eq!(result.unwrap(), only);
}

#[test]
fn test_exclude_one_value() {
    let exclude = Some(vec![Operation::Create]);
    let mut result = Parser::get_operations(None, exclude, None, Operation::all()).unwrap();
    result.sort();
    assert_eq!(
        result,
        vec![
            Operation::Get,
            Operation::List,
            Operation::Update,
            Operation::Delete
        ]
    );
}

#[test]
fn test_exclude_multiple_values() {
    let exclude = Some(vec![Operation::Update, Operation::Delete]);
    let mut result = Parser::get_operations(None, exclude, None, Operation::all()).unwrap();
    result.sort();
    assert_eq!(
        result,
        vec![Operation::Get, Operation::List, Operation::Create]
    );
}

#[test]
fn test_exclude_and_add_values() {
    let default = vec![Operation::Create, Operation::Update];
    let exclude = Some(vec![Operation::Create]);
    let add = Some(vec![Operation::Delete, Operation::Update]);
    let mut result = Parser::get_operations(None, exclude, add, default).unwrap();
    result.sort();
    assert_eq!(result, vec![Operation::Update, Operation::Delete]);
}

#[test]
fn test_exclude_and_add_same_values() {
    let default = vec![Operation::Create, Operation::Update];
    let exclude = Some(vec![Operation::Create]);
    let add = Some(vec![Operation::Create]);
    let mut result = Parser::get_operations(None, exclude, add, default).unwrap();
    result.sort();
    assert_eq!(result, vec![Operation::Update]);
}

#[test]
fn test_all_and_add_no_duplicate() {
    let default = Operation::all();
    let add = Some(vec![Operation::Create]);
    let mut result = Parser::get_operations(None, None, add, default).unwrap();
    result.sort();
    assert_eq!(result, Operation::all());
}

#[test]
fn merged_operations_come_once_in_declared_order() {
    let default = vec![Operation::Delete, Operation::Get, Operation::Delete];
    let add = Some(vec![Operation::Update, Operation::Get]);
    let exclude = Some(vec![Operation::List]);
    let result = Parser::get_operations(None, exclude, add, default).unwrap();
    assert_eq!(
        result,
        vec![Operation::Get, Operation::Update, Operation::Delete]
    );
}

#[test]
fn conflicting_operations_name_the_conflict() {
    let r = Parser::get_operations(
        Some(vec![Operation::Get]),
        Some(vec![Operation::List]),
        Some(vec![Operation::Create]),
        Operation::all(),
    );
    assert_eq!(r, Err("Only and Exclude are specified which is not allowed"));
    let r = Parser::get_operations(
        Some(vec![Operation::Get]),
        None,
        Some(vec![Operation::Create]),
        Operation::all(),
    );
    assert_eq!(r, Err("Only and Add are specified which is not allowed"));
}

#[test]
fn default_is_kept_as_given_when_nothing_is_asked() {
    let default = vec![Operation::Delete, Operation::Delete];
    let r = Parser::get_operations(None, None, None, default.clone()).unwrap();
    assert_eq!(r, default);
}

#[test]
fn operation_names() {
    assert_eq!(Operation::from_name("get"), Some(Operation::Get));
    assert_eq!(Operation::from_name("list"), Some(Operation::List));
    assert_eq!(Operation::from_name("create"), Some(Operation::Create));
    assert_eq!(Operation::from_name("update"), Some(Operation::Update));
    assert_eq!(Operation::from_name("delete"), Some(Operation::Delete));
    assert_eq!(Operation::from_name("Get"), None);
    assert_eq!(Operation::from_name(" get"), None);
}
