use shl_sqlx::config::ConfigError;
use shl_sqlx::exec::{bind_order, found, ExecError, Key};

#[test]
fn a_key_binds_its_components_in_order() {
    assert_eq!(Key::Single(7).into_binds(), vec![7]);
    assert_eq!(Key::Pair("group", "user").into_binds(), vec!["group", "user"]);
    assert_eq!(Key::Pair(2, 1).into_binds(), vec![2, 1]);
    assert_eq!(Key::Single('x').arity(), 1);
    assert_eq!(Key::Pair('x', 'y').arity(), 2);
}

#[test]
fn values_are_bound_in_plan_order() {
    let values = vec!["id", "name", "status", "created"];
    let bound = bind_order(&vec![1, 2, 0], &values).unwrap();
    assert_eq!(bound, vec![&"name", &"status", &"id"]);
    let twice = bind_order(&vec![3, 3], &values).unwrap();
    assert_eq!(twice, vec![&"created", &"created"]);
    let none: Vec<&&str> = bind_order(&vec![], &values).unwrap();
    assert!(none.is_empty());
}

#[test]
fn a_plan_beyond_the_record_binds_nothing() {
    let values = vec![10, 20];
    assert_eq!(bind_order(&vec![0, 2], &values), None);
    assert_eq!(bind_order(&vec![2], &values), None);
    let empty: Vec<i32> = vec![];
    assert_eq!(bind_order(&vec![0], &empty), None);
}

#[test]
fn a_lookup_without_a_row_is_not_found() {
    let missing: Result<u8, ExecError<String>> = found(None);
    assert_eq!(missing, Err(ExecError::NotFound));
    let present: Result<u8, ExecError<String>> = found(Some(5));
    assert_eq!(present, Ok(5));
}

#[test]
fn each_error_has_its_message() {
    assert_eq!(ConfigError::EmptyPrimaryKey.message(), "pk(...) cannot be empty");
    assert_eq!(ConfigError::UnsupportedKeyArity.message(), "only 1-2 PK columns are supported");
    assert_eq!(
        ConfigError::PrimaryKeyFieldNotFound { requested_name: "tenant".to_string() }.message(),
        "pk field 'tenant' not found"
    );
    assert_eq!(
        ConfigError::NoUpdatableColumns.message(),
        "no fields to UPDATE (all are in skip_update)"
    );
    assert!(ConfigError::UnknownDirective.message().starts_with("unknown directive"));
}
