use shl_sqlx::catalog::{FieldDecl, KeyType, RecordType};
use shl_sqlx::config::{ConfigError, Directive, DirectiveValue};
use shl_sqlx::derive::{compile, derive_insertable, derive_table, derive_updatable};

fn text(key: &str, value: &str) -> Directive {
    Directive { key: key.to_string(), value: DirectiveValue::Text(value.to_string()) }
}

fn list(key: &str, values: &[&str]) -> Directive {
    Directive {
        key: key.to_string(),
        value: DirectiveValue::List(values.iter().map(|v| v.to_string()).collect()),
    }
}

fn field(name: &str, ty: &str) -> FieldDecl {
    FieldDecl { name: name.to_string(), ty: ty.to_string(), attrs: vec![] }
}

fn renamed(name: &str, ty: &str, column: &str) -> FieldDecl {
    FieldDecl { name: name.to_string(), ty: ty.to_string(), attrs: vec![text("rename", column)] }
}

fn record(name: &str, attrs: Vec<Directive>, fields: Vec<FieldDecl>) -> RecordType {
    RecordType { name: name.to_string(), attrs, fields }
}

fn order() -> RecordType {
    record(
        "Order",
        vec![],
        vec![
            field("id", "Uuid"),
            field("customer_name", "String"),
            field("status", "String"),
            field("created_at", "DateTime<Utc>"),
        ],
    )
}

fn membership(pk: &[&str]) -> RecordType {
    record(
        "Membership",
        vec![list("pk", pk)],
        vec![field("group_id", "i64"), field("user_id", "Uuid"), field("joined_at", "DateTime<Utc>")],
    )
}

#[test]
fn order_compiles_to_the_documented_statements() {
    let set = compile(&order()).unwrap();
    assert_eq!(set.table.qual_table, "\"public\".\"orders\"");
    assert_eq!(set.table.cols, vec!["\"id\"", "\"customer_name\"", "\"status\"", "\"created_at\""]);
    assert_eq!(set.table.pk_cols, vec!["\"id\""]);
    assert_eq!(set.table.id, KeyType::Single("Uuid".to_string()));
    assert_eq!(
        set.table.sql_select_by_pk,
        "SELECT \"id\", \"customer_name\", \"status\", \"created_at\" FROM \"public\".\"orders\" WHERE \"id\" = $1"
    );
    assert_eq!(set.table.sql_delete_by_pk, "DELETE FROM \"public\".\"orders\" WHERE \"id\" = $1");
    assert_eq!(set.table.pk_fields, vec![0]);
    assert_eq!(
        set.insert.sql_insert,
        "INSERT INTO \"public\".\"orders\" (\"id\", \"customer_name\", \"status\", \"created_at\") VALUES ($1, $2, $3, $4)"
    );
    assert_eq!(set.insert.insert_fields, vec![0, 1, 2, 3]);
    assert_eq!(
        set.update.sql_update,
        "UPDATE \"public\".\"orders\" SET \"customer_name\" = $1, \"status\" = $2 WHERE \"id\" = $3"
    );
    assert_eq!(set.update.bind_fields, vec![1, 2, 0]);
}

#[test]
fn membership_compiles_with_a_composite_key() {
    let set = compile(&membership(&["group_id", "user_id"])).unwrap();
    assert_eq!(
        set.insert.sql_insert,
        "INSERT INTO \"public\".\"memberships\" (\"group_id\", \"user_id\", \"joined_at\") VALUES ($1, $2, $3)"
    );
    assert_eq!(
        set.table.sql_delete_by_pk,
        "DELETE FROM \"public\".\"memberships\" WHERE \"group_id\" = $1 AND \"user_id\" = $2"
    );
    assert_eq!(
        set.table.sql_select_by_pk,
        "SELECT \"group_id\", \"user_id\", \"joined_at\" FROM \"public\".\"memberships\" WHERE \"group_id\" = $1 AND \"user_id\" = $2"
    );
    assert_eq!(set.table.id, KeyType::Pair("i64".to_string(), "Uuid".to_string()));
    assert_eq!(set.table.pk_fields, vec![0, 1]);
    assert_eq!(
        set.update.sql_update,
        "UPDATE \"public\".\"memberships\" SET \"group_id\" = $1, \"user_id\" = $2, \"joined_at\" = $3 WHERE \"group_id\" = $4 AND \"user_id\" = $5"
    );
    assert_eq!(set.update.bind_fields, vec![0, 1, 2, 0, 1]);
}

#[test]
fn single_key_binds_one_placeholder() {
    let input = record(
        "Invoice",
        vec![text("pk", "number")],
        vec![field("total", "i64"), field("number", "i32")],
    );
    let table = derive_table(&input).unwrap();
    assert_eq!(
        table.sql_select_by_pk,
        "SELECT \"total\", \"number\" FROM \"public\".\"invoices\" WHERE \"number\" = $1"
    );
    assert_eq!(table.sql_delete_by_pk, "DELETE FROM \"public\".\"invoices\" WHERE \"number\" = $1");
    assert_eq!(table.sql_select_by_pk.matches('$').count(), 1);
    assert_eq!(table.sql_delete_by_pk.matches('$').count(), 1);
    assert_eq!(table.pk_fields, vec![1]);
    assert_eq!(table.id, KeyType::Single("i32".to_string()));
}

#[test]
fn swapping_the_key_order_swaps_the_bind_order() {
    let forward = derive_table(&membership(&["group_id", "user_id"])).unwrap();
    let backward = derive_table(&membership(&["user_id", "group_id"])).unwrap();
    assert_eq!(forward.pk_fields, vec![0, 1]);
    assert_eq!(backward.pk_fields, vec![1, 0]);
    assert_eq!(backward.id, KeyType::Pair("Uuid".to_string(), "i64".to_string()));
    assert_eq!(backward.pk_cols, vec!["\"user_id\"", "\"group_id\""]);
    assert_eq!(
        backward.sql_delete_by_pk,
        "DELETE FROM \"public\".\"memberships\" WHERE \"user_id\" = $1 AND \"group_id\" = $2"
    );
    assert_eq!(forward.cols, backward.cols);
}

#[test]
fn insert_leaves_out_the_excluded_columns() {
    let mut input = order();
    input.attrs.push(list("insert_skip", &["id", "created_at"]));
    let insert = derive_insertable(&input).unwrap();
    assert_eq!(insert.insert_cols, vec!["\"customer_name\"", "\"status\""]);
    assert_eq!(insert.insert_fields, vec![1, 2]);
    assert_eq!(
        insert.sql_insert,
        "INSERT INTO \"public\".\"orders\" (\"customer_name\", \"status\") VALUES ($1, $2)"
    );
    assert_eq!(insert.insert_cols.len(), input.fields.len() - 2);
}

#[test]
fn insert_exclusion_goes_by_column_name_only() {
    let input = record(
        "Order",
        vec![list("insert_skip", &["note", "seq"])],
        vec![field("id", "i64"), renamed("note", "String", "remark"), renamed("serial", "i64", "seq")],
    );
    let insert = derive_insertable(&input).unwrap();
    assert_eq!(insert.insert_cols, vec!["\"id\"", "\"remark\""]);
    assert_eq!(insert.insert_fields, vec![0, 1]);
}

#[test]
fn insert_of_nothing_uses_default_values() {
    let input = record(
        "Tick",
        vec![list("insert_skip", &["id", "created_at"])],
        vec![field("id", "i64"), field("created_at", "DateTime<Utc>")],
    );
    let insert = derive_insertable(&input).unwrap();
    assert_eq!(insert.sql_insert, "INSERT INTO \"public\".\"ticks\" DEFAULT VALUES");
    assert!(insert.insert_cols.is_empty());
    assert!(insert.insert_fields.is_empty());
}

#[test]
fn update_numbers_the_key_after_the_set_clause() {
    let input = record(
        "Membership",
        vec![list("pk", &["group_id", "user_id"]), list("skip_update", &["group_id", "user_id"])],
        vec![
            field("group_id", "i64"),
            field("role", "String"),
            field("user_id", "Uuid"),
            field("joined_at", "DateTime<Utc>"),
        ],
    );
    let update = derive_updatable(&input).unwrap();
    assert_eq!(
        update.sql_update,
        "UPDATE \"public\".\"memberships\" SET \"role\" = $1, \"joined_at\" = $2 WHERE \"group_id\" = $3 AND \"user_id\" = $4"
    );
    assert_eq!(update.bind_fields, vec![1, 3, 0, 2]);
}

#[test]
fn update_exclusion_goes_by_field_name_or_column_name() {
    let input = record(
        "Order",
        vec![list("skip_update", &["id", "note", "seq"])],
        vec![
            field("id", "i64"),
            renamed("note", "String", "remark"),
            renamed("serial", "i64", "seq"),
            field("status", "String"),
        ],
    );
    let update = derive_updatable(&input).unwrap();
    assert_eq!(update.sql_update, "UPDATE \"public\".\"orders\" SET \"status\" = $1 WHERE \"id\" = $2");
    assert_eq!(update.bind_fields, vec![3, 0]);
}

#[test]
fn numbering_goes_past_nine_in_decimal() {
    let names = ["a", "b", "c", "d", "e", "f", "g", "h", "i", "j", "k"];
    let mut fields = vec![field("id", "i64")];
    for n in names {
        fields.push(field(n, "i64"));
    }
    let set = compile(&record("Wide", vec![], fields)).unwrap();
    assert!(set.insert.sql_insert.ends_with("VALUES ($1, $2, $3, $4, $5, $6, $7, $8, $9, $10, $11, $12)"));
    assert!(set.update.sql_update.ends_with("\"j\" = $10, \"k\" = $11 WHERE \"id\" = $12"));
}

#[test]
fn excluding_every_field_from_update_is_rejected() {
    let mut input = order();
    input.attrs.push(list("skip_update", &["id", "customer_name", "status", "created_at"]));
    assert_eq!(derive_updatable(&input), Err(ConfigError::NoUpdatableColumns));
    assert_eq!(compile(&input), Err(ConfigError::NoUpdatableColumns));
    assert!(derive_table(&input).is_ok());
    assert!(derive_insertable(&input).is_ok());
}

#[test]
fn a_key_column_without_a_field_is_rejected_by_name() {
    let input = record(
        "Order",
        vec![list("pk", &["id", "tenant"])],
        vec![field("id", "i64"), field("status", "String")],
    );
    let missing = ConfigError::PrimaryKeyFieldNotFound { requested_name: "tenant".to_string() };
    assert_eq!(compile(&input), Err(missing.clone()));
    assert_eq!(derive_table(&input), Err(missing.clone()));
    assert_eq!(derive_insertable(&input), Err(missing.clone()));
    assert_eq!(derive_updatable(&input), Err(missing));
    let no_default_key = record("Order", vec![], vec![field("status", "String")]);
    assert_eq!(
        compile(&no_default_key),
        Err(ConfigError::PrimaryKeyFieldNotFound { requested_name: "id".to_string() })
    );
}

#[test]
fn the_first_missing_key_column_is_reported() {
    let input = record("Order", vec![list("pk", &["a", "b"])], vec![field("id", "i64")]);
    assert_eq!(
        compile(&input),
        Err(ConfigError::PrimaryKeyFieldNotFound { requested_name: "a".to_string() })
    );
}

#[test]
fn compiling_twice_gives_the_same_set() {
    let input = membership(&["user_id", "group_id"]);
    let first = compile(&input).unwrap();
    let second = compile(&input).unwrap();
    assert_eq!(first, second);
    assert_eq!(first.table.sql_select_by_pk.as_bytes(), second.table.sql_select_by_pk.as_bytes());
    assert_eq!(first.update.bind_fields, second.update.bind_fields);
}

#[test]
fn an_unknown_directive_is_rejected() {
    let mut input = order();
    input.attrs.push(text("engine", "innodb"));
    assert_eq!(compile(&input), Err(ConfigError::UnknownDirective));
    let mut flagged = order();
    flagged.attrs.push(Directive { key: "schema".to_string(), value: DirectiveValue::Flag });
    assert_eq!(compile(&flagged), Err(ConfigError::UnknownDirective));
    let mut misshapen = order();
    misshapen.attrs.push(text("insert_skip", "id"));
    assert_eq!(compile(&misshapen), Err(ConfigError::UnknownDirective));
    let mut listed = order();
    listed.attrs.push(list("table", &["orders"]));
    assert_eq!(compile(&listed), Err(ConfigError::UnknownDirective));
}

#[test]
fn an_unknown_field_directive_is_rejected() {
    let mut input = order();
    input.fields[1].attrs.push(text("column", "name"));
    assert_eq!(compile(&input), Err(ConfigError::UnknownDirective));
    let mut listed = order();
    listed.fields[1].attrs.push(list("rename", &["name"]));
    assert_eq!(compile(&listed), Err(ConfigError::UnknownDirective));
}

#[test]
fn an_empty_key_list_is_rejected() {
    let mut input = order();
    input.attrs.push(list("pk", &[]));
    assert_eq!(compile(&input), Err(ConfigError::EmptyPrimaryKey));
    assert_eq!(derive_insertable(&input), Err(ConfigError::EmptyPrimaryKey));
}

#[test]
fn a_key_of_three_columns_is_rejected() {
    let input = record(
        "Triple",
        vec![list("pk", &["a", "b", "c"])],
        vec![field("a", "i64"), field("b", "i64"), field("c", "i64"), field("d", "i64")],
    );
    assert_eq!(compile(&input), Err(ConfigError::UnsupportedKeyArity));
    assert_eq!(derive_table(&input), Err(ConfigError::UnsupportedKeyArity));
}

#[test]
fn the_first_offending_directive_decides() {
    let mut input = order();
    input.attrs.push(list("pk", &[]));
    input.attrs.push(text("engine", "innodb"));
    assert_eq!(compile(&input), Err(ConfigError::EmptyPrimaryKey));
    let mut other = order();
    other.attrs.push(text("engine", "innodb"));
    other.attrs.push(list("pk", &[]));
    assert_eq!(compile(&other), Err(ConfigError::UnknownDirective));
}

#[test]
fn schema_and_table_can_be_overridden() {
    let mut input = order();
    input.attrs.push(text("schema", "sales"));
    input.attrs.push(text("table", "order_log"));
    let set = compile(&input).unwrap();
    assert_eq!(set.table.qual_table, "\"sales\".\"order_log\"");
    assert_eq!(set.table.sql_delete_by_pk, "DELETE FROM \"sales\".\"order_log\" WHERE \"id\" = $1");
}

#[test]
fn a_later_directive_replaces_an_earlier_one() {
    let mut input = order();
    input.attrs.push(text("table", "first"));
    input.attrs.push(text("table", "second"));
    input.attrs.push(list("pk", &["a", "b", "c"]));
    input.attrs.push(text("pk", "status"));
    let table = derive_table(&input).unwrap();
    assert_eq!(table.qual_table, "\"public\".\"second\"");
    assert_eq!(table.pk_fields, vec![2]);
}

#[test]
fn a_renamed_field_is_written_under_its_column_name() {
    let input = record(
        "Order",
        vec![text("pk", "order_id")],
        vec![renamed("id", "i64", "order_id"), field("status", "String")],
    );
    let set = compile(&input).unwrap();
    assert_eq!(set.table.cols, vec!["\"order_id\"", "\"status\""]);
    assert_eq!(
        set.table.sql_select_by_pk,
        "SELECT \"order_id\", \"status\" FROM \"public\".\"orders\" WHERE \"order_id\" = $1"
    );
    assert_eq!(set.table.pk_fields, vec![0]);
    assert_eq!(
        set.update.sql_update,
        "UPDATE \"public\".\"orders\" SET \"status\" = $1 WHERE \"order_id\" = $2"
    );
}

#[test]
fn the_first_rename_of_a_field_gives_its_column() {
    let mut input = order();
    input.fields[2].attrs.push(text("rename", "state"));
    input.fields[2].attrs.push(text("rename", "ignored"));
    let table = derive_table(&input).unwrap();
    assert_eq!(table.cols[2], "\"state\"");
}

#[test]
fn the_key_goes_to_the_first_field_that_matches() {
    let input = record(
        "Alias",
        vec![text("pk", "code")],
        vec![renamed("label", "String", "code"), field("code", "i64")],
    );
    let table = derive_table(&input).unwrap();
    assert_eq!(table.pk_fields, vec![0]);
    assert_eq!(table.id, KeyType::Single("String".to_string()));
}
