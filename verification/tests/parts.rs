use shl_sqlx::catalog::{collect, field_rename, find_pk, pk_ty, ColInfo, FieldDecl, KeyType, RecordType};
use shl_sqlx::config::{parse_model_cfg, ConfigError, Directive, DirectiveValue, ModelCfg, TableArg};
use shl_sqlx::naming::to_snake_plural;
use shl_sqlx::statement::{placeholders, push_assignments, where_pk};
use shl_sqlx::text::{clone_all, contains_text, push_decimal, push_joined, quote, same_text};
use shl_sqlx::uuid::UuidV7Context;

fn strings(items: &[&str]) -> Vec<String> {
    items.iter().map(|s| s.to_string()).collect()
}

fn decimal(n: u128) -> String {
    let mut out = String::from(">");
    push_decimal(&mut out, n);
    out
}

#[test]
fn table_names_are_snake_case_plurals() {
    assert_eq!(to_snake_plural("Order"), "orders");
    assert_eq!(to_snake_plural("Membership"), "memberships");
    assert_eq!(to_snake_plural("UserProfile"), "user_profiles");
    assert_eq!(to_snake_plural("user"), "users");
    assert_eq!(to_snake_plural("HTTPServer"), "h_t_t_p_servers");
    assert_eq!(to_snake_plural("Integration"), "integrations");
}

#[test]
fn a_name_that_ends_in_s_gets_no_second_s() {
    assert_eq!(to_snake_plural("Address"), "address");
    assert_eq!(to_snake_plural("News"), "news");
    assert_eq!(to_snake_plural("S"), "s");
    assert_eq!(to_snake_plural("AxisS"), "axis_s");
}

#[test]
fn the_empty_name_becomes_a_lone_s() {
    assert_eq!(to_snake_plural(""), "s");
}

#[test]
fn uppercase_letters_beyond_ascii_are_lowered() {
    assert_eq!(to_snake_plural("ÉcoleÉlève"), "école_élèves");
    assert_eq!(to_snake_plural("aİb"), "a_i\u{307}bs");
    assert_eq!(to_snake_plural("x1Y2"), "x1_y2s");
}

#[test]
fn decimal_numerals_have_no_leading_zeros() {
    assert_eq!(decimal(0), ">0");
    assert_eq!(decimal(7), ">7");
    assert_eq!(decimal(9), ">9");
    assert_eq!(decimal(10), ">10");
    assert_eq!(decimal(109), ">109");
    assert_eq!(decimal(12345678901234567890), ">12345678901234567890");
    assert_eq!(decimal(u128::MAX), format!(">{}", u128::MAX));
}

#[test]
fn quoting_wraps_in_double_quotes() {
    assert_eq!(quote("id"), "\"id\"");
    assert_eq!(quote(""), "\"\"");
    assert_eq!(quote("a b"), "\"a b\"");
}

#[test]
fn joining_puts_the_separator_between_items() {
    let mut out = String::from("x:");
    push_joined(&mut out, &strings(&["a", "b", "c"]), ", ");
    assert_eq!(out, "x:a, b, c");
    let mut one = String::new();
    push_joined(&mut one, &strings(&["a"]), ", ");
    assert_eq!(one, "a");
    let mut none = String::from("kept");
    push_joined(&mut none, &strings(&[]), ", ");
    assert_eq!(none, "kept");
}

#[test]
fn text_comparison_is_exact() {
    assert!(same_text("pk", "pk"));
    assert!(!same_text("pk", "PK"));
    assert!(!same_text("pk", "pk "));
    assert!(same_text("", ""));
    assert!(contains_text(&strings(&["a", "b"]), "b"));
    assert!(!contains_text(&strings(&["a", "b"]), "c"));
    assert!(!contains_text(&strings(&[]), ""));
    assert_eq!(clone_all(&strings(&["x", "y"])), strings(&["x", "y"]));
}

#[test]
fn the_key_predicate_numbers_from_one() {
    assert_eq!(where_pk(&strings(&["\"id\""])), "\"id\" = $1");
    assert_eq!(where_pk(&strings(&["\"a\"", "\"b\""])), "\"a\" = $1 AND \"b\" = $2");
    assert_eq!(where_pk(&strings(&[])), "");
}

#[test]
fn assignments_go_on_from_the_placeholders_in_use() {
    let mut out = String::from("WHERE ");
    push_assignments(&mut out, &strings(&["\"a\"", "\"b\""]), " AND ", 9);
    assert_eq!(out, "WHERE \"a\" = $10 AND \"b\" = $11");
    let mut at_the_limit = String::new();
    push_assignments(&mut at_the_limit, &strings(&["x"]), ", ", usize::MAX);
    assert_eq!(at_the_limit, format!("x = ${}", usize::MAX as u128 + 1));
}

#[test]
fn placeholders_are_numbered_without_gaps() {
    assert_eq!(placeholders(0), "");
    assert_eq!(placeholders(1), "$1");
    assert_eq!(placeholders(3), "$1, $2, $3");
    assert_eq!(placeholders(11), "$1, $2, $3, $4, $5, $6, $7, $8, $9, $10, $11");
}

#[test]
fn the_default_descriptor_follows_the_type_name() {
    let cfg = ModelCfg::apply_default("UserProfile");
    assert_eq!(cfg.schema, "public");
    assert_eq!(cfg.table, "user_profiles");
    assert_eq!(cfg.pk_cols, strings(&["id"]));
    assert!(cfg.insert_skip.is_empty());
    assert_eq!(cfg.skip_update, strings(&["id", "created_at"]));
}

#[test]
fn directives_are_recognized_by_key_and_shape() {
    let text = |k: &str, v: &str| Directive {
        key: k.to_string(),
        value: DirectiveValue::Text(v.to_string()),
    };
    let list = |k: &str, v: &[&str]| Directive {
        key: k.to_string(),
        value: DirectiveValue::List(strings(v)),
    };
    assert_eq!(TableArg::parse(&text("schema", "s")), Ok(TableArg::Schema("s".to_string())));
    assert_eq!(TableArg::parse(&text("table", "t")), Ok(TableArg::Table("t".to_string())));
    assert_eq!(TableArg::parse(&text("pk", "k")), Ok(TableArg::PkList(strings(&["k"]))));
    assert_eq!(TableArg::parse(&list("pk", &["a", "b"])), Ok(TableArg::PkList(strings(&["a", "b"]))));
    assert_eq!(TableArg::parse(&list("pk", &[])), Ok(TableArg::PkList(strings(&[]))));
    assert_eq!(TableArg::parse(&list("insert_skip", &["a"])), Ok(TableArg::InsertSkip(strings(&["a"]))));
    assert_eq!(TableArg::parse(&list("skip_update", &["a"])), Ok(TableArg::SkipUpdate(strings(&["a"]))));
    assert_eq!(TableArg::parse(&text("skip_update", "a")), Err(ConfigError::UnknownDirective));
    assert_eq!(TableArg::parse(&list("schema", &["a"])), Err(ConfigError::UnknownDirective));
    assert_eq!(TableArg::parse(&text("rename", "a")), Err(ConfigError::UnknownDirective));
    assert_eq!(TableArg::parse(&text("Schema", "a")), Err(ConfigError::UnknownDirective));
    assert_eq!(
        TableArg::parse(&Directive { key: "pk".to_string(), value: DirectiveValue::Flag }),
        Err(ConfigError::UnknownDirective)
    );
}

#[test]
fn applying_a_directive_replaces_one_entry() {
    let cfg = ModelCfg::apply_default("Order");
    let cfg = cfg.apply(TableArg::SkipUpdate(strings(&[]))).unwrap();
    assert!(cfg.skip_update.is_empty());
    assert_eq!(cfg.pk_cols, strings(&["id"]));
    let cfg = cfg.apply(TableArg::InsertSkip(strings(&["id"]))).unwrap();
    assert_eq!(cfg.insert_skip, strings(&["id"]));
    assert_eq!(cfg.table, "orders");
    assert_eq!(cfg.clone().apply(TableArg::PkList(strings(&[]))), Err(ConfigError::EmptyPrimaryKey));
    let wide = cfg.apply(TableArg::PkList(strings(&["a", "b", "c"]))).unwrap();
    assert_eq!(wide.pk_cols.len(), 3);
}

#[test]
fn the_descriptor_is_resolved_from_the_directives() {
    let attrs = vec![
        Directive { key: "schema".to_string(), value: DirectiveValue::Text("crm".to_string()) },
        Directive { key: "pk".to_string(), value: DirectiveValue::List(strings(&["a", "b"])) },
        Directive { key: "insert_skip".to_string(), value: DirectiveValue::List(strings(&["a"])) },
    ];
    let cfg = parse_model_cfg(&attrs, "Lead").unwrap();
    assert_eq!(cfg.schema, "crm");
    assert_eq!(cfg.table, "leads");
    assert_eq!(cfg.pk_cols, strings(&["a", "b"]));
    assert_eq!(cfg.insert_skip, strings(&["a"]));
    assert_eq!(cfg.skip_update, strings(&["id", "created_at"]));
    assert_eq!(parse_model_cfg(&vec![], "Lead"), Ok(ModelCfg::apply_default("Lead")));
}

#[test]
fn a_field_keeps_its_name_unless_renamed() {
    assert_eq!(field_rename(&vec![], "status"), Ok("status".to_string()));
    let rename = Directive { key: "rename".to_string(), value: DirectiveValue::Text("state".to_string()) };
    assert_eq!(field_rename(&vec![rename.clone()], "status"), Ok("state".to_string()));
    let other = Directive { key: "skip".to_string(), value: DirectiveValue::Flag };
    assert_eq!(field_rename(&vec![rename, other], "status"), Err(ConfigError::UnknownDirective));
}

#[test]
fn the_catalog_keeps_declaration_order() {
    let input = RecordType {
        name: "Order".to_string(),
        attrs: vec![],
        fields: vec![
            FieldDecl { name: "b".to_string(), ty: "B".to_string(), attrs: vec![] },
            FieldDecl { name: "a".to_string(), ty: "A".to_string(), attrs: vec![] },
            FieldDecl { name: "b".to_string(), ty: "C".to_string(), attrs: vec![] },
        ],
    };
    let mut cfg = ModelCfg::apply_default("Order");
    cfg.pk_cols = strings(&["a", "b"]);
    let cat = collect(&input, &cfg).unwrap();
    let names: Vec<&str> = cat.cols.iter().map(|c| c.rs_ident.as_str()).collect();
    assert_eq!(names, vec!["b", "a", "b"]);
    assert_eq!(cat.pk_fields, vec![1, 0]);
    assert_eq!(cat.pk_types, strings(&["A", "B"]));
    assert_eq!(find_pk(&cat.cols, "b"), Some(0));
    assert_eq!(find_pk(&cat.cols, "c"), None);
    let empty: Vec<ColInfo> = vec![];
    assert_eq!(find_pk(&empty, "a"), None);
}

#[test]
fn the_key_type_is_a_type_or_a_pair() {
    assert_eq!(pk_ty(&strings(&["Uuid"])), Ok(KeyType::Single("Uuid".to_string())));
    assert_eq!(
        pk_ty(&strings(&["i64", "String"])),
        Ok(KeyType::Pair("i64".to_string(), "String".to_string()))
    );
    assert_eq!(pk_ty(&strings(&[])), Err(ConfigError::EmptyPrimaryKey));
    assert_eq!(pk_ty(&strings(&["a", "b", "c"])), Err(ConfigError::UnsupportedKeyArity));
}

#[test]
fn a_new_context_counts_from_zero() {
    let mut ctx = UuidV7Context::new();
    assert_eq!(ctx.generate_sequence(0, 0), 0);
    assert_eq!(ctx.generate_sequence(1_700_000_000, 5), 1);
    assert_eq!(ctx.generate_sequence(0, 0), 2);
    assert_eq!(ctx.usable_bits(), 12);
    let mut by_default = UuidV7Context::default();
    assert_eq!(by_default.generate_sequence(0, 0), 0);
}

#[test]
fn the_initial_counter_keeps_its_low_twelve_bits() {
    let mut ctx = UuidV7Context::with_initial_counter(0x1FFE);
    assert_eq!(ctx.generate_sequence(0, 0), 0xFFE);
    assert_eq!(ctx.generate_sequence(0, 0), 0xFFF);
    assert_eq!(ctx.generate_sequence(0, 0), 0);
    assert_eq!(ctx.generate_sequence(0, 0), 1);
    let mut small = UuidV7Context::with_initial_counter(41);
    assert_eq!(small.generate_sequence(0, 0), 41);
}
