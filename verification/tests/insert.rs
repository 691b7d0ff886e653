use schema_codegen::insert::{bind_insertable, is_insertable, InsertBuilder};
use schema_codegen::schema::ColumnInfo;

fn column(name: &str) -> ColumnInfo {
    ColumnInfo { name: name.to_string(), source_type: "text".to_string(), nullable: false }
}

fn columns(names: &[&str]) -> Vec<ColumnInfo> {
    names.iter().map(|n| column(n)).collect()
}

#[test]
fn id_and_created_at_are_not_insertable() {
    assert!(!is_insertable("id"));
    assert!(!is_insertable("created_at"));
}

#[test]
fn other_columns_are_insertable() {
    assert!(is_insertable("name"));
    assert!(is_insertable("updated_at"));
    assert!(is_insertable("ID"));
    assert!(is_insertable("user_id"));
    assert!(is_insertable(""));
}

#[test]
fn new_builder_holds_nothing() {
    let builder = InsertBuilder::new();
    assert_eq!(builder.len(), 0);
    assert_eq!(builder.column_list(), "");
    assert_eq!(builder.placeholder_list(), "");
    assert_eq!(builder.argument_list(), "");
}

#[test]
fn one_column_has_no_separator() {
    let mut builder = InsertBuilder::new();
    builder.bind("name");
    assert_eq!(builder.len(), 1);
    assert_eq!(builder.column_list(), "name");
    assert_eq!(builder.placeholder_list(), "$1");
    assert_eq!(builder.argument_list(), "row.name");
}

#[test]
fn lists_stay_in_step() {
    let mut builder = InsertBuilder::new();
    builder.bind("name");
    builder.bind("bio");
    builder.bind("email");
    assert_eq!(builder.len(), 3);
    assert_eq!(builder.column_list(), "name, bio, email");
    assert_eq!(builder.placeholder_list(), "$1, $2, $3");
    assert_eq!(builder.argument_list(), "row.name, row.bio, row.email");
}

#[test]
fn placeholders_count_past_nine() {
    let mut builder = InsertBuilder::new();
    let names: Vec<String> = (0..12).map(|i| format!("c{}", i)).collect();
    for name in &names {
        builder.bind(name);
    }
    assert_eq!(builder.len(), 12);
    assert_eq!(
        builder.placeholder_list(),
        "$1, $2, $3, $4, $5, $6, $7, $8, $9, $10, $11, $12"
    );
    let placeholder_list = builder.placeholder_list();
    let argument_list = builder.argument_list();
    let column_list = builder.column_list();
    let placeholders: Vec<&str> = placeholder_list.split(", ").collect();
    let arguments: Vec<&str> = argument_list.split(", ").collect();
    let listed: Vec<&str> = column_list.split(", ").collect();
    assert_eq!(placeholders.len(), 12);
    assert_eq!(arguments.len(), 12);
    for n in 0..12 {
        assert_eq!(placeholders[n], format!("${}", n + 1));
        assert_eq!(listed[n], names[n]);
        assert_eq!(arguments[n], format!("row.{}", names[n]));
    }
}

#[test]
fn statement_names_table_columns_and_placeholders() {
    let mut builder = InsertBuilder::new();
    builder.bind("name");
    builder.bind("bio");
    assert_eq!(
        builder.statement("users"),
        "INSERT INTO users (name, bio) VALUES ($1, $2) RETURNING *"
    );
}

#[test]
fn statement_without_columns() {
    assert_eq!(
        InsertBuilder::new().statement("events"),
        "INSERT INTO events () VALUES () RETURNING *"
    );
}

#[test]
fn function_body_runs_the_statement_with_the_row_fields() {
    let mut builder = InsertBuilder::new();
    builder.bind("name");
    builder.bind("bio");
    let expected = "\n    let result = sqlx::query_as!(UsersRow,\n        \
        r#\"INSERT INTO users (name, bio) VALUES ($1, $2) RETURNING *\"#,\n        \
        row.name, row.bio\n    )\n    .fetch_one(conn)\n    .await?;\n    Ok(result)";
    assert_eq!(builder.function_body("UsersRow", "users"), expected);
}

#[test]
fn insertable_columns_are_bound_in_order() {
    let builder = bind_insertable(&columns(&["id", "name", "bio", "created_at"]));
    assert_eq!(builder.len(), 2);
    assert_eq!(builder.column_list(), "name, bio");
    assert_eq!(builder.placeholder_list(), "$1, $2");
    assert_eq!(builder.argument_list(), "row.name, row.bio");
}

#[test]
fn excluded_columns_are_skipped_wherever_they_stand() {
    let builder = bind_insertable(&columns(&["a", "created_at", "b", "id", "c"]));
    assert_eq!(builder.column_list(), "a, b, c");
    assert_eq!(builder.placeholder_list(), "$1, $2, $3");
    assert_eq!(builder.argument_list(), "row.a, row.b, row.c");
}

#[test]
fn table_of_generated_columns_binds_nothing() {
    let builder = bind_insertable(&columns(&["id", "created_at"]));
    assert_eq!(builder.len(), 0);
    assert_eq!(builder.statement("t"), "INSERT INTO t () VALUES () RETURNING *");
}

#[test]
fn no_columns_bind_nothing() {
    assert_eq!(bind_insertable(&Vec::new()).len(), 0);
}
