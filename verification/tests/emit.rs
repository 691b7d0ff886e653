use schema_codegen::emit::{
    add_insert_for_table, add_structs_for_table, emit_tables, generate, generate_under,
    EmissionBuffer,
};
use schema_codegen::schema::{CatalogRow, ColumnInfo, TableSchema};
use schema_codegen::type_map::UnsupportedTypeError;

fn column(name: &str, source_type: &str, nullable: bool) -> ColumnInfo {
    ColumnInfo { name: name.to_string(), source_type: source_type.to_string(), nullable }
}

fn row(table: &str, name: &str, source_type: &str, nullable: bool) -> CatalogRow {
    CatalogRow { table_name: table.to_string(), column: column(name, source_type, nullable) }
}

fn users() -> TableSchema {
    TableSchema {
        name: "users".to_string(),
        columns: vec![
            column("id", "integer", false),
            column("name", "text", false),
            column("bio", "text", true),
            column("created_at", "timestamp with time zone", false),
        ],
    }
}

fn users_rows() -> Vec<CatalogRow> {
    users()
        .columns
        .into_iter()
        .map(|column| CatalogRow { table_name: "users".to_string(), column })
        .collect()
}

const USERS_STRUCTS: &str = "#[derive(Debug, Clone)]
pub struct UsersRow {
    pub id: i32,
    pub name: String,
    pub bio: Option<String>,
    pub created_at: chrono::DateTime<chrono::Utc>,
}

pub struct UsersInputRow {
    pub name: String,
    pub bio: Option<String>,
}";

const USERS_INSERT: &str = "pub async fn insert_users(conn: &PgPool, row: &UsersInputRow) -> Result<UsersRow, sqlx::Error> {

        let result = sqlx::query_as!(UsersRow,
            r#\"INSERT INTO users (name, bio) VALUES ($1, $2) RETURNING *\"#,
            row.name, row.bio
        )
        .fetch_one(conn)
        .await?;
        Ok(result)
}";

fn users_text() -> String {
    format!("use sqlx::PgPool;\n\n{}\n\n{}", USERS_STRUCTS, USERS_INSERT)
}

#[test]
fn new_buffer_imports_the_pool() {
    assert_eq!(EmissionBuffer::new().render(), "use sqlx::PgPool;\n");
}

#[test]
fn structs_of_users_table() {
    let mut buffer = EmissionBuffer::new();
    add_structs_for_table(&mut buffer, &users()).unwrap();
    assert_eq!(buffer.render(), format!("use sqlx::PgPool;\n\n{}", USERS_STRUCTS));
}

#[test]
fn insert_function_of_users_table() {
    let mut buffer = EmissionBuffer::new();
    add_insert_for_table(&mut buffer, &users());
    assert_eq!(buffer.render(), format!("use sqlx::PgPool;\n\n{}", USERS_INSERT));
}

#[test]
fn users_table_generates_row_types_and_insert() {
    assert_eq!(generate(&users_rows()).unwrap(), users_text());
}

#[test]
fn generated_text_matches_a_scope_built_by_hand() {
    let mut scope = codegen::Scope::new();
    scope.import("sqlx", "PgPool");
    let row_struct = scope.new_struct("OrderItemsRow");
    row_struct.derive("Debug");
    row_struct.derive("Clone");
    row_struct.vis("pub");
    row_struct.field("pub id", "i64");
    row_struct.field("pub quantity", "Option<i32>");
    let input_struct = scope.new_struct("OrderItemsInputRow");
    input_struct.vis("pub");
    input_struct.field("pub quantity", "Option<i32>");
    let insert = scope.new_fn("insert_order_items");
    insert.set_async(true);
    insert.vis("pub");
    insert.arg("conn", codegen::Type::new("&PgPool"));
    insert.arg("row", codegen::Type::new("&OrderItemsInputRow"));
    insert.ret(codegen::Type::new("Result<OrderItemsRow, sqlx::Error>"));
    insert.line(
        "\n    let result = sqlx::query_as!(OrderItemsRow,\n        \
         r#\"INSERT INTO order_items (quantity) VALUES ($1) RETURNING *\"#,\n        \
         row.quantity\n    )\n    .fetch_one(conn)\n    .await?;\n    Ok(result)",
    );

    let rows = vec![
        row("order_items", "id", "bigint", false),
        row("order_items", "quantity", "integer", true),
    ];
    assert_eq!(generate(&rows).unwrap(), scope.to_string());
}

#[test]
fn tables_are_emitted_in_their_order() {
    let rows = vec![
        row("b", "x", "text", false),
        row("a", "y", "boolean", false),
    ];
    let text = generate(&rows).unwrap();
    let b_row = text.find("pub struct BRow").unwrap();
    let b_input = text.find("pub struct BInputRow").unwrap();
    let b_insert = text.find("fn insert_b(").unwrap();
    let a_row = text.find("pub struct ARow").unwrap();
    let a_input = text.find("pub struct AInputRow").unwrap();
    let a_insert = text.find("fn insert_a(").unwrap();
    assert!(b_row < b_input && b_input < b_insert);
    assert!(b_insert < a_row);
    assert!(a_row < a_input && a_input < a_insert);
}

#[test]
fn migration_table_is_never_in_the_output() {
    let mut rows = vec![
        row("_sqlx_migrations", "version", "bigint", false),
        row("_sqlx_migrations", "checksum", "bytea", false),
    ];
    rows.extend(users_rows());
    let text = generate(&rows).unwrap();
    assert_eq!(text, users_text());
    assert!(!text.contains("_sqlx_migrations"));
    assert!(!text.contains("SqlxMigrations"));
}

#[test]
fn only_the_migration_table_gives_only_the_import() {
    let rows = vec![row("_sqlx_migrations", "version", "bigint", false)];
    assert_eq!(generate(&rows).unwrap(), "use sqlx::PgPool;\n");
}

#[test]
fn no_rows_give_only_the_import() {
    assert_eq!(generate(&Vec::new()).unwrap(), "use sqlx::PgPool;\n");
}

#[test]
fn unsupported_type_in_the_migration_table_is_ignored() {
    let mut rows = vec![row("_sqlx_migrations", "installed_on", "interval", false)];
    rows.extend(users_rows());
    assert_eq!(generate(&rows).unwrap(), users_text());
}

#[test]
fn unsupported_type_fails_the_run_without_output() {
    let mut rows = users_rows();
    rows.push(row("widgets", "id", "integer", false));
    rows.push(row("widgets", "shape", "polygon", true));
    assert_eq!(
        generate(&rows),
        Err(UnsupportedTypeError {
            source_type: "polygon".to_string(),
            location: Some(("widgets".to_string(), "shape".to_string())),
        })
    );
}

#[test]
fn first_unsupported_type_of_the_run_is_reported() {
    let rows = vec![
        row("a", "x", "text", false),
        row("b", "y", "jsonb", false),
        row("b", "z", "money", false),
        row("c", "w", "xml", false),
    ];
    let error = generate(&rows).unwrap_err();
    assert_eq!(error.source_type, "jsonb");
    assert_eq!(error.location, Some(("b".to_string(), "y".to_string())));
}

#[test]
fn failed_structs_leave_the_buffer_as_it_was() {
    let mut buffer = EmissionBuffer::new();
    add_structs_for_table(&mut buffer, &users()).unwrap();
    let before = buffer.render();
    let broken = TableSchema {
        name: "broken".to_string(),
        columns: vec![column("a", "text", false), column("b", "cidr", false)],
    };
    assert!(add_structs_for_table(&mut buffer, &broken).is_err());
    assert_eq!(buffer.render(), before);
}

#[test]
fn denylist_leaves_tables_out() {
    let mut rows = vec![row("audit_log", "entry", "jsonb", false)];
    rows.extend(users_rows());
    rows.push(row("zebras", "stripes", "integer", false));
    let denylist = vec!["audit_log".to_string(), "zebras".to_string()];
    let text = generate_under(&rows, &denylist).unwrap();
    assert_eq!(text, users_text());
    assert!(!text.contains("audit_log"));
    assert!(!text.contains("AuditLog"));
    assert!(!text.contains("ebras"));
}

#[test]
fn empty_denylist_generates_as_without_one() {
    let mut rows = vec![row("_sqlx_migrations", "version", "bigint", false)];
    rows.extend(users_rows());
    assert_eq!(generate_under(&rows, &Vec::new()), generate(&rows));
}

#[test]
fn emit_tables_takes_tables_as_they_are() {
    let tables = vec![users()];
    assert_eq!(emit_tables(&tables, &Vec::new()).unwrap(), users_text());
}

#[test]
fn table_of_generated_columns_has_an_empty_input_row() {
    let rows = vec![
        row("ticks", "id", "bigint", false),
        row("ticks", "created_at", "timestamp with time zone", false),
    ];
    let text = generate(&rows).unwrap();
    assert!(text.contains("pub struct TicksInputRow;"));
    assert!(text.contains("INSERT INTO ticks () VALUES () RETURNING *"));
}

#[test]
fn rows_of_a_table_that_do_not_stand_together_are_emitted_twice() {
    let rows = vec![
        row("a", "x", "text", false),
        row("b", "y", "text", false),
        row("a", "z", "text", false),
    ];
    let text = generate(&rows).unwrap();
    assert_eq!(text.matches("pub struct ARow").count(), 2);
    assert_eq!(text.matches("pub struct BRow").count(), 1);
}
