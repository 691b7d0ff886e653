use schema_codegen::grouping::group_by_table;
use schema_codegen::schema::{CatalogRow, ColumnInfo, TableSchema};

fn column(name: &str) -> ColumnInfo {
    ColumnInfo { name: name.to_string(), source_type: "text".to_string(), nullable: false }
}

fn row(table: &str, name: &str) -> CatalogRow {
    CatalogRow { table_name: table.to_string(), column: column(name) }
}

fn table(name: &str, columns: &[&str]) -> TableSchema {
    TableSchema { name: name.to_string(), columns: columns.iter().map(|c| column(c)).collect() }
}

#[test]
fn consecutive_rows_of_a_table_form_one_group() {
    let rows = vec![row("t1", "c1"), row("t1", "c2"), row("t2", "c1")];
    assert_eq!(group_by_table(&rows), vec![table("t1", &["c1", "c2"]), table("t2", &["c1"])]);
}

#[test]
fn rows_that_do_not_stand_together_form_separate_groups() {
    let rows = vec![row("t1", "c1"), row("t2", "c1"), row("t1", "c2")];
    assert_eq!(
        group_by_table(&rows),
        vec![table("t1", &["c1"]), table("t2", &["c1"]), table("t1", &["c2"])]
    );
}

#[test]
fn no_rows_give_no_tables() {
    assert_eq!(group_by_table(&Vec::new()), Vec::<TableSchema>::new());
}

#[test]
fn single_row_gives_one_table() {
    assert_eq!(group_by_table(&vec![row("t", "c")]), vec![table("t", &["c"])]);
}

#[test]
fn column_order_is_kept_within_a_table() {
    let rows = vec![row("t", "z"), row("t", "a"), row("t", "m"), row("t", "a")];
    assert_eq!(group_by_table(&rows), vec![table("t", &["z", "a", "m", "a"])]);
}

#[test]
fn columns_keep_their_type_and_nullability() {
    let rows = vec![
        CatalogRow {
            table_name: "t".to_string(),
            column: ColumnInfo {
                name: "c".to_string(),
                source_type: "bigint".to_string(),
                nullable: true,
            },
        },
    ];
    let tables = group_by_table(&rows);
    assert_eq!(tables.len(), 1);
    assert_eq!(tables[0].columns[0].source_type, "bigint");
    assert!(tables[0].columns[0].nullable);
}

#[test]
fn groups_put_together_give_back_the_rows() {
    let rows = vec![
        row("a", "1"),
        row("a", "2"),
        row("b", "3"),
        row("a", "4"),
        row("c", "5"),
        row("c", "6"),
    ];
    let tables = group_by_table(&rows);
    let mut back = Vec::new();
    for t in &tables {
        assert!(!t.columns.is_empty());
        for c in &t.columns {
            back.push(CatalogRow { table_name: t.name.clone(), column: c.clone() });
        }
    }
    assert_eq!(back, rows);
    for pair in tables.windows(2) {
        assert_ne!(pair[0].name, pair[1].name);
    }
}

#[test]
fn sorted_rows_give_one_table_for_each_name() {
    let rows = vec![row("a", "1"), row("a", "2"), row("b", "1"), row("c", "1"), row("c", "2")];
    let names: Vec<String> = group_by_table(&rows).into_iter().map(|t| t.name).collect();
    assert_eq!(names, vec!["a", "b", "c"]);
}

#[test]
fn catalog_row_reads_the_nullability_mark() {
    let yes = schema_codegen::schema::catalog_row(
        "users".to_string(),
        "bio".to_string(),
        "text".to_string(),
        "YES",
    );
    assert_eq!(
        yes,
        CatalogRow {
            table_name: "users".to_string(),
            column: ColumnInfo {
                name: "bio".to_string(),
                source_type: "text".to_string(),
                nullable: true,
            },
        }
    );
    for mark in ["NO", "yes", "Yes", "", "YES "] {
        let row = schema_codegen::schema::catalog_row(
            "users".to_string(),
            "name".to_string(),
            "text".to_string(),
            mark,
        );
        assert!(!row.column.nullable);
    }
}

#[test]
fn catalog_query_orders_by_table_and_position() {
    assert_eq!(
        schema_codegen::schema::catalog_query(),
        "SELECT table_name, column_name, data_type, is_nullable FROM information_schema.columns WHERE table_schema='public' ORDER BY table_name, ordinal_position"
    );
}
