//! The catalogue's description of tables and columns.

use vstd::prelude::*;
use vstd::string::*;
use crate::text::str_eq;

verus! {

/// One column as the catalogue describes it.
#[derive(Clone, Debug, PartialEq, Eq)]
pub struct ColumnInfo {
    pub name: String,
    pub source_type: String,
    pub nullable: bool,
}

/// The mathematical value of a [`ColumnInfo`].
pub struct ColumnSpec {
    pub name: Seq<char>,
    pub source_type: Seq<char>,
    pub nullable: bool,
}

impl View for ColumnInfo {
    type V = ColumnSpec;

    open spec fn view(&self) -> ColumnSpec {
        ColumnSpec { name: self.name@, source_type: self.source_type@, nullable: self.nullable }
    }
}

/// A table with its columns in the catalogue's order.
#[derive(Clone, Debug, PartialEq, Eq)]
pub struct TableSchema {
    pub name: String,
    pub columns: Vec<ColumnInfo>,
}

/// The mathematical value of a [`TableSchema`].
pub struct TableSpec {
    pub name: Seq<char>,
    pub columns: Seq<ColumnSpec>,
}

impl View for TableSchema {
    type V = TableSpec;

    open spec fn view(&self) -> TableSpec {
        TableSpec { name: self.name@, columns: columns_view(self.columns@) }
    }
}

/// One row of the catalogue: a column tagged with the name of its table.
#[derive(Clone, Debug, PartialEq, Eq)]
pub struct CatalogRow {
    pub table_name: String,
    pub column: ColumnInfo,
}

/// The mathematical value of a [`CatalogRow`].
pub struct RowSpec {
    pub table: Seq<char>,
    pub column: ColumnSpec,
}

impl View for CatalogRow {
    type V = RowSpec;

    open spec fn view(&self) -> RowSpec {
        RowSpec { table: self.table_name@, column: self.column@ }
    }
}

/// The values of a sequence of columns.
pub open spec fn columns_view(columns: Seq<ColumnInfo>) -> Seq<ColumnSpec> {
    columns.map_values(|c: ColumnInfo| c@)
}

/// The values of a sequence of tables.
pub open spec fn tables_view(tables: Seq<TableSchema>) -> Seq<TableSpec> {
    tables.map_values(|t: TableSchema| t@)
}

/// The values of a sequence of catalogue rows.
pub open spec fn rows_view(rows: Seq<CatalogRow>) -> Seq<RowSpec> {
    rows.map_values(|r: CatalogRow| r@)
}

/// The query that reads the catalogue: one row for each column of the public
/// schema, ordered by table name and then by the column's position.
pub open spec fn catalog_query_text() -> Seq<char> {
    "SELECT table_name, column_name, data_type, is_nullable FROM information_schema.columns WHERE table_schema='public' ORDER BY table_name, ordinal_position"@
}

/// The text of the query that reads the catalogue.
pub fn catalog_query() -> (query: &'static str)
    ensures
        query@ == catalog_query_text(),
{
    "SELECT table_name, column_name, data_type, is_nullable FROM information_schema.columns WHERE table_schema='public' ORDER BY table_name, ordinal_position"
}

/// Whether the catalogue's nullability mark says that a column may hold no
/// value: the mark `YES` does, every other mark does not.
pub open spec fn marks_nullable(is_nullable: Seq<char>) -> bool {
    is_nullable == "YES"@
}

/// Makes a catalogue row of the four values that the catalogue query gives
/// for a column.
pub fn catalog_row(
    table_name: String,
    column_name: String,
    data_type: String,
    is_nullable: &str,
) -> (row: CatalogRow)
    ensures
        row@ == (RowSpec {
            table: table_name@,
            column: ColumnSpec {
                name: column_name@,
                source_type: data_type@,
                nullable: marks_nullable(is_nullable@),
            },
        }),
{
    CatalogRow {
        table_name,
        column: ColumnInfo {
            name: column_name,
            source_type: data_type,
            nullable: str_eq(is_nullable, "YES"),
        },
    }
}

/// A copy of a column.
pub fn copy_column(column: &ColumnInfo) -> (copy: ColumnInfo)
    ensures
        copy@ == column@,
{
    ColumnInfo {
        name: column.name.clone(),
        source_type: column.source_type.clone(),
        nullable: column.nullable,
    }
}

} // verus!
