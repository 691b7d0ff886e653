//! Grouping of catalogue rows into tables.

use vstd::prelude::*;
use crate::schema::{CatalogRow, ColumnInfo, ColumnSpec, RowSpec, TableSchema, TableSpec};
use crate::schema::{copy_column, rows_view, tables_view, columns_view};

verus! {

/// The rows cut into their maximal runs of neighbours with one table name,
/// each run as a table that holds the run's columns in order.
///
/// A row continues the last run where it names the same table, and starts a
/// new run otherwise.
pub open spec fn table_runs(rows: Seq<RowSpec>) -> Seq<TableSpec>
    decreases rows.len(),
{
    if rows.len() == 0 {
        Seq::empty()
    } else {
        let before = table_runs(rows.drop_last());
        let row = rows.last();
        if before.len() > 0 && before.last().name == row.table {
            before.drop_last().push(
                TableSpec { name: row.table, columns: before.last().columns.push(row.column) },
            )
        } else {
            before.push(TableSpec { name: row.table, columns: seq![row.column] })
        }
    }
}

/// The rows that a table stands for: its columns, each tagged with the
/// table's name.
pub open spec fn rows_of(table: TableSpec) -> Seq<RowSpec> {
    table.columns.map_values(|c: ColumnSpec| RowSpec { table: table.name, column: c })
}

/// The rows of the tables, one table after the other.
pub open spec fn all_rows_of(tables: Seq<TableSpec>) -> Seq<RowSpec>
    decreases tables.len(),
{
    if tables.len() == 0 {
        Seq::empty()
    } else {
        all_rows_of(tables.drop_last()) + rows_of(tables.last())
    }
}

/// Whether the tables are the rows cut into maximal runs: put together they
/// give back the rows, each holds a column, and no two neighbours have the
/// same name.
pub open spec fn is_run_grouping(rows: Seq<RowSpec>, tables: Seq<TableSpec>) -> bool {
    &&& all_rows_of(tables) == rows
    &&& forall|g: int| 0 <= g < tables.len() ==> (#[trigger] tables[g]).columns.len() > 0
    &&& forall|g: int|
        0 <= g && g + 1 < tables.len() ==> (#[trigger] tables[g]).name != tables[g + 1].name
}

/// Whether the rows of each table stand together: between two rows of one
/// table there is no row of another.
pub open spec fn rows_stand_by_table(rows: Seq<RowSpec>) -> bool {
    forall|i: int, j: int, k: int|
        0 <= i <= j <= k < rows.len() && rows[i].table == rows[k].table ==> rows[j].table
            == rows[i].table
}

/// Cuts the rows into tables: each maximal run of neighbouring rows with one
/// table name becomes one table, with the columns in the order of the rows.
///
/// The rows are not sorted here. They are expected ordered by table name and
/// then by column position; rows of one table that do not stand together
/// give several tables of that name.
pub fn group_by_table(rows: &Vec<CatalogRow>) -> (tables: Vec<TableSchema>)
    ensures
        tables_view(tables@) == table_runs(rows_view(rows@)),
        is_run_grouping(rows_view(rows@), tables_view(tables@)),
{
    let mut tables: Vec<TableSchema> = Vec::new();
    let mut i: usize = 0;
    while i < rows.len()
        invariant
            0 <= i <= rows.len(),
            tables_view(tables@) == table_runs(rows_view(rows@).take(i as int)),
        decreases rows.len() - i,
    {
        let row = &rows[i];
        let ghost before = tables_view(tables@);
        let ghost seen = rows_view(rows@).take(i as int);
        let ghost next = rows_view(rows@).take(i + 1);
        proof {
            assert(next.drop_last() =~= seen);
            assert(next.last() == row@);
        }
        let n = tables.len();
        let continues = n > 0 && tables[n - 1].name == row.table_name;
        if continues {
            let last = tables.pop().unwrap();
            let mut columns = last.columns;
            let ghost old_columns = columns@;
            columns.push(copy_column(&row.column));
            proof {
                assert(tables_view(tables@) =~= before.drop_last());
                assert(columns_view(columns@) =~= columns_view(old_columns).push(row.column@));
            }
            tables.push(TableSchema { name: last.name, columns });
            proof {
                assert(tables_view(tables@) =~= before.drop_last().push(
                    TableSpec { name: row@.table, columns: before.last().columns.push(row@.column) },
                ));
            }
        } else {
            let mut columns: Vec<ColumnInfo> = Vec::new();
            columns.push(copy_column(&row.column));
            proof {
                assert(columns_view(columns@) =~= seq![row.column@]);
            }
            tables.push(TableSchema { name: row.table_name.clone(), columns });
            proof {
                assert(tables_view(tables@) =~= before.push(
                    TableSpec { name: row@.table, columns: seq![row@.column] },
                ));
            }
        }
        i += 1;
    }
    proof {
        assert(rows_view(rows@).take(i as int) =~= rows_view(rows@));
        lemma_runs_are_maximal(rows_view(rows@));
        lemma_runs_keep_rows(rows_view(rows@));
    }
    tables
}

/// Every run holds a column, neighbouring runs differ in their table name,
/// the last run has the table name of the last row, and every run has the
/// table name of some row.
pub proof fn lemma_runs_are_maximal(rows: Seq<RowSpec>)
    ensures
        rows.len() == 0 <==> table_runs(rows).len() == 0,
        rows.len() > 0 ==> table_runs(rows).last().name == rows.last().table,
        forall|g: int| 0 <= g < table_runs(rows).len() ==> (#[trigger] table_runs(rows)[g]).columns.len() > 0,
        forall|g: int|
            0 <= g && g + 1 < table_runs(rows).len() ==> (#[trigger] table_runs(rows)[g]).name
                != table_runs(rows)[g + 1].name,
        forall|g: int|
            0 <= g < table_runs(rows).len() ==> exists|i: int|
                0 <= i < rows.len() && (#[trigger] rows[i]).table == (#[trigger] table_runs(rows)[g]).name,
    decreases rows.len(),
{
    if rows.len() > 0 {
        let shorter = rows.drop_last();
        let before = table_runs(shorter);
        let runs = table_runs(rows);
        let row = rows.last();
        lemma_runs_are_maximal(shorter);
        assert forall|g: int| 0 <= g < runs.len() implies exists|i: int|
            0 <= i < rows.len() && (#[trigger] rows[i]).table == (#[trigger] runs[g]).name by {
            if g == runs.len() - 1 {
                assert(rows[rows.len() - 1].table == runs[g].name);
            } else {
                assert(runs[g] == before[g]);
                let i = choose|i: int|
                    0 <= i < shorter.len() && (#[trigger] shorter[i]).table == before[g].name;
                assert(rows[i] == shorter[i]);
            }
        }
        assert forall|g: int| 0 <= g && g + 1 < runs.len() implies (#[trigger] runs[g]).name
            != runs[g + 1].name by {
            if g + 1 < runs.len() - 1 {
                assert(runs[g] == before[g]);
                assert(runs[g + 1] == before[g + 1]);
            } else if before.len() > 0 && before.last().name == row.table {
                assert(runs[g] == before[g]);
                assert(before[g].name != before[g + 1].name);
            } else {
                assert(runs[g] == before[g]);
            }
        }
    }
}

/// The runs hold every row, in the order of the rows and under the row's
/// table name: no row is lost, moved, or put with another table's rows.
pub proof fn lemma_runs_keep_rows(rows: Seq<RowSpec>)
    ensures
        all_rows_of(table_runs(rows)) == rows,
    decreases rows.len(),
{
    if rows.len() > 0 {
        let shorter = rows.drop_last();
        let before = table_runs(shorter);
        let runs = table_runs(rows);
        let row = rows.last();
        lemma_runs_keep_rows(shorter);
        if before.len() > 0 && before.last().name == row.table {
            assert(runs.drop_last() =~= before.drop_last());
            assert(rows_of(runs.last()) =~= rows_of(before.last()).push(row));
            assert(all_rows_of(runs) =~= all_rows_of(before).push(row));
        } else {
            assert(runs.drop_last() =~= before);
            assert(rows_of(runs.last()) =~= seq![row]);
        }
        assert(shorter.push(row) =~= rows);
    }
}

/// The rows of some tables are at least as many as the tables where each
/// table holds a column.
proof fn lemma_rows_outnumber_tables(tables: Seq<TableSpec>)
    requires
        forall|g: int| 0 <= g < tables.len() ==> (#[trigger] tables[g]).columns.len() > 0,
    ensures
        all_rows_of(tables).len() >= tables.len(),
    decreases tables.len(),
{
    if tables.len() > 0 {
        let shorter = tables.drop_last();
        assert forall|g: int| 0 <= g < shorter.len() implies (#[trigger] shorter[g]).columns.len()
            > 0 by {
            assert(shorter[g] == tables[g]);
        }
        lemma_rows_outnumber_tables(shorter);
        assert(tables[tables.len() - 1].columns.len() > 0);
    }
}

/// The maximal runs are the only way to cut the rows into tables that keep
/// the rows in order, hold a column each and differ from their neighbours
/// in name.
pub proof fn lemma_runs_are_the_only_grouping(rows: Seq<RowSpec>, tables: Seq<TableSpec>)
    requires
        is_run_grouping(rows, tables),
    ensures
        tables == table_runs(rows),
    decreases rows.len(),
{
    lemma_rows_outnumber_tables(tables);
    if rows.len() == 0 {
        assert(tables =~= table_runs(rows));
    } else {
        if tables.len() == 0 {
            assert(all_rows_of(tables).len() == 0);
        }
        let shorter = rows.drop_last();
        let row = rows.last();
        let last = tables.last();
        let front = tables.drop_last();
        assert(all_rows_of(tables) == all_rows_of(front) + rows_of(last));
        assert(rows_of(last).len() > 0) by {
            assert(tables[tables.len() - 1].columns.len() > 0);
        }
        assert(row == rows_of(last).last());
        assert(row.table == last.name);
        assert(row.column == last.columns.last());
        assert forall|g: int| 0 <= g < front.len() implies (#[trigger] front[g]).columns.len()
            > 0 by {
            assert(front[g] == tables[g]);
        }
        assert forall|g: int| 0 <= g && g + 1 < front.len() implies (#[trigger] front[g]).name
            != front[g + 1].name by {
            assert(front[g] == tables[g]);
            assert(front[g + 1] == tables[g + 1]);
        }
        if last.columns.len() == 1 {
            assert(rows_of(last) =~= seq![row]);
            assert(all_rows_of(front) =~= shorter);
            lemma_runs_are_the_only_grouping(shorter, front);
            if front.len() > 0 {
                assert(front.last() == tables[tables.len() - 2]);
                assert(tables[tables.len() - 2].name != tables[tables.len() - 2 + 1].name);
            }
            assert(last.columns =~= seq![row.column]);
            assert(tables =~= front.push(last));
        } else {
            let trimmed = TableSpec { name: last.name, columns: last.columns.drop_last() };
            let before = front.push(trimmed);
            assert(before.drop_last() =~= front);
            assert(rows_of(trimmed) =~= rows_of(last).drop_last());
            assert(all_rows_of(before) =~= shorter);
            assert forall|g: int| 0 <= g < before.len() implies (#[trigger] before[g]).columns.len()
                > 0 by {
                if g < front.len() {
                    assert(before[g] == front[g]);
                }
            }
            assert forall|g: int| 0 <= g && g + 1 < before.len() implies (#[trigger] before[g]).name
                != before[g + 1].name by {
                assert(before[g] == tables[g]);
                assert(before[g + 1].name == tables[g + 1].name);
            }
            lemma_runs_are_the_only_grouping(shorter, before);
            assert(last.columns =~= trimmed.columns.push(row.column));
            assert(tables =~= before.drop_last().push(
                TableSpec { name: row.table, columns: before.last().columns.push(row.column) },
            ));
        }
    }
}

/// Where the rows of each table stand together, as they do in rows ordered
/// by table name, no two runs have the same table name: there is one table
/// for each table name among the rows.
pub proof fn lemma_one_run_per_table(rows: Seq<RowSpec>)
    requires
        rows_stand_by_table(rows),
    ensures
        forall|g: int, h: int|
            0 <= g < h < table_runs(rows).len() ==> (#[trigger] table_runs(rows)[g]).name != (
            #[trigger] table_runs(rows)[h]).name,
    decreases rows.len(),
{
    if rows.len() > 0 {
        let shorter = rows.drop_last();
        let before = table_runs(shorter);
        let runs = table_runs(rows);
        let row = rows.last();
        assert(rows_stand_by_table(shorter)) by {
            assert forall|i: int, j: int, k: int|
                0 <= i <= j <= k < shorter.len() && shorter[i].table
                    == shorter[k].table implies shorter[j].table == shorter[i].table by {
                assert(rows[i] == shorter[i] && rows[j] == shorter[j] && rows[k] == shorter[k]);
            }
        }
        lemma_one_run_per_table(shorter);
        lemma_runs_are_maximal(shorter);
        assert forall|g: int, h: int| 0 <= g < h < runs.len() implies (#[trigger] runs[g]).name != (
        #[trigger] runs[h]).name by {
            if before.len() > 0 && before.last().name == row.table {
                assert(runs[g] == before[g]);
                assert(runs[h].name == before[h].name);
            } else if h < runs.len() - 1 {
                assert(runs[g] == before[g]);
                assert(runs[h] == before[h]);
            } else {
                assert(runs[g] == before[g]);
                if before[g].name == row.table {
                    let i = choose|i: int|
                        0 <= i < shorter.len() && (#[trigger] shorter[i]).table == before[g].name;
                    let j = shorter.len() - 1;
                    let k = rows.len() - 1;
                    assert(rows[i] == shorter[i]);
                    assert(rows[j] == shorter[j]);
                    assert(rows[j].table == before.last().name);
                    assert(rows[i].table == rows[k].table);
                    assert(rows[j].table == rows[i].table);
                    assert(false);
                }
            }
        }
    }
}

} // verus!
