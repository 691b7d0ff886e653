//! The field lists of the generated row types.

use vstd::prelude::*;
use vstd::string::*;
use crate::insert::{column_names, insertable, insertable_name, insertable_names, is_insertable};
use crate::schema::{ColumnSpec, TableSchema, TableSpec};
use crate::scope::FieldDef;
use crate::type_map::{UnsupportedTypeError, UnsupportedTypeSpec, field_type, field_type_of, rust_type_of};

verus! {

/// One field of a generated row type: the column's name and the text of the
/// field's type.
#[derive(Clone, Debug, PartialEq, Eq)]
pub struct RowField {
    pub name: String,
    pub ty: String,
}

impl View for RowField {
    type V = FieldDef;

    open spec fn view(&self) -> FieldDef {
        FieldDef { name: self.name@, ty: self.ty@ }
    }
}

/// The values of a sequence of fields.
pub open spec fn fields_view(fields: Seq<RowField>) -> Seq<FieldDef> {
    fields.map_values(|f: RowField| f@)
}

/// Whether the column's type has a target type.
pub open spec fn supported(column: ColumnSpec) -> bool {
    rust_type_of(column.source_type) is Some
}

/// Whether every column's type has a target type.
pub open spec fn all_supported(columns: Seq<ColumnSpec>) -> bool {
    forall|i: int| 0 <= i < columns.len() ==> supported(#[trigger] columns[i])
}

/// Whether `k` is the position of the first column whose type has no target
/// type.
pub open spec fn is_first_unsupported(columns: Seq<ColumnSpec>, k: int) -> bool {
    &&& 0 <= k < columns.len()
    &&& !supported(columns[k])
    &&& forall|j: int| 0 <= j < k ==> supported(#[trigger] columns[j])
}

/// The error for a column whose type has no target type.
pub open spec fn unsupported_at(table: Seq<char>, column: ColumnSpec) -> UnsupportedTypeSpec {
    UnsupportedTypeSpec {
        source_type: column.source_type,
        location: Some((table, column.name)),
    }
}

/// The error that a table gives: that of its first column whose type has no
/// target type, if there is such a column.
pub open spec fn unsupported_error(table: TableSpec) -> Option<UnsupportedTypeSpec> {
    if all_supported(table.columns) {
        None
    } else {
        Some(
            unsupported_at(
                table.name,
                table.columns[choose|k: int| is_first_unsupported(table.columns, k)],
            ),
        )
    }
}

/// The field that holds a column of a supported type.
pub open spec fn field_of(column: ColumnSpec) -> FieldDef {
    FieldDef {
        name: column.name,
        ty: field_type_of(column.source_type, column.nullable)->Some_0,
    }
}

/// The fields of the full row: one for each column, in the order of the
/// columns.
pub open spec fn full_fields(columns: Seq<ColumnSpec>) -> Seq<FieldDef> {
    columns.map_values(|c: ColumnSpec| field_of(c))
}

/// [`insertable`] as a predicate on fields.
pub open spec fn insertable_field() -> spec_fn(FieldDef) -> bool {
    |f: FieldDef| insertable(f.name)
}

/// The fields of the input row: those of the full row but `id` and
/// `created_at`, in the same order.
pub open spec fn input_fields(columns: Seq<ColumnSpec>) -> Seq<FieldDef> {
    full_fields(columns).filter(insertable_field())
}

/// The names of the fields, in order.
pub open spec fn field_names(fields: Seq<FieldDef>) -> Seq<Seq<char>> {
    fields.map_values(|f: FieldDef| f.name)
}

/// No two positions are the first without a target type.
pub proof fn lemma_first_unsupported_is_unique(columns: Seq<ColumnSpec>, k: int, m: int)
    requires
        is_first_unsupported(columns, k),
        is_first_unsupported(columns, m),
    ensures
        k == m,
{
    if k < m {
        assert(supported(columns[k]));
    } else if m < k {
        assert(supported(columns[m]));
    }
}

/// Where some column's type has no target type, one column is the first
/// such, and the table's error is that column's.
pub proof fn lemma_some_column_is_first_unsupported(columns: Seq<ColumnSpec>, j: int)
    requires
        0 <= j < columns.len(),
        !supported(columns[j]),
    ensures
        exists|k: int| 0 <= k <= j && is_first_unsupported(columns, k),
    decreases j,
{
    if exists|m: int| 0 <= m < j && !supported(columns[m]) {
        let m = choose|m: int| 0 <= m < j && !supported(columns[m]);
        lemma_some_column_is_first_unsupported(columns, m);
    } else {
        assert(is_first_unsupported(columns, j));
    }
}

/// The fields of the full row of a table, in the order of its columns.
/// Fails at the first column whose type has no target type, with that
/// column's type, table and name.
pub fn full_row_fields(table: &TableSchema) -> (mapped: Result<Vec<RowField>, UnsupportedTypeError>)
    ensures
        match mapped {
            Ok(fields) => unsupported_error(table@) is None && fields_view(fields@) == full_fields(
                table@.columns,
            ),
            Err(e) => unsupported_error(table@) == Some(e@),
        },
{
    let mut fields: Vec<RowField> = Vec::new();
    let mut i: usize = 0;
    while i < table.columns.len()
        invariant
            0 <= i <= table.columns.len(),
            all_supported(table@.columns.take(i as int)),
            fields_view(fields@) == full_fields(table@.columns.take(i as int)),
        decreases table.columns.len() - i,
    {
        let column = &table.columns[i];
        assert(table@.columns[i as int] == column@);
        match field_type(column.source_type.as_str(), column.nullable) {
            Ok(ty) => {
                let ghost mapped_before = fields_view(fields@);
                fields.push(RowField { name: column.name.clone(), ty });
                proof {
                    let seen = table@.columns.take(i as int);
                    let next = table@.columns.take(i + 1);
                    assert(next =~= seen.push(column@));
                    assert(fields_view(fields@) =~= mapped_before.push(field_of(column@)));
                    assert(full_fields(next) =~= full_fields(seen).push(field_of(column@)));
                    assert forall|j: int| 0 <= j < next.len() implies supported(
                        #[trigger] next[j],
                    ) by {
                        if j < i {
                            assert(seen[j] == next[j]);
                        }
                    }
                }
            },
            Err(e) => {
                proof {
                    let columns = table@.columns;
                    assert forall|j: int| 0 <= j < i implies supported(#[trigger] columns[j]) by {
                        assert(columns.take(i as int)[j] == columns[j]);
                    }
                    assert(is_first_unsupported(columns, i as int));
                    let k = choose|k: int| is_first_unsupported(columns, k);
                    lemma_first_unsupported_is_unique(columns, k, i as int);
                }
                return Err(
                    UnsupportedTypeError {
                        source_type: e.source_type,
                        location: Some((table.name.clone(), column.name.clone())),
                    },
                );
            },
        }
        i += 1;
    }
    proof {
        assert(table@.columns.take(i as int) =~= table@.columns);
    }
    Ok(fields)
}

/// The fields of the input row: the fields of the full row with `id` and
/// `created_at` removed, the others in their order.
pub fn input_row_fields(full: &Vec<RowField>) -> (input: Vec<RowField>)
    ensures
        fields_view(input@) == fields_view(full@).filter(insertable_field()),
{
    let mut input: Vec<RowField> = Vec::new();
    let mut i: usize = 0;
    proof {
        reveal(Seq::filter);
        assert(fields_view(full@).take(0) =~= Seq::empty());
    }
    while i < full.len()
        invariant
            0 <= i <= full.len(),
            fields_view(input@) == fields_view(full@).take(i as int).filter(insertable_field()),
        decreases full.len() - i,
    {
        let field = &full[i];
        proof {
            let seen = fields_view(full@).take(i as int);
            assert(fields_view(full@).take(i + 1) =~= seen.push(field@));
            seen.lemma_filter_push(field@, insertable_field());
        }
        if is_insertable(field.name.as_str()) {
            input.push(RowField { name: field.name.clone(), ty: field.ty.clone() });
            assert(fields_view(input@) =~= fields_view(full@).take(i as int).filter(
                insertable_field(),
            ).push(field@));
        }
        i += 1;
    }
    proof {
        assert(fields_view(full@).take(i as int) =~= fields_view(full@));
    }
    input
}

/// The input row has a field for exactly the columns that the insert
/// statement names, in the same order: one rule decides for both which
/// columns a caller supplies.
pub proof fn lemma_input_fields_match_insert_columns(columns: Seq<ColumnSpec>)
    ensures
        field_names(input_fields(columns)) == insertable_names(columns),
    decreases columns.len(),
{
    reveal(Seq::filter);
    if columns.len() == 0 {
        assert(field_names(input_fields(columns)) =~= insertable_names(columns));
    } else {
        let shorter = columns.drop_last();
        let last = columns.last();
        lemma_input_fields_match_insert_columns(shorter);
        assert(full_fields(columns) =~= full_fields(shorter).push(field_of(last)));
        assert(column_names(columns) =~= column_names(shorter).push(last.name));
        full_fields(shorter).lemma_filter_push(field_of(last), insertable_field());
        column_names(shorter).lemma_filter_push(last.name, insertable_name());
        assert(field_names(input_fields(columns)) =~= insertable_names(columns));
    }
}

} // verus!
