//! Emission of the definitions of a table, and the run over a whole
//! catalogue.

use vstd::prelude::*;
use vstd::string::*;
use crate::denylist::{emitted_under, migrations_table, should_emit_under};
use crate::fields::{RowField, fields_view, full_fields, full_row_fields, input_fields, input_row_fields};
use crate::fields::{field_names, insertable_field, lemma_input_fields_match_insert_columns};
use crate::fields::{all_supported, lemma_some_column_is_first_unsupported, supported, unsupported_error};
use crate::grouping::{group_by_table, table_runs};
use crate::insert::{bind_insertable, insert_body, insertable_names};
use crate::naming::{input_row_struct_name, input_row_type_name, row_struct_name, row_type_name};
use crate::schema::{CatalogRow, RowSpec, TableSchema, TableSpec, rows_view, tables_view};
use crate::scope::{FieldDef, FunctionDef, ItemDef, ScopeDef, StructDef};
use crate::scope::{function_arg, function_def, function_line, function_new, function_ret, function_set_async, function_vis};
use crate::scope::{scope_def, scope_import, scope_new, scope_push_fn, scope_push_struct, scope_text, scope_to_string};
use crate::scope::{struct_def, struct_derive, struct_field, struct_new, struct_vis};
use crate::text::strings_view;
use crate::type_map::{UnsupportedTypeError, UnsupportedTypeSpec, rust_type_of};

verus! {

/// A field of a row type as it is declared: visible to every caller.
pub open spec fn public_field(field: FieldDef) -> FieldDef {
    FieldDef { name: "pub "@ + field.name, ty: field.ty }
}

/// The fields as they are declared, in order.
pub open spec fn public_fields(fields: Seq<FieldDef>) -> Seq<FieldDef> {
    fields.map_values(|f: FieldDef| public_field(f))
}

/// A public struct of the given name, derives and fields.
pub open spec fn row_struct(name: Seq<char>, derives: Seq<Seq<char>>, fields: Seq<FieldDef>) -> StructDef {
    StructDef { name, vis: Some("pub"@), derives, fields: public_fields(fields) }
}

/// The type that holds a full row of the table: one field for each column,
/// in the order of the columns.
pub open spec fn full_row_struct(table: TableSpec) -> StructDef {
    row_struct(row_type_name(table.name), seq!["Debug"@, "Clone"@], full_fields(table.columns))
}

/// The type that holds what a caller supplies on insert: the fields of the
/// full row but `id` and `created_at`.
pub open spec fn input_row_struct(table: TableSpec) -> StructDef {
    row_struct(input_row_type_name(table.name), Seq::empty(), input_fields(table.columns))
}

/// The function that inserts an input row into the table and returns the
/// stored row or the database's error.
pub open spec fn insert_function(table: TableSpec) -> FunctionDef {
    FunctionDef {
        name: "insert_"@ + table.name,
        vis: Some("pub"@),
        is_async: true,
        args: seq![
            FieldDef { name: "conn"@, ty: "&PgPool"@ },
            FieldDef { name: "row"@, ty: "&"@ + input_row_type_name(table.name) },
        ],
        ret: Some("Result<"@ + row_type_name(table.name) + ", sqlx::Error>"@),
        body: seq![
            insert_body(row_type_name(table.name), table.name, insertable_names(table.columns)),
        ],
    }
}

/// The definitions of one table: its full-row type, its input-row type and
/// its insert function.
pub open spec fn table_items(table: TableSpec) -> Seq<ItemDef> {
    seq![
        ItemDef::Struct(full_row_struct(table)),
        ItemDef::Struct(input_row_struct(table)),
        ItemDef::Function(insert_function(table)),
    ]
}

/// The scope in which emission starts: it imports the connection pool and
/// holds no definition.
pub open spec fn empty_scope() -> ScopeDef {
    ScopeDef { imports: seq![("sqlx"@, "PgPool"@)], items: Seq::empty() }
}

/// The definitions emitted during one run, in the order of their emission.
pub struct EmissionBuffer {
    scope: codegen::Scope,
}

impl View for EmissionBuffer {
    type V = ScopeDef;

    /// The imports and definitions that the buffer holds.
    closed spec fn view(&self) -> ScopeDef {
        scope_def(self.scope)->Some_0
    }
}

impl EmissionBuffer {
    /// Whether the buffer holds imports and definitions only, as every
    /// buffer made by [`EmissionBuffer::new`] and filled by the functions of
    /// this module does.
    pub closed spec fn well_formed(&self) -> bool {
        scope_def(self.scope) is Some
    }

    /// A buffer that imports the connection pool and holds no definition.
    pub fn new() -> (buffer: EmissionBuffer)
        ensures
            buffer.well_formed(),
            buffer@ == empty_scope(),
    {
        let mut scope = scope_new();
        proof {
            reveal_strlit("PgPool");
        }
        scope_import(&mut scope, "sqlx", "PgPool");
        EmissionBuffer { scope }
    }

    /// The source text of what the buffer holds.
    pub fn render(&self) -> (text: String)
        requires
            self.well_formed(),
        ensures
            text@ == scope_text(self@),
    {
        scope_to_string(&self.scope)
    }
}

/// Declares the fields on a struct, each visible to every caller.
fn declare_fields(item: &mut codegen::Struct, fields: &Vec<RowField>)
    requires
        struct_def(*old(item)) is Some,
    ensures
        struct_def(*final(item)) == Some(
            StructDef {
                fields: struct_def(*old(item))->Some_0.fields + public_fields(
                    fields_view(fields@),
                ),
                ..struct_def(*old(item))->Some_0
            },
        ),
{
    let ghost before = struct_def(*item)->Some_0;
    let mut i: usize = 0;
    assert(public_fields(fields_view(fields@).take(0)) =~= Seq::empty());
    assert(before.fields + Seq::<FieldDef>::empty() =~= before.fields);
    while i < fields.len()
        invariant
            0 <= i <= fields.len(),
            struct_def(*item) == Some(
                StructDef {
                    fields: before.fields + public_fields(fields_view(fields@).take(i as int)),
                    ..before
                },
            ),
        decreases fields.len() - i,
    {
        let field = &fields[i];
        let mut declared = "pub ".to_owned();
        declared.append(field.name.as_str());
        struct_field(item, declared.as_str(), field.ty.as_str());
        proof {
            let seen = fields_view(fields@).take(i as int);
            assert(fields_view(fields@).take(i + 1) =~= seen.push(field@));
            assert(public_fields(seen.push(field@)) =~= public_fields(seen).push(
                public_field(field@),
            ));
            assert((before.fields + public_fields(seen)).push(public_field(field@))
                =~= before.fields + public_fields(seen.push(field@)));
        }
        i += 1;
    }
    proof {
        assert(fields_view(fields@).take(i as int) =~= fields_view(fields@));
    }
}

/// Adds the full-row type and the input-row type of a table to the buffer,
/// in this order. Fails at the first column whose type has no target type,
/// and then leaves the buffer as it was.
pub fn add_structs_for_table(buffer: &mut EmissionBuffer, table: &TableSchema) -> (added: Result<
    (),
    UnsupportedTypeError,
>)
    requires
        old(buffer).well_formed(),
    ensures
        final(buffer).well_formed(),
        match added {
            Ok(()) => unsupported_error(table@) is None && final(buffer)@ == (ScopeDef {
                items: old(buffer)@.items.push(ItemDef::Struct(full_row_struct(table@))).push(
                    ItemDef::Struct(input_row_struct(table@)),
                ),
                ..old(buffer)@
            }),
            Err(e) => unsupported_error(table@) == Some(e@) && final(buffer)@ == old(buffer)@,
        },
{
    let full = match full_row_fields(table) {
        Ok(fields) => fields,
        Err(e) => {
            return Err(e);
        },
    };
    let input = input_row_fields(&full);

    let mut row = struct_new(row_struct_name(table.name.as_str()).as_str());
    struct_derive(&mut row, "Debug");
    struct_derive(&mut row, "Clone");
    struct_vis(&mut row, "pub");
    declare_fields(&mut row, &full);
    proof {
        assert(struct_def(row)->Some_0.derives =~= seq!["Debug"@, "Clone"@]);
        assert(struct_def(row)->Some_0.fields =~= public_fields(full_fields(table@.columns)));
    }
    scope_push_struct(&mut buffer.scope, row);

    let mut input_row = struct_new(input_row_struct_name(table.name.as_str()).as_str());
    struct_vis(&mut input_row, "pub");
    declare_fields(&mut input_row, &input);
    proof {
        assert(struct_def(input_row)->Some_0.fields =~= public_fields(
            input_fields(table@.columns),
        ));
    }
    scope_push_struct(&mut buffer.scope, input_row);
    Ok(())
}

/// Adds the insert function of a table to the buffer.
pub fn add_insert_for_table(buffer: &mut EmissionBuffer, table: &TableSchema)
    requires
        old(buffer).well_formed(),
    ensures
        final(buffer).well_formed(),
        final(buffer)@ == (ScopeDef {
            items: old(buffer)@.items.push(ItemDef::Function(insert_function(table@))),
            ..old(buffer)@
        }),
{
    let table_name = table.name.as_str();
    let row_type = row_struct_name(table_name);

    let mut name = "insert_".to_owned();
    name.append(table_name);
    let mut item = function_new(name.as_str());
    function_set_async(&mut item, true);
    function_vis(&mut item, "pub");
    function_arg(&mut item, "conn", "&PgPool");

    let mut input_type = "&".to_owned();
    input_type.append(input_row_struct_name(table_name).as_str());
    function_arg(&mut item, "row", input_type.as_str());

    let mut returned = "Result<".to_owned();
    returned.append(row_type.as_str());
    returned.append(", sqlx::Error>");
    function_ret(&mut item, returned.as_str());

    let builder = bind_insertable(&table.columns);
    let body = builder.function_body(row_type.as_str(), table_name);
    function_line(&mut item, body.as_str());
    proof {
        assert(function_def(item)->Some_0.args =~= insert_function(table@).args);
        assert(function_def(item)->Some_0.body =~= insert_function(table@).body);
    }
    scope_push_fn(&mut buffer.scope, item);
}

/// The tables for which definitions are emitted under a denylist, as a
/// predicate on tables.
pub open spec fn emitted_table(denylist: Seq<Seq<char>>) -> spec_fn(TableSpec) -> bool {
    |table: TableSpec| emitted_under(table.name, denylist)
}

/// The tables for which definitions are emitted under a denylist, in their
/// order.
pub open spec fn emitted_tables(tables: Seq<TableSpec>, denylist: Seq<Seq<char>>) -> Seq<
    TableSpec,
> {
    tables.filter(emitted_table(denylist))
}

/// The definitions of the tables, one table after the other.
pub open spec fn items_of(tables: Seq<TableSpec>) -> Seq<ItemDef>
    decreases tables.len(),
{
    if tables.len() == 0 {
        Seq::empty()
    } else {
        items_of(tables.drop_last()) + table_items(tables.last())
    }
}

/// The error of the first table that has a column without a target type, if
/// there is such a table.
pub open spec fn first_error(tables: Seq<TableSpec>) -> Option<UnsupportedTypeSpec>
    decreases tables.len(),
{
    if tables.len() == 0 {
        None
    } else {
        match first_error(tables.drop_last()) {
            Some(e) => Some(e),
            None => unsupported_error(tables.last()),
        }
    }
}

/// The scope that a run over the tables fills: the import of the connection
/// pool and the definitions of the tables.
pub open spec fn scope_of(tables: Seq<TableSpec>) -> ScopeDef {
    ScopeDef { items: items_of(tables), ..empty_scope() }
}

/// An error among the first tables stays the first error when more tables
/// follow.
pub proof fn lemma_first_error_stays(tables: Seq<TableSpec>, more: Seq<TableSpec>)
    requires
        first_error(tables) is Some,
    ensures
        first_error(tables + more) == first_error(tables),
    decreases more.len(),
{
    if more.len() == 0 {
        assert(tables + more =~= tables);
    } else {
        lemma_first_error_stays(tables, more.drop_last());
        assert((tables + more).drop_last() =~= tables + more.drop_last());
    }
}

/// A run over the tables fails exactly where some table has a column whose
/// type has no target type, and the error then names such a type, with the
/// table and the column at which it stands.
pub proof fn lemma_unsupported_type_fails(tables: Seq<TableSpec>)
    ensures
        first_error(tables) is None <==> forall|g: int|
            0 <= g < tables.len() ==> all_supported((#[trigger] tables[g]).columns),
        first_error(tables) matches Some(e) ==> rust_type_of(e.source_type) is None
            && e.location is Some,
    decreases tables.len(),
{
    if tables.len() > 0 {
        let shorter = tables.drop_last();
        let last = tables.last();
        lemma_unsupported_type_fails(shorter);
        if first_error(shorter) is None {
            assert forall|g: int| 0 <= g < shorter.len() implies all_supported(
                (#[trigger] tables[g]).columns,
            ) by {
                assert(shorter[g] == tables[g]);
            }
            if !all_supported(last.columns) {
                let j = choose|j: int| 0 <= j < last.columns.len() && !supported(last.columns[j]);
                lemma_some_column_is_first_unsupported(last.columns, j);
                assert(!all_supported(tables[tables.len() - 1].columns));
            }
        } else {
            let g = choose|g: int| 0 <= g < shorter.len() && !all_supported(shorter[g].columns);
            assert(shorter[g] == tables[g]);
        }
    }
}

/// No definition is emitted for the migration bookkeeping table or for a
/// table of the denylist: every emitted table has another name, and the
/// emitted definitions are those of the emitted tables, three for each.
pub proof fn lemma_denied_tables_absent(tables: Seq<TableSpec>, denylist: Seq<Seq<char>>)
    ensures
        forall|g: int|
            0 <= g < emitted_tables(tables, denylist).len() ==> {
                let table = #[trigger] emitted_tables(tables, denylist)[g];
                &&& table.name != migrations_table()
                &&& !denylist.contains(table.name)
                &&& tables.contains(table)
            },
        items_of(emitted_tables(tables, denylist)).len() == 3 * emitted_tables(
            tables,
            denylist,
        ).len(),
        forall|g: int, part: int|
            0 <= g < emitted_tables(tables, denylist).len() && 0 <= part < 3 ==> items_of(
                emitted_tables(tables, denylist),
            )[3 * g + part] == #[trigger] table_items(emitted_tables(tables, denylist)[g])[part],
{
    let kept = emitted_tables(tables, denylist);
    assert forall|g: int| 0 <= g < kept.len() implies {
        let table = #[trigger] kept[g];
        &&& table.name != migrations_table()
        &&& !denylist.contains(table.name)
        &&& tables.contains(table)
    } by {
        tables.lemma_filter_pred(emitted_table(denylist), g);
        assert(kept.contains(kept[g]));
        tables.lemma_filter_contains_rev(emitted_table(denylist), kept[g]);
    }
    lemma_items_by_table(kept);
}

/// The input-row type declares exactly the fields of the full-row type but
/// those of `id` and `created_at`, in the same order.
pub proof fn lemma_input_row_drops_generated_columns(table: TableSpec)
    ensures
        full_row_struct(table).fields == public_fields(full_fields(table.columns)),
        input_row_struct(table).fields == public_fields(
            full_fields(table.columns).filter(insertable_field()),
        ),
        field_names(input_fields(table.columns)) == insertable_names(table.columns),
{
    lemma_input_fields_match_insert_columns(table.columns);
}

/// The definitions of the tables are three for each table, in the order of
/// the tables.
pub proof fn lemma_items_by_table(tables: Seq<TableSpec>)
    ensures
        items_of(tables).len() == 3 * tables.len(),
        forall|g: int, part: int|
            0 <= g < tables.len() && 0 <= part < 3 ==> items_of(tables)[3 * g + part]
                == #[trigger] table_items(tables[g])[part],
    decreases tables.len(),
{
    if tables.len() > 0 {
        let shorter = tables.drop_last();
        lemma_items_by_table(shorter);
        assert forall|g: int, part: int|
            0 <= g < tables.len() && 0 <= part < 3 implies items_of(tables)[3 * g + part]
            == #[trigger] table_items(tables[g])[part] by {
            if g < shorter.len() {
                assert(shorter[g] == tables[g]);
                assert(items_of(shorter)[3 * g + part] == table_items(shorter[g])[part]);
            }
        }
    }
}

/// Emits the definitions of the tables that the denylist lets through, in
/// the order of the tables, and gives the source text. Fails at the first
/// such table that has a column without a target type, and gives no text
/// then.
pub fn emit_tables(tables: &Vec<TableSchema>, denylist: &Vec<String>) -> (emitted: Result<
    String,
    UnsupportedTypeError,
>)
    ensures
        match emitted {
            Ok(text) => {
                &&& first_error(
                    emitted_tables(tables_view(tables@), strings_view(denylist@)),
                ) is None
                &&& text@ == scope_text(
                    scope_of(emitted_tables(tables_view(tables@), strings_view(denylist@))),
                )
            },
            Err(e) => first_error(emitted_tables(tables_view(tables@), strings_view(denylist@)))
                == Some(e@),
        },
{
    let ghost all = tables_view(tables@);
    let ghost keep = emitted_table(strings_view(denylist@));
    let mut buffer = EmissionBuffer::new();
    let mut i: usize = 0;
    proof {
        reveal(Seq::filter);
        assert(all.take(0) =~= Seq::empty());
    }
    while i < tables.len()
        invariant
            0 <= i <= tables.len(),
            all == tables_view(tables@),
            keep == emitted_table(strings_view(denylist@)),
            buffer.well_formed(),
            first_error(all.take(i as int).filter(keep)) is None,
            buffer@ == scope_of(all.take(i as int).filter(keep)),
        decreases tables.len() - i,
    {
        let table = &tables[i];
        let ghost seen = all.take(i as int);
        let ghost done = seen.filter(keep);
        proof {
            assert(all.take(i + 1) =~= seen.push(table@));
            seen.lemma_filter_push(table@, keep);
        }
        if should_emit_under(table.name.as_str(), denylist) {
            proof {
                assert(done.push(table@).drop_last() =~= done);
            }
            match add_structs_for_table(&mut buffer, table) {
                Ok(()) => {},
                Err(e) => {
                    proof {
                        let rest = all.skip(i + 1);
                        assert(all =~= all.take(i + 1) + rest);
                        Seq::filter_distributes_over_add(all.take(i + 1), rest, keep);
                        lemma_first_error_stays(done.push(table@), rest.filter(keep));
                    }
                    return Err(e);
                },
            }
            add_insert_for_table(&mut buffer, table);
            proof {
                assert(buffer@.items =~= items_of(done) + table_items(table@));
            }
        }
        i += 1;
    }
    proof {
        assert(all.take(i as int) =~= all);
    }
    Ok(buffer.render())
}

/// Generates the source text for a catalogue under a denylist: the rows are
/// grouped into tables, and the definitions of each table that the denylist
/// lets through are emitted. The rows are expected ordered by table name and
/// then by column position. Fails at the first emitted table that has a
/// column without a target type, and gives no text then.
pub fn generate_under(rows: &Vec<CatalogRow>, denylist: &Vec<String>) -> (generated: Result<
    String,
    UnsupportedTypeError,
>)
    ensures
        match generated {
            Ok(text) => {
                &&& first_error(
                    emitted_tables(table_runs(rows_view(rows@)), strings_view(denylist@)),
                ) is None
                &&& text@ == scope_text(
                    scope_of(emitted_tables(table_runs(rows_view(rows@)), strings_view(denylist@))),
                )
            },
            Err(e) => first_error(
                emitted_tables(table_runs(rows_view(rows@)), strings_view(denylist@)),
            ) == Some(e@),
        },
{
    let tables = group_by_table(rows);
    emit_tables(&tables, denylist)
}

/// Generates the source text for a catalogue, leaving out the migration
/// bookkeeping table only.
pub fn generate(rows: &Vec<CatalogRow>) -> (generated: Result<String, UnsupportedTypeError>)
    ensures
        match generated {
            Ok(text) => {
                &&& first_error(
                    emitted_tables(table_runs(rows_view(rows@)), Seq::empty()),
                ) is None
                &&& text@ == scope_text(
                    scope_of(emitted_tables(table_runs(rows_view(rows@)), Seq::empty())),
                )
            },
            Err(e) => first_error(emitted_tables(table_runs(rows_view(rows@)), Seq::empty()))
                == Some(e@),
        },
{
    let denylist: Vec<String> = Vec::new();
    assert(strings_view(denylist@) =~= Seq::empty());
    generate_under(rows, &denylist)
}

} // verus!
