//! The insert statement of a table: which columns it names, and how column
//! names, placeholders and bound values are kept in step.

use vstd::prelude::*;
use vstd::string::*;
use crate::schema::{ColumnInfo, ColumnSpec, columns_view};
use crate::text::{decimal, decimal_string, join, joined, str_eq, strings_view};

verus! {

/// Whether a caller supplies the column of this name on insert. The columns
/// `id` and `created_at` are filled by the database.
pub open spec fn insertable(name: Seq<char>) -> bool {
    name != "id"@ && name != "created_at"@
}

/// [`insertable`] as a predicate on names.
pub open spec fn insertable_name() -> spec_fn(Seq<char>) -> bool {
    |name: Seq<char>| insertable(name)
}

/// The names of the columns, in order.
pub open spec fn column_names(columns: Seq<ColumnSpec>) -> Seq<Seq<char>> {
    columns.map_values(|c: ColumnSpec| c.name)
}

/// The names of the columns that a caller supplies on insert, in the order
/// of the columns.
pub open spec fn insertable_names(columns: Seq<ColumnSpec>) -> Seq<Seq<char>> {
    column_names(columns).filter(insertable_name())
}

/// The placeholder with the number `n`.
pub open spec fn placeholder(n: nat) -> Seq<char> {
    seq!['$'] + decimal(n)
}

/// The placeholders with the numbers from 1 to `count`, in order.
pub open spec fn placeholders(count: nat) -> Seq<Seq<char>> {
    Seq::new(count, |i: int| placeholder((i + 1) as nat))
}

/// The expression that reads the field `name` of the input row.
pub open spec fn row_argument(name: Seq<char>) -> Seq<char> {
    "row."@ + name
}

/// The expressions that read the fields of these names, in order.
pub open spec fn row_arguments(names: Seq<Seq<char>>) -> Seq<Seq<char>> {
    names.map_values(|name: Seq<char>| row_argument(name))
}

/// The text of the statement that inserts a row with the given columns into
/// `table` and returns the stored row.
pub open spec fn insert_statement(table: Seq<char>, names: Seq<Seq<char>>) -> Seq<char> {
    "INSERT INTO "@ + table + " ("@ + joined(names, ", "@) + ") VALUES ("@ + joined(
        placeholders(names.len()),
        ", "@,
    ) + ") RETURNING *"@
}

/// The body of the generated insert function: it runs the insert statement
/// of `table` with the input row's fields as values, in the order of the
/// columns, and returns the stored row as a `row_type`.
pub open spec fn insert_body(row_type: Seq<char>, table: Seq<char>, names: Seq<Seq<char>>) -> Seq<
    char,
> {
    "\n    let result = sqlx::query_as!("@ + row_type + ",\n        r#\""@ + insert_statement(
        table,
        names,
    ) + "\"#,\n        "@ + joined(row_arguments(names), ", "@)
        + "\n    )\n    .fetch_one(conn)\n    .await?;\n    Ok(result)"@
}

/// Whether a caller supplies the column `name` on insert.
pub fn is_insertable(name: &str) -> (supplied: bool)
    ensures
        supplied == insertable(name@),
{
    !str_eq(name, "id") && !str_eq(name, "created_at")
}

/// Builds the three lists of an insert statement, one column at a time: the
/// column names, the placeholders and the values bound to them.
pub struct InsertBuilder {
    columns: Vec<String>,
    placeholders: Vec<String>,
    arguments: Vec<String>,
    count: usize,
}

impl View for InsertBuilder {
    type V = Seq<Seq<char>>;

    /// The names of the columns bound so far, in order.
    closed spec fn view(&self) -> Seq<Seq<char>> {
        strings_view(self.columns@)
    }
}

impl InsertBuilder {
    /// Whether the three lists are in step: the placeholders are numbered
    /// from 1 in the order of the columns, and the value at each position
    /// is the input row's field of the column at that position.
    pub closed spec fn in_step(&self) -> bool {
        &&& self.count == self.columns@.len()
        &&& strings_view(self.placeholders@) == placeholders(self.columns@.len())
        &&& strings_view(self.arguments@) == row_arguments(strings_view(self.columns@))
    }

    /// A builder with no column bound.
    pub fn new() -> (builder: InsertBuilder)
        ensures
            builder.in_step(),
            builder@ == Seq::<Seq<char>>::empty(),
    {
        let builder = InsertBuilder {
            columns: Vec::new(),
            placeholders: Vec::new(),
            arguments: Vec::new(),
            count: 0,
        };
        assert(strings_view(builder.columns@) =~= Seq::empty());
        assert(strings_view(builder.placeholders@) =~= placeholders(0));
        assert(strings_view(builder.arguments@) =~= row_arguments(Seq::empty()));
        builder
    }

    /// The number of columns bound so far.
    pub fn len(&self) -> (count: usize)
        requires
            self.in_step(),
        ensures
            count == self@.len(),
    {
        self.count
    }

    /// Binds one more column: its name, the next placeholder and the input
    /// row's field of that name are appended together.
    pub fn bind(&mut self, column: &str)
        requires
            old(self).in_step(),
            old(self)@.len() < usize::MAX,
        ensures
            final(self).in_step(),
            final(self)@ == old(self)@.push(column@),
    {
        let number = self.count + 1;
        let mut mark = "$".to_owned();
        mark.append(decimal_string(number).as_str());
        let mut argument = "row.".to_owned();
        argument.append(column);
        proof {
            reveal_strlit("$");
            assert(mark@ =~= placeholder(number as nat));
        }
        let ghost before = *self;
        self.columns.push(column.to_owned());
        self.placeholders.push(mark);
        self.arguments.push(argument);
        self.count = number;
        proof {
            let names = strings_view(before.columns@);
            assert(strings_view(self.columns@) =~= names.push(column@));
            assert(strings_view(self.placeholders@) =~= strings_view(before.placeholders@).push(
                placeholder(number as nat),
            ));
            assert(placeholders(names.len()).push(placeholder(number as nat)) =~= placeholders(
                names.len() + 1,
            ));
            assert(strings_view(self.arguments@) =~= strings_view(before.arguments@).push(
                row_argument(column@),
            ));
            assert(row_arguments(names).push(row_argument(column@)) =~= row_arguments(
                names.push(column@),
            ));
        }
    }

    /// The column names, separated by a comma and a space.
    pub fn column_list(&self) -> (text: String)
        requires
            self.in_step(),
        ensures
            text@ == joined(self@, ", "@),
    {
        proof {
            reveal_strlit(", ");
        }
        join(&self.columns, ", ")
    }

    /// The placeholders, separated by a comma and a space.
    pub fn placeholder_list(&self) -> (text: String)
        requires
            self.in_step(),
        ensures
            text@ == joined(placeholders(self@.len()), ", "@),
    {
        proof {
            reveal_strlit(", ");
        }
        join(&self.placeholders, ", ")
    }

    /// The bound values, separated by a comma and a space.
    pub fn argument_list(&self) -> (text: String)
        requires
            self.in_step(),
        ensures
            text@ == joined(row_arguments(self@), ", "@),
    {
        proof {
            reveal_strlit(", ");
        }
        join(&self.arguments, ", ")
    }

    /// The text of the statement that inserts the bound columns into
    /// `table`.
    pub fn statement(&self, table: &str) -> (text: String)
        requires
            self.in_step(),
        ensures
            text@ == insert_statement(table@, self@),
    {
        let mut text = "INSERT INTO ".to_owned();
        text.append(table);
        text.append(" (");
        text.append(self.column_list().as_str());
        text.append(") VALUES (");
        text.append(self.placeholder_list().as_str());
        text.append(") RETURNING *");
        text
    }

    /// The body of the generated function that inserts the bound columns
    /// into `table` and returns the stored row as a `row_type`.
    pub fn function_body(&self, row_type: &str, table: &str) -> (text: String)
        requires
            self.in_step(),
        ensures
            text@ == insert_body(row_type@, table@, self@),
    {
        let mut text = "\n    let result = sqlx::query_as!(".to_owned();
        text.append(row_type);
        text.append(",\n        r#\"");
        text.append(self.statement(table).as_str());
        text.append("\"#,\n        ");
        text.append(self.argument_list().as_str());
        text.append("\n    )\n    .fetch_one(conn)\n    .await?;\n    Ok(result)");
        text
    }
}

/// Binds the columns that a caller supplies on insert, in the order of the
/// columns.
pub fn bind_insertable(columns: &Vec<ColumnInfo>) -> (builder: InsertBuilder)
    ensures
        builder.in_step(),
        builder@ == insertable_names(columns_view(columns@)),
{
    let mut builder = InsertBuilder::new();
    let mut i: usize = 0;
    proof {
        reveal(Seq::filter);
        assert(column_names(columns_view(columns@).take(0)) =~= Seq::empty());
    }
    while i < columns.len()
        invariant
            0 <= i <= columns.len(),
            builder.in_step(),
            builder@.len() <= i,
            builder@ == insertable_names(columns_view(columns@).take(i as int)),
        decreases columns.len() - i,
    {
        let ghost seen = column_names(columns_view(columns@).take(i as int));
        proof {
            assert(column_names(columns_view(columns@).take(i + 1)) =~= seen.push(
                columns[i as int]@.name,
            ));
            seen.lemma_filter_push(columns[i as int]@.name, insertable_name());
        }
        if is_insertable(columns[i].name.as_str()) {
            builder.bind(columns[i].name.as_str());
        }
        i += 1;
    }
    proof {
        assert(columns_view(columns@).take(i as int) =~= columns_view(columns@));
    }
    builder
}

/// The numbered placeholders are as many as the columns, and the value at
/// each position is the input row's field of the column at that position:
/// the Nth placeholder carries the number N and binds the Nth column.
pub proof fn lemma_placeholders_bind_columns(names: Seq<Seq<char>>)
    ensures
        placeholders(names.len()).len() == names.len(),
        row_arguments(names).len() == names.len(),
        forall|n: int|
            0 <= n < names.len() ==> #[trigger] placeholders(names.len())[n] == seq!['$'] + decimal(
                (n + 1) as nat,
            ),
        forall|n: int|
            0 <= n < names.len() ==> #[trigger] row_arguments(names)[n] == "row."@ + names[n],
{
}

} // verus!
