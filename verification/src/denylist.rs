//! Tables that are left out of code generation.

use vstd::prelude::*;
use vstd::string::*;
use crate::text::{str_eq, strings_view};

verus! {

/// The name of the migration bookkeeping table, for which nothing is ever
/// emitted.
pub open spec fn migrations_table() -> Seq<char> {
    "_sqlx_migrations"@
}

/// Whether definitions are emitted for a table of this name.
pub open spec fn emitted(table_name: Seq<char>) -> bool {
    table_name != migrations_table()
}

/// Whether definitions are emitted for a table of this name where the
/// tables named in `denylist` are left out as well.
pub open spec fn emitted_under(table_name: Seq<char>, denylist: Seq<Seq<char>>) -> bool {
    emitted(table_name) && !denylist.contains(table_name)
}

/// Decides whether definitions are emitted for the table `table_name`:
/// for every table but the migration bookkeeping table.
pub fn should_emit(table_name: &str) -> (emit: bool)
    ensures
        emit == emitted(table_name@),
{
    !str_eq(table_name, "_sqlx_migrations")
}

/// Decides whether definitions are emitted for the table `table_name` under
/// a denylist: for every table that is neither the migration bookkeeping
/// table nor named in `denylist`.
pub fn should_emit_under(table_name: &str, denylist: &Vec<String>) -> (emit: bool)
    ensures
        emit == emitted_under(table_name@, strings_view(denylist@)),
{
    if !should_emit(table_name) {
        return false;
    }
    let mut i: usize = 0;
    while i < denylist.len()
        invariant
            0 <= i <= denylist.len(),
            emitted(table_name@),
            forall|j: int| 0 <= j < i ==> strings_view(denylist@)[j] != table_name@,
        decreases denylist.len() - i,
    {
        if str_eq(denylist[i].as_str(), table_name) {
            assert(strings_view(denylist@)[i as int] == table_name@);
            return false;
        }
        i += 1;
    }
    true
}

} // verus!
