//! The mapping from the database's column types to the types of the
//! generated row definitions.

use vstd::prelude::*;
use vstd::string::*;
use crate::text::str_eq;

verus! {

/// A column type for which no target type is defined.
#[derive(Clone, Debug, PartialEq, Eq)]
pub struct UnsupportedTypeError {
    /// The column type as the catalogue names it.
    pub source_type: String,
    /// The table and the column at which the type was met, where known.
    pub location: Option<(String, String)>,
}

/// The mathematical value of an [`UnsupportedTypeError`].
pub struct UnsupportedTypeSpec {
    pub source_type: Seq<char>,
    pub location: Option<(Seq<char>, Seq<char>)>,
}

impl View for UnsupportedTypeError {
    type V = UnsupportedTypeSpec;

    open spec fn view(&self) -> UnsupportedTypeSpec {
        UnsupportedTypeSpec {
            source_type: self.source_type@,
            location: match self.location {
                Some((table, column)) => Some((table@, column@)),
                None => None,
            },
        }
    }
}

impl UnsupportedTypeError {
    /// A one-line description of the error.
    pub fn message(&self) -> (text: String)
        ensures
            text@ == unsupported_message(self@),
    {
        let mut text = "Unknown type: ".to_owned();
        text.append(self.source_type.as_str());
        match &self.location {
            Some((table, column)) => {
                text.append(" (column ");
                text.append(table.as_str());
                text.append(".");
                text.append(column.as_str());
                text.append(")");
            },
            None => {},
        }
        assert(text@ =~= unsupported_message(self@));
        text
    }
}

/// The description of an unsupported type: the type, and the column where
/// it is known.
pub open spec fn unsupported_message(e: UnsupportedTypeSpec) -> Seq<char> {
    match e.location {
        Some((table, column)) => "Unknown type: "@ + e.source_type + " (column "@ + table + "."@
            + column + ")"@,
        None => "Unknown type: "@ + e.source_type,
    }
}

/// The target type of a column type, where one is defined.
pub open spec fn rust_type_of(source_type: Seq<char>) -> Option<Seq<char>> {
    if source_type == "integer"@ {
        Some("i32"@)
    } else if source_type == "bigint"@ {
        Some("i64"@)
    } else if source_type == "real"@ {
        Some("f32"@)
    } else if source_type == "text"@ {
        Some("String"@)
    } else if source_type == "character varying"@ {
        Some("String"@)
    } else if source_type == "timestamp with time zone"@ {
        Some("chrono::DateTime<chrono::Utc>"@)
    } else if source_type == "boolean"@ {
        Some("bool"@)
    } else if source_type == "bytea"@ {
        Some("Vec<u8>"@)
    } else if source_type == "USER-DEFINED"@ {
        Some("()"@)
    } else if source_type == "numeric"@ {
        Some("bigdecimal::BigDecimal"@)
    } else {
        None
    }
}

/// The optional form of a target type.
pub open spec fn optional_of(target: Seq<char>) -> Seq<char> {
    "Option<"@ + target + ">"@
}

/// The type of the field that holds a column: the target type of the
/// column's type, in its optional form where the column is nullable.
pub open spec fn field_type_of(source_type: Seq<char>, nullable: bool) -> Option<Seq<char>> {
    match rust_type_of(source_type) {
        Some(target) => Some(if nullable { optional_of(target) } else { target }),
        None => None,
    }
}

/// Maps a column type to its target type, and fails on a column type that
/// has none.
pub fn pg_type_to_rs_type(pg_type: &str) -> (mapped: Result<String, UnsupportedTypeError>)
    ensures
        match mapped {
            Ok(target) => rust_type_of(pg_type@) == Some(target@),
            Err(e) => rust_type_of(pg_type@) is None && e@ == (UnsupportedTypeSpec {
                source_type: pg_type@,
                location: None,
            }),
        },
{
    let target = if str_eq(pg_type, "integer") {
        "i32"
    } else if str_eq(pg_type, "bigint") {
        "i64"
    } else if str_eq(pg_type, "real") {
        "f32"
    } else if str_eq(pg_type, "text") {
        "String"
    } else if str_eq(pg_type, "character varying") {
        "String"
    } else if str_eq(pg_type, "timestamp with time zone") {
        "chrono::DateTime<chrono::Utc>"
    } else if str_eq(pg_type, "boolean") {
        "bool"
    } else if str_eq(pg_type, "bytea") {
        "Vec<u8>"
    } else if str_eq(pg_type, "USER-DEFINED") {
        "()"
    } else if str_eq(pg_type, "numeric") {
        "bigdecimal::BigDecimal"
    } else {
        return Err(UnsupportedTypeError { source_type: pg_type.to_owned(), location: None });
    };
    Ok(target.to_owned())
}

/// The type of the field that holds a column of the given type and
/// nullability; fails on a column type that has no target type.
pub fn field_type(source_type: &str, nullable: bool) -> (mapped: Result<
    String,
    UnsupportedTypeError,
>)
    ensures
        match mapped {
            Ok(ty) => field_type_of(source_type@, nullable) == Some(ty@),
            Err(e) => field_type_of(source_type@, nullable) is None && e@ == (UnsupportedTypeSpec {
                source_type: source_type@,
                location: None,
            }),
        },
{
    match pg_type_to_rs_type(source_type) {
        Ok(target) => {
            if nullable {
                let mut ty = "Option<".to_owned();
                ty.append(target.as_str());
                ty.append(">");
                Ok(ty)
            } else {
                Ok(target)
            }
        },
        Err(e) => Err(e),
    }
}

/// A nullable column of a supported type gets the optional form of the type
/// that the same column gets where it is not nullable, wrapped once.
pub proof fn lemma_nullable_wraps_once(source_type: Seq<char>)
    requires
        rust_type_of(source_type) is Some,
    ensures
        field_type_of(source_type, false) == rust_type_of(source_type),
        field_type_of(source_type, true) == Some(
            optional_of(field_type_of(source_type, false)->Some_0),
        ),
{
}

/// Whether a column type has a target type depends on the type alone, not on
/// the column's nullability.
pub proof fn lemma_support_ignores_nullability(source_type: Seq<char>, nullable: bool)
    ensures
        field_type_of(source_type, nullable) is Some <==> rust_type_of(source_type) is Some,
{
}

} // verus!
