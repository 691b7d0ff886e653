//! Names of the generated definitions.

use vstd::prelude::*;
use vstd::string::*;

verus! {

/// The text that `inflector::cases::pascalcase::to_pascal_case` gives for
/// `s`.
pub uninterp spec fn pascal_case(s: Seq<char>) -> Seq<char>;

/// Whether `c` is a lower-case letter of the basic Latin alphabet.
pub open spec fn is_lower(c: char) -> bool {
    'a' <= c && c <= 'z'
}

/// Whether `c` is a decimal digit.
pub open spec fn is_digit(c: char) -> bool {
    '0' <= c && c <= '9'
}

/// Whether `s` is written in lower-case letters, digits and underscores
/// only.
pub open spec fn is_snake_case(s: Seq<char>) -> bool {
    forall|i: int| 0 <= i < s.len() ==> is_lower(#[trigger] s[i]) || is_digit(s[i]) || s[i] == '_'
}

/// The upper-case form of a lower-case letter; any other character is kept.
pub open spec fn upper(c: char) -> char {
    if is_lower(c) {
        ((c as u8) - 32) as char
    } else {
        c
    }
}

/// The words of `s` joined without their separators, each word with its
/// first letter in upper case. An underscore separates two words and is
/// dropped; a digit is kept and ends a word. `word_start` says whether a
/// letter at the front of `s` begins a word.
pub open spec fn capitalized(s: Seq<char>, word_start: bool) -> Seq<char>
    decreases s.len(),
{
    if s.len() == 0 {
        Seq::empty()
    } else if s[0] == '_' {
        capitalized(s.drop_first(), true)
    } else if is_digit(s[0]) {
        seq![s[0]] + capitalized(s.drop_first(), true)
    } else {
        seq![if word_start { upper(s[0]) } else { s[0] }] + capitalized(s.drop_first(), false)
    }
}

/// The type name that stands for a table name.
pub open spec fn type_name_of(table_name: Seq<char>) -> Seq<char> {
    pascal_case(table_name)
}

/// `inflector::cases::pascalcase::to_pascal_case`: the result depends on
/// the text alone. For text in lower-case letters, digits and underscores
/// the function drops the underscores, puts into upper case each letter that
/// begins the text or follows an underscore or a digit, and keeps every
/// other character.
#[verifier::external_body]
fn to_pascal_case(s: &str) -> (name: String)
    ensures
        name@ == pascal_case(s@),
        is_snake_case(s@) ==> name@ == capitalized(s@, true),
{
    inflector::cases::pascalcase::to_pascal_case(s)
}

/// Turns a table name into a type name. A name in lower-case letters, digits
/// and underscores becomes its words, each capitalized, without the
/// underscores.
pub fn to_type_name(table_name: &str) -> (name: String)
    ensures
        name@ == type_name_of(table_name@),
        is_snake_case(table_name@) ==> name@ == capitalized(table_name@, true),
{
    to_pascal_case(table_name)
}

/// The name of the type that holds a full row of a table.
pub open spec fn row_type_name(table_name: Seq<char>) -> Seq<char> {
    type_name_of(table_name) + "Row"@
}

/// The name of the type that holds what a caller supplies on insert.
pub open spec fn input_row_type_name(table_name: Seq<char>) -> Seq<char> {
    type_name_of(table_name) + "InputRow"@
}

/// The name of the full-row type of the table `table_name`.
pub fn row_struct_name(table_name: &str) -> (name: String)
    ensures
        name@ == row_type_name(table_name@),
        is_snake_case(table_name@) ==> name@ == capitalized(table_name@, true) + "Row"@,
{
    let mut name = to_type_name(table_name);
    name.append("Row");
    name
}

/// The name of the input-row type of the table `table_name`.
pub fn input_row_struct_name(table_name: &str) -> (name: String)
    ensures
        name@ == input_row_type_name(table_name@),
        is_snake_case(table_name@) ==> name@ == capitalized(table_name@, true) + "InputRow"@,
{
    let mut name = to_type_name(table_name);
    name.append("InputRow");
    name
}

} // verus!
