//! The code builder that holds the emitted definitions, and what is assumed
//! of it.
//!
//! The builder's values are opaque here. What one holds is named by a spec
//! function without a body, and each function of this module calls one
//! function of the builder and states what the call does to the named
//! contents. None of these contracts is proved: they are read off the
//! builder's source.

use vstd::prelude::*;

verus! {

/// A named field of a struct, or a named argument of a function: its name
/// and the text of its type.
pub struct FieldDef {
    pub name: Seq<char>,
    pub ty: Seq<char>,
}

/// What a struct definition holds.
pub struct StructDef {
    pub name: Seq<char>,
    pub vis: Option<Seq<char>>,
    pub derives: Seq<Seq<char>>,
    pub fields: Seq<FieldDef>,
}

/// What a function definition holds.
pub struct FunctionDef {
    pub name: Seq<char>,
    pub vis: Option<Seq<char>>,
    pub is_async: bool,
    pub args: Seq<FieldDef>,
    pub ret: Option<Seq<char>>,
    pub body: Seq<Seq<char>>,
}

/// One definition of a scope.
pub enum ItemDef {
    Struct(StructDef),
    Function(FunctionDef),
}

/// What a scope holds: its imports, each a path and a type name, and its
/// definitions, both in the order in which they were added.
pub struct ScopeDef {
    pub imports: Seq<(Seq<char>, Seq<char>)>,
    pub items: Seq<ItemDef>,
}

#[verifier::external_type_specification]
#[verifier::external_body]
pub struct ExStruct(codegen::Struct);

#[verifier::external_type_specification]
#[verifier::external_body]
pub struct ExFunction(codegen::Function);

#[verifier::external_type_specification]
#[verifier::external_body]
pub struct ExScope(codegen::Scope);

/// The definition that a `codegen::Struct` holds, where it holds nothing
/// else: no documentation, generics, bounds, attributes or tuple fields.
pub uninterp spec fn struct_def(s: codegen::Struct) -> Option<StructDef>;

/// The definition that a `codegen::Function` holds, where it holds nothing
/// else: a body of text pieces only, and no documentation, generics, bounds,
/// attributes, receiver or `const`.
pub uninterp spec fn function_def(f: codegen::Function) -> Option<FunctionDef>;

/// The imports and definitions that a `codegen::Scope` holds, where it
/// holds nothing else: no documentation, no import with a visibility, and
/// only structs and functions that hold nothing but their definitions.
pub uninterp spec fn scope_def(s: codegen::Scope) -> Option<ScopeDef>;

/// The text that `codegen::Scope::to_string` gives for a scope with these
/// contents.
pub uninterp spec fn scope_text(def: ScopeDef) -> Seq<char>;

/// `codegen::Struct::new`: a struct of the given name without visibility,
/// derives or fields.
#[verifier::external_body]
pub(crate) fn struct_new(name: &str) -> (s: codegen::Struct)
    ensures
        struct_def(s) == Some(
            StructDef { name: name@, vis: None, derives: Seq::empty(), fields: Seq::empty() },
        ),
{
    codegen::Struct::new(name)
}

/// `codegen::Struct::vis`: sets the visibility and leaves the rest.
#[verifier::external_body]
pub(crate) fn struct_vis(s: &mut codegen::Struct, vis: &str)
    requires
        struct_def(*old(s)) is Some,
    ensures
        struct_def(*final(s)) == Some(
            StructDef { vis: Some(vis@), ..struct_def(*old(s))->Some_0 },
        ),
{
    s.vis(vis);
}

/// `codegen::Struct::derive`: appends one derive and leaves the rest.
#[verifier::external_body]
pub(crate) fn struct_derive(s: &mut codegen::Struct, name: &str)
    requires
        struct_def(*old(s)) is Some,
    ensures
        struct_def(*final(s)) == Some(
            StructDef {
                derives: struct_def(*old(s))->Some_0.derives.push(name@),
                ..struct_def(*old(s))->Some_0
            },
        ),
{
    s.derive(name);
}

/// `codegen::Struct::field`: appends one named field and leaves the rest.
/// The struct holds no tuple fields, with which `field` would panic.
#[verifier::external_body]
pub(crate) fn struct_field(s: &mut codegen::Struct, name: &str, ty: &str)
    requires
        struct_def(*old(s)) is Some,
    ensures
        struct_def(*final(s)) == Some(
            StructDef {
                fields: struct_def(*old(s))->Some_0.fields.push(FieldDef { name: name@, ty: ty@ }),
                ..struct_def(*old(s))->Some_0
            },
        ),
{
    s.field(name, ty);
}

/// `codegen::Function::new`: a function of the given name that is neither
/// visible nor async, with no arguments, no return type and an empty body.
#[verifier::external_body]
pub(crate) fn function_new(name: &str) -> (f: codegen::Function)
    ensures
        function_def(f) == Some(
            FunctionDef {
                name: name@,
                vis: None,
                is_async: false,
                args: Seq::empty(),
                ret: None,
                body: Seq::empty(),
            },
        ),
{
    codegen::Function::new(name)
}

/// `codegen::Function::set_async`: sets whether the function is async and
/// leaves the rest.
#[verifier::external_body]
pub(crate) fn function_set_async(f: &mut codegen::Function, is_async: bool)
    requires
        function_def(*old(f)) is Some,
    ensures
        function_def(*final(f)) == Some(
            FunctionDef { is_async, ..function_def(*old(f))->Some_0 },
        ),
{
    f.set_async(is_async);
}

/// `codegen::Function::vis`: sets the visibility and leaves the rest.
#[verifier::external_body]
pub(crate) fn function_vis(f: &mut codegen::Function, vis: &str)
    requires
        function_def(*old(f)) is Some,
    ensures
        function_def(*final(f)) == Some(
            FunctionDef { vis: Some(vis@), ..function_def(*old(f))->Some_0 },
        ),
{
    f.vis(vis);
}

/// `codegen::Function::arg`: appends one argument and leaves the rest.
#[verifier::external_body]
pub(crate) fn function_arg(f: &mut codegen::Function, name: &str, ty: &str)
    requires
        function_def(*old(f)) is Some,
    ensures
        function_def(*final(f)) == Some(
            FunctionDef {
                args: function_def(*old(f))->Some_0.args.push(FieldDef { name: name@, ty: ty@ }),
                ..function_def(*old(f))->Some_0
            },
        ),
{
    f.arg(name, ty);
}

/// `codegen::Function::ret`: sets the return type and leaves the rest.
#[verifier::external_body]
pub(crate) fn function_ret(f: &mut codegen::Function, ty: &str)
    requires
        function_def(*old(f)) is Some,
    ensures
        function_def(*final(f)) == Some(
            FunctionDef { ret: Some(ty@), ..function_def(*old(f))->Some_0 },
        ),
{
    f.ret(ty);
}

/// `codegen::Function::line`: appends one piece of text to the body and
/// leaves the rest.
#[verifier::external_body]
pub(crate) fn function_line(f: &mut codegen::Function, line: &str)
    requires
        function_def(*old(f)) is Some,
    ensures
        function_def(*final(f)) == Some(
            FunctionDef {
                body: function_def(*old(f))->Some_0.body.push(line@),
                ..function_def(*old(f))->Some_0
            },
        ),
{
    f.line(line);
}

/// `codegen::Scope::new`: a scope without imports or definitions.
#[verifier::external_body]
pub(crate) fn scope_new() -> (scope: codegen::Scope)
    ensures
        scope_def(scope) == Some(ScopeDef { imports: Seq::empty(), items: Seq::empty() }),
{
    codegen::Scope::new()
}

/// `codegen::Scope::import`: where the scope imports nothing from `path` yet
/// and `ty` holds no colon, so that the type name is kept whole, the import
/// comes last and the definitions stay.
#[verifier::external_body]
pub(crate) fn scope_import(scope: &mut codegen::Scope, path: &str, ty: &str)
    requires
        scope_def(*old(scope)) is Some,
        forall|i: int|
            0 <= i < scope_def(*old(scope))->Some_0.imports.len() ==> scope_def(
                *old(scope),
            )->Some_0.imports[i].0 != path@,
        !ty@.contains(':'),
    ensures
        scope_def(*final(scope)) == Some(
            ScopeDef {
                imports: scope_def(*old(scope))->Some_0.imports.push((path@, ty@)),
                ..scope_def(*old(scope))->Some_0
            },
        ),
{
    scope.import(path, ty);
}

/// `codegen::Scope::push_struct`: the struct comes last among the
/// definitions and the imports stay.
#[verifier::external_body]
pub(crate) fn scope_push_struct(scope: &mut codegen::Scope, item: codegen::Struct)
    requires
        scope_def(*old(scope)) is Some,
        struct_def(item) is Some,
    ensures
        scope_def(*final(scope)) == Some(
            ScopeDef {
                items: scope_def(*old(scope))->Some_0.items.push(
                    ItemDef::Struct(struct_def(item)->Some_0),
                ),
                ..scope_def(*old(scope))->Some_0
            },
        ),
{
    scope.push_struct(item);
}

/// `codegen::Scope::push_fn`: the function comes last among the definitions
/// and the imports stay.
#[verifier::external_body]
pub(crate) fn scope_push_fn(scope: &mut codegen::Scope, item: codegen::Function)
    requires
        scope_def(*old(scope)) is Some,
        function_def(item) is Some,
    ensures
        scope_def(*final(scope)) == Some(
            ScopeDef {
                items: scope_def(*old(scope))->Some_0.items.push(
                    ItemDef::Function(function_def(item)->Some_0),
                ),
                ..scope_def(*old(scope))->Some_0
            },
        ),
{
    scope.push_fn(item);
}

/// `codegen::Scope::to_string`: the text is decided by the imports and
/// definitions that the scope holds. With nothing else in the scope, nothing
/// is formatted on which `to_string` panics: a function without a body, or
/// one that is both `const` and async.
#[verifier::external_body]
pub(crate) fn scope_to_string(scope: &codegen::Scope) -> (text: String)
    requires
        scope_def(*scope) is Some,
    ensures
        text@ == scope_text(scope_def(*scope)->Some_0),
{
    scope.to_string()
}

} // verus!
