//! The parts of the `codegen` builder API that code generation uses.
//!
//! `codegen` builds Rust source from a `Scope` of items. Each builder value is
//! described here by its state, field by field as `codegen` holds it, and the
//! rendered text of a scope is named as a function of that state.

use vstd::prelude::*;
use codegen::Function as CodegenFunction;

verus! {

/// The state of a `codegen::Block` as the library builds it: the text given
/// to `Block::new` (its `before`) and the lines of its body, in push order.
/// The library sets no `after` text and pushes no nested block.
pub struct BlockState {
    pub before: Seq<char>,
    pub lines: Seq<Seq<char>>,
}

/// The state of a `codegen::Function` as the library builds it, field by
/// field: its name, visibility, return type, receiver, arguments (name and
/// type) and the blocks of its body. Every other field (docs, generics,
/// bounds, attributes, ...) keeps the value that `Function::new` gives it.
pub struct FunctionState {
    pub name: Seq<char>,
    pub vis: Option<Seq<char>>,
    pub ret: Option<Seq<char>>,
    pub self_arg: Option<Seq<char>>,
    pub args: Seq<(Seq<char>, Seq<char>)>,
    pub body: Seq<BlockState>,
}

/// The state of a `codegen::Struct` as the library builds it: its name,
/// visibility and named fields (name and type). Every other field keeps the
/// value that `Struct::new` gives it.
pub struct StructState {
    pub name: Seq<char>,
    pub vis: Option<Seq<char>>,
    pub fields: Seq<(Seq<char>, Seq<char>)>,
}

/// The state of a `codegen::Impl` as the library builds it: its target type
/// and its functions. Every other field keeps the value that `Impl::new`
/// gives it.
pub struct ImplState {
    pub target: Seq<char>,
    pub fns: Seq<FunctionState>,
}

/// An item of a `codegen::Scope`.
pub enum ScopeItem {
    /// `raw(text)`.
    Raw(Seq<char>),
    /// `push_struct(..)`.
    Struct(StructState),
    /// `push_impl(..)`.
    Impl(ImplState),
}

/// The state of a `codegen::Scope` as the library builds it: its imports,
/// each path with the type names imported from it, both in order of first
/// insertion and without repeats, and its items in push order. The library
/// sets no docs and no import visibility.
pub struct ScopeState {
    pub imports: Seq<(Seq<char>, Seq<Seq<char>>)>,
    pub items: Seq<ScopeItem>,
}

/// The part of `ty` before its first `::`, or all of `ty` when it holds none.
pub open spec fn first_segment(ty: Seq<char>) -> Seq<char>
    decreases ty.len(),
{
    if ty.len() < 2 {
        ty
    } else if ty[0] == ':' && ty[1] == ':' {
        Seq::empty()
    } else {
        seq![ty[0]] + first_segment(ty.drop_first())
    }
}

/// A type name without `:` is its own first segment.
pub proof fn lemma_first_segment_plain(ty: Seq<char>)
    requires
        forall|i: int| 0 <= i < ty.len() ==> ty[i] != ':',
    ensures
        first_segment(ty) == ty,
    decreases ty.len(),
{
    if ty.len() >= 2 {
        lemma_first_segment_plain(ty.drop_first());
        assert(seq![ty[0]] + ty.drop_first() =~= ty);
    }
}

/// The imports after importing `ty` from `path`: a new path comes last; a
/// type already imported from the path changes nothing.
pub open spec fn import_insert(
    imports: Seq<(Seq<char>, Seq<Seq<char>>)>,
    path: Seq<char>,
    ty: Seq<char>,
) -> Seq<(Seq<char>, Seq<Seq<char>>)>
    decreases imports.len(),
{
    if imports.len() == 0 {
        seq![(path, seq![ty])]
    } else if imports[0].0 == path {
        seq![(path, if imports[0].1.contains(ty) { imports[0].1 } else { imports[0].1.push(ty) })]
            + imports.drop_first()
    } else {
        seq![imports[0]] + import_insert(imports.drop_first(), path, ty)
    }
}

#[verifier::external_type_specification]
#[verifier::external_body]
pub struct ExCodegenBlock(codegen::Block);

#[verifier::external_type_specification]
#[verifier::external_body]
pub struct ExCodegenFunction(CodegenFunction);

#[verifier::external_type_specification]
#[verifier::external_body]
pub struct ExCodegenStruct(codegen::Struct);

#[verifier::external_type_specification]
#[verifier::external_body]
pub struct ExCodegenImpl(codegen::Impl);

#[verifier::external_type_specification]
#[verifier::external_body]
pub struct ExCodegenScope(codegen::Scope);

/// The state of a block.
pub uninterp spec fn block_state(b: codegen::Block) -> BlockState;

/// The state of a function.
pub uninterp spec fn function_state(f: CodegenFunction) -> FunctionState;

/// The state of a struct.
pub uninterp spec fn struct_state(s: codegen::Struct) -> StructState;

/// The state of an impl block.
pub uninterp spec fn impl_state(i: codegen::Impl) -> ImplState;

/// The state of a scope.
pub uninterp spec fn scope_state(s: codegen::Scope) -> ScopeState;

/// The Rust source that `Scope::to_string` renders for a scope in this state.
pub uninterp spec fn render_scope(state: ScopeState) -> Seq<char>;

/// Calls `codegen::Block::new(before)`: an empty block.
#[verifier::external_body]
pub(crate) fn block_new(before: &str) -> (b: codegen::Block)
    ensures
        block_state(b) == (BlockState { before: before@, lines: Seq::empty() }),
{
    codegen::Block::new(before)
}

/// Calls `codegen::Block::line(line)`: pushes a line to the body.
#[verifier::external_body]
pub(crate) fn block_line(b: &mut codegen::Block, line: &str)
    ensures
        block_state(*final(b)) == (BlockState {
            before: block_state(*old(b)).before,
            lines: block_state(*old(b)).lines.push(line@),
        }),
{
    b.line(line);
}

/// Calls `codegen::Function::new(name)`: a function with nothing set and an
/// empty body.
#[verifier::external_body]
pub(crate) fn function_new(name: &str) -> (f: CodegenFunction)
    ensures
        function_state(f) == (FunctionState {
            name: name@,
            vis: None,
            ret: None,
            self_arg: None,
            args: Seq::empty(),
            body: Seq::empty(),
        }),
{
    CodegenFunction::new(name)
}

/// Calls `codegen::Function::vis(vis)`: sets the visibility.
#[verifier::external_body]
pub(crate) fn function_vis(f: &mut CodegenFunction, vis: &str)
    ensures
        function_state(*final(f)) == (FunctionState { vis: Some(vis@), ..function_state(*old(f)) }),
{
    f.vis(vis);
}

/// Calls `codegen::Function::ret(ty)`, the type given as a `&str`: sets the
/// return type to the type of that name.
#[verifier::external_body]
pub(crate) fn function_ret(f: &mut CodegenFunction, ty: &str)
    ensures
        function_state(*final(f)) == (FunctionState { ret: Some(ty@), ..function_state(*old(f)) }),
{
    f.ret(ty);
}

/// Calls `codegen::Function::arg_ref_self()`: sets the receiver to `&self`.
#[verifier::external_body]
pub(crate) fn function_arg_ref_self(f: &mut CodegenFunction)
    ensures
        function_state(*final(f)) == (FunctionState { self_arg: Some("&self"@), ..function_state(*old(f)) }),
{
    f.arg_ref_self();
}

/// Calls `codegen::Function::arg(name, ty)`, the type given as a `&str`:
/// pushes an argument.
#[verifier::external_body]
pub(crate) fn function_arg(f: &mut CodegenFunction, name: &str, ty: &str)
    ensures
        function_state(*final(f)) == (FunctionState {
            args: function_state(*old(f)).args.push((name@, ty@)),
            ..function_state(*old(f))
        }),
{
    f.arg(name, ty);
}

/// Calls `codegen::Function::push_block(block)`: pushes a block to the body.
#[verifier::external_body]
pub(crate) fn function_push_block(f: &mut CodegenFunction, block: codegen::Block)
    ensures
        function_state(*final(f)) == (FunctionState {
            body: function_state(*old(f)).body.push(block_state(block)),
            ..function_state(*old(f))
        }),
{
    f.push_block(block);
}

/// Calls `codegen::Struct::new(name)`: a struct with nothing set and no fields.
#[verifier::external_body]
pub(crate) fn struct_new(name: &str) -> (s: codegen::Struct)
    ensures
        struct_state(s) == (StructState { name: name@, vis: None, fields: Seq::empty() }),
{
    codegen::Struct::new(name)
}

/// Calls `codegen::Struct::vis(vis)`: sets the visibility.
#[verifier::external_body]
pub(crate) fn struct_vis(s: &mut codegen::Struct, vis: &str)
    ensures
        struct_state(*final(s)) == (StructState { vis: Some(vis@), ..struct_state(*old(s)) }),
{
    s.vis(vis);
}

/// Calls `codegen::Struct::field(name, ty)`, the type given as a `&str`:
/// pushes a named field.
#[verifier::external_body]
pub(crate) fn struct_field(s: &mut codegen::Struct, name: &str, ty: &str)
    ensures
        struct_state(*final(s)) == (StructState {
            fields: struct_state(*old(s)).fields.push((name@, ty@)),
            ..struct_state(*old(s))
        }),
{
    s.field(name, ty);
}

/// Calls `codegen::Impl::new(target)`, the target given as a `&str`.
#[verifier::external_body]
pub(crate) fn impl_new(target: &str) -> (i: codegen::Impl)
    ensures
        impl_state(i) == (ImplState { target: target@, fns: Seq::empty() }),
{
    codegen::Impl::new(target)
}

/// Calls `codegen::Impl::push_fn(f)`: pushes a function.
#[verifier::external_body]
pub(crate) fn impl_push_fn(i: &mut codegen::Impl, f: CodegenFunction)
    ensures
        impl_state(*final(i)) == (ImplState {
            target: impl_state(*old(i)).target,
            fns: impl_state(*old(i)).fns.push(function_state(f)),
        }),
{
    i.push_fn(f);
}

/// Calls `codegen::Scope::new()`: no imports and no items.
#[verifier::external_body]
pub(crate) fn scope_new() -> (s: codegen::Scope)
    ensures
        scope_state(s) == (ScopeState { imports: Seq::empty(), items: Seq::empty() }),
{
    codegen::Scope::new()
}

/// Calls `codegen::Scope::import(path, ty)`: records the part of `ty` before
/// its first `::` under `path`, unless it is there already.
#[verifier::external_body]
pub(crate) fn scope_import(s: &mut codegen::Scope, path: &str, ty: &str)
    ensures
        scope_state(*final(s)) == (ScopeState {
            imports: import_insert(scope_state(*old(s)).imports, path@, first_segment(ty@)),
            items: scope_state(*old(s)).items,
        }),
{
    s.import(path, ty);
}

/// Calls `codegen::Scope::raw(text)`: pushes a raw item.
#[verifier::external_body]
pub(crate) fn scope_raw(s: &mut codegen::Scope, text: &str)
    ensures
        scope_state(*final(s)) == (ScopeState {
            imports: scope_state(*old(s)).imports,
            items: scope_state(*old(s)).items.push(ScopeItem::Raw(text@)),
        }),
{
    s.raw(text);
}

/// Calls `codegen::Scope::push_struct(item)`.
#[verifier::external_body]
pub(crate) fn scope_push_struct(s: &mut codegen::Scope, item: codegen::Struct)
    ensures
        scope_state(*final(s)) == (ScopeState {
            imports: scope_state(*old(s)).imports,
            items: scope_state(*old(s)).items.push(ScopeItem::Struct(struct_state(item))),
        }),
{
    s.push_struct(item);
}

/// Calls `codegen::Scope::push_impl(item)`.
#[verifier::external_body]
pub(crate) fn scope_push_impl(s: &mut codegen::Scope, item: codegen::Impl)
    ensures
        scope_state(*final(s)) == (ScopeState {
            imports: scope_state(*old(s)).imports,
            items: scope_state(*old(s)).items.push(ScopeItem::Impl(impl_state(item))),
        }),
{
    s.push_impl(item);
}

/// Calls `codegen::Scope::to_string()`. The contract claims only that the
/// text is determined by the scope's state.
#[verifier::external_body]
pub(crate) fn scope_to_string(s: &codegen::Scope) -> (r: String)
    ensures
        r@ == render_scope(scope_state(*s)),
{
    s.to_string()
}

} // verus!
