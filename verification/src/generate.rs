//! Produces a source file that carries its own error type beside the module
//! struct, a constructor and a method per exported function.

use vstd::prelude::*;
use crate::builder::{
    block_line, block_new, block_state, function_arg, function_new, function_push_block, function_ret,
    function_state, function_vis, impl_new, impl_push_fn, impl_state, render_scope, scope_new,
    scope_import, scope_push_impl, scope_push_struct, scope_raw, scope_state, scope_to_string, struct_field, struct_new,
    struct_state, struct_vis, BlockState, FunctionState, ImplState, ScopeItem, ScopeState, StructState,
};
use crate::generator::prelude_imports;
use crate::text::decimal;
use crate::error::Error;
use crate::function::{method_model, Function, FunctionView};
use crate::module::{Module, ModuleView};

verus! {

/// The `extern crate` lines that open a file made by `generate_rust`.
pub const STANDALONE_HEADER: &'static str = "extern crate wasmi;\nextern crate parity_wasm;\n";

/// The body of the constructor in a file made by `generate_rust`.
pub const STANDALONE_NEW_BODY: &'static str = "
        let module = parity_wasm::deserialize_file(&filename)?;
        let module = wasmi::Module::from_parity_wasm_module(module)?;
        let instance = ModuleInstance::new(&module, &ImportsBuilder::default())?
            .assert_no_start();

        Ok(Module { instance })
        ";

/// The error type written into a file made by `generate_rust`.
pub const ERROR_TYPE_CODE: &'static str = "
use std::fmt;

#[derive(Debug, Clone)]
pub struct Error {
    msg: String
}

impl Error {
    fn new(m: &str) -> Error {
        Error{msg: m.to_string()}
    }
}

impl fmt::Display for Error {
    fn fmt(&self, f: &mut fmt::Formatter) -> fmt::Result {
        write!(f, \"{}\", self.msg)
    }
}

impl error::Error for Error {
    fn description(&self) -> &str {
        &self.msg
    }

    fn cause(&self) -> Option<&error::Error> {
        None
    }
}
";

/// `pub struct Module { instance: ModuleRef }`.
pub open spec fn standalone_struct() -> StructState {
    StructState { name: "Module"@, vis: Some("pub"@), fields: seq![("instance"@, "ModuleRef"@)] }
}

/// `pub fn new(filename: &str) -> Result<Module, Box<error::Error>>`.
pub open spec fn standalone_constructor() -> FunctionState {
    FunctionState {
        name: "new"@,
        vis: Some("pub"@),
        ret: Some("Result<Module, Box<error::Error>>"@),
        self_arg: None,
        args: seq![("filename"@, "&str"@)],
        body: seq![BlockState { before: ""@, lines: seq![STANDALONE_NEW_BODY@] }],
    }
}

/// The scope of the file: the prelude's imports; then the error type, the
/// struct, and the impl block with the constructor and a method per exported
/// function, whose errors are built with the file's own `Error`.
pub open spec fn standalone_scope(m: ModuleView) -> ScopeState {
    ScopeState {
        imports: prelude_imports(Seq::empty()),
        items: seq![
            ScopeItem::Raw(ERROR_TYPE_CODE@),
            ScopeItem::Struct(standalone_struct()),
            ScopeItem::Impl(ImplState {
                target: "Module"@,
                fns: seq![standalone_constructor()] + m.fns.map_values(|f: FunctionView| method_model(f, "Error"@)),
            }),
        ],
    }
}

/// The impl block of a standalone file holds the constructor `new`, then
/// exactly one method per function of the module, in order: the `i`-th is
/// named like the `i`-th function, takes `&self` and arguments `a0, a1, ..`
/// of that function's parameter types, and returns a `Result` of its result
/// type.
pub proof fn law_standalone_methods(m: ModuleView)
    ensures
        standalone_scope(m).items.len() == 3,
        match standalone_scope(m).items[2] {
            ScopeItem::Impl(imp) => {
                &&& imp.target == "Module"@
                &&& imp.fns.len() == 1 + m.fns.len()
                &&& imp.fns[0].name == "new"@
                &&& forall|i: int|
                    0 <= i < m.fns.len() ==> {
                        let f = #[trigger] imp.fns[1 + i];
                        &&& f.name == m.fns[i].name
                        &&& f.self_arg == Some("&self"@)
                        &&& f.args.len() == m.fns[i].arg_types.len()
                        &&& forall|k: int|
                            0 <= k < f.args.len() ==> #[trigger] f.args[k] == ("a"@ + decimal(k as nat), m.fns[i].arg_types[k].rust_name())
                        &&& f.ret == Some("Result<"@ + m.fns[i].return_type.rust_name() + ", Box<error::Error>>"@)
                    }
            },
            _ => false,
        },
{
}

/// The Rust source of a module that carries its own error type. Exported
/// globals get no getter here. It always succeeds.
pub fn generate_rust(module: Module) -> (r: Result<String, Error>)
    ensures
        r matches Ok(s) && s@ == STANDALONE_HEADER@ + render_scope(standalone_scope(module@)),
{
    let mut scope = scope_new();
    generate_prelude(&mut scope);
    generate_error_type(&mut scope);
    let mut mod_impl = generate_module(&mut scope);
    assert(scope_state(scope).items =~= seq![ScopeItem::Raw(ERROR_TYPE_CODE@), ScopeItem::Struct(standalone_struct())]);
    let fns = module.functions();
    let ghost methods = module@.fns.map_values(|f: FunctionView| method_model(f, "Error"@));
    let mut i: usize = 0;
    while i < fns.len()
        invariant
            i <= fns.len(),
            fns@.map_values(|f: Function| f@) == module@.fns,
            methods == module@.fns.map_values(|f: FunctionView| method_model(f, "Error"@)),
            impl_state(mod_impl).target == "Module"@,
            impl_state(mod_impl).fns == seq![standalone_constructor()] + methods.take(i as int),
            scope_state(scope) == (ScopeState {
                imports: prelude_imports(Seq::empty()),
                items: seq![ScopeItem::Raw(ERROR_TYPE_CODE@), ScopeItem::Struct(standalone_struct())],
            }),
        decreases fns.len() - i,
    {
        let fn_def = fns[i].to_rust_with_error("Error");
        assert(fns@[i as int]@ == module@.fns[i as int]);
        impl_push_fn(&mut mod_impl, fn_def);
        assert(methods.take(i + 1) =~= methods.take(i as int).push(methods[i as int]));
        i = i + 1;
    }
    assert(methods.take(i as int) =~= methods);
    scope_push_impl(&mut scope, mod_impl);
    assert(scope_state(scope).items =~= standalone_scope(module@).items);
    let body = scope_to_string(&scope);
    let mut res = String::from_str(STANDALONE_HEADER);
    res.append(body.as_str());
    Ok(res)
}

fn generate_prelude(scope: &mut codegen::Scope)
    ensures
        scope_state(*final(scope)) == (ScopeState {
            imports: prelude_imports(scope_state(*old(scope)).imports),
            items: scope_state(*old(scope)).items,
        }),
{
    scope_import(scope, "wasmi", "NopExternals");
    scope_import(scope, "wasmi", "RuntimeValue");
    scope_import(scope, "wasmi", "ModuleRef");
    scope_import(scope, "wasmi", "ModuleInstance");
    scope_import(scope, "wasmi", "ImportsBuilder");
    scope_import(scope, "std", "error");
}

fn generate_module(scope: &mut codegen::Scope) -> (r: codegen::Impl)
    ensures
        scope_state(*final(scope)) == (ScopeState {
            imports: scope_state(*old(scope)).imports,
            items: scope_state(*old(scope)).items.push(ScopeItem::Struct(standalone_struct())),
        }),
        impl_state(r) == (ImplState { target: "Module"@, fns: seq![standalone_constructor()] }),
{
    let mut mod_struct = struct_new("Module");
    struct_vis(&mut mod_struct, "pub");
    struct_field(&mut mod_struct, "instance", "ModuleRef");
    assert(struct_state(mod_struct).fields =~= standalone_struct().fields);
    scope_push_struct(scope, mod_struct);
    let mut mod_impl = impl_new("Module");
    let mut mod_new = function_new("new");
    function_vis(&mut mod_new, "pub");
    function_arg(&mut mod_new, "filename", "&str");
    function_ret(&mut mod_new, "Result<Module, Box<error::Error>>");
    let mut mod_new_block = block_new("");
    block_line(&mut mod_new_block, STANDALONE_NEW_BODY);
    assert(block_state(mod_new_block).lines =~= seq![STANDALONE_NEW_BODY@]);
    function_push_block(&mut mod_new, mod_new_block);
    assert(function_state(mod_new).args =~= standalone_constructor().args);
    assert(function_state(mod_new).body =~= standalone_constructor().body);
    impl_push_fn(&mut mod_impl, mod_new);
    assert(impl_state(mod_impl).fns =~= seq![standalone_constructor()]);
    mod_impl
}

fn generate_error_type(scope: &mut codegen::Scope)
    ensures
        scope_state(*final(scope)) == (ScopeState {
            imports: scope_state(*old(scope)).imports,
            items: scope_state(*old(scope)).items.push(ScopeItem::Raw(ERROR_TYPE_CODE@)),
        }),
{
    scope_raw(scope, ERROR_TYPE_CODE);
}

} // verus!
