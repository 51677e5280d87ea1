//! The generated Rust module: a struct holding the `wasmi` instance and an
//! impl block with a constructor, a method per exported function and a getter
//! per exported global.

use vstd::prelude::*;
use crate::builder::{
    block_line, block_new, block_state, function_arg, function_new, function_push_block, function_ret,
    function_state, function_vis, impl_new, impl_push_fn, impl_state, render_scope, scope_new,
    scope_push_impl, scope_push_struct, scope_state, scope_to_string, struct_field, struct_new, struct_state,
    struct_vis, BlockState, FunctionState, ImplState, ScopeItem, ScopeState, StructState,
};
use crate::function::{method_model, Function, FunctionView, LIBRARY_ERROR};
use crate::global::{getter_model, Global, GlobalView};
use crate::text::decimal;
use codegen::Function as CodegenFunction;

verus! {

/// The body of the generated constructor, which loads the wasm file.
pub const NEW_BODY: &'static str = "
            let module = parity_wasm::deserialize_file(&filename)?;
            let module = wasmi::Module::from_parity_wasm_module(module)?;
            let instance = ModuleInstance::new(&module, &ImportsBuilder::default())?
                .assert_no_start();

            Ok(Module { instance })
            ";

/// The functions and globals that a wasm module exports, and its name.
#[derive(Debug)]
pub struct Module {
    name: Option<String>,
    fns: Vec<Function>,
    globals: Vec<Global>,
}

pub struct ModuleView {
    pub name: Option<Seq<char>>,
    pub fns: Seq<FunctionView>,
    pub globals: Seq<GlobalView>,
}

impl View for Module {
    type V = ModuleView;

    closed spec fn view(&self) -> ModuleView {
        ModuleView {
            name: match self.name {
                Some(n) => Some(n@),
                None => None,
            },
            fns: self.fns@.map_values(|f: Function| f@),
            globals: self.globals@.map_values(|g: Global| g@),
        }
    }
}

/// `pub struct Module { instance: ModuleRef }`: the struct that users
/// instantiate and that the impl block and the constructor name.
pub open spec fn module_struct() -> StructState {
    StructState { name: "Module"@, vis: Some("pub"@), fields: seq![("instance"@, "ModuleRef"@)] }
}

/// The generated constructor: `pub fn new(filename: &str) -> Result<Module, Box<error::Error>>`.
pub open spec fn constructor_model() -> FunctionState {
    FunctionState {
        name: "new"@,
        vis: Some("pub"@),
        ret: Some("Result<Module, Box<error::Error>>"@),
        self_arg: None,
        args: seq![("filename"@, "&str"@)],
        body: seq![BlockState { before: ""@, lines: seq![NEW_BODY@] }],
    }
}

/// The methods of the generated impl block: the constructor, then a method
/// per function, then a getter per global, each in the module's order.
pub open spec fn module_methods(m: ModuleView) -> Seq<FunctionState> {
    seq![constructor_model()] + m.fns.map_values(|f: FunctionView| method_model(f, LIBRARY_ERROR@))
        + m.globals.map_values(|g: GlobalView| getter_model(g))
}

/// `impl Module { .. }` with the module's methods.
pub open spec fn module_impl(m: ModuleView) -> ImplState {
    ImplState { target: "Module"@, fns: module_methods(m) }
}

/// The scope that renders the generated module: no imports, the struct,
/// then the impl block.
pub open spec fn module_scope(m: ModuleView) -> ScopeState {
    ScopeState {
        imports: Seq::empty(),
        items: seq![ScopeItem::Struct(module_struct()), ScopeItem::Impl(module_impl(m))],
    }
}

/// The generated impl block holds the constructor `new`, then one method per
/// function of the module, named like it, then one getter per global, named
/// like it, and nothing else.
pub proof fn law_methods_named_after_members(m: ModuleView)
    ensures
        module_methods(m).len() == 1 + m.fns.len() + m.globals.len(),
        module_methods(m)[0].name == "new"@,
        forall|i: int| 0 <= i < m.fns.len() ==> (#[trigger] module_methods(m)[1 + i]).name == m.fns[i].name,
        forall|j: int|
            0 <= j < m.globals.len() ==> (#[trigger] module_methods(m)[1 + m.fns.len() + j]).name
                == m.globals[j].name,
{
}

/// The methods of a generated module, after the constructor, take `&self`:
/// the method for the `i`-th function is named like it, takes arguments
/// `a0, a1, ..` of its parameter types and returns a `Result` of its result
/// type; the getter for the `j`-th global is named like it, takes no
/// argument and returns a `Result` of the global's type.
pub proof fn law_method_signatures(m: ModuleView)
    ensures
        forall|i: int|
            0 <= i < m.fns.len() ==> {
                let f = #[trigger] module_methods(m)[1 + i];
                &&& f.name == m.fns[i].name
                &&& f.self_arg == Some("&self"@)
                &&& f.args.len() == m.fns[i].arg_types.len()
                &&& forall|k: int|
                    0 <= k < f.args.len() ==> #[trigger] f.args[k] == ("a"@ + decimal(k as nat), m.fns[i].arg_types[k].rust_name())
                &&& f.ret == Some("Result<"@ + m.fns[i].return_type.rust_name() + ", Box<error::Error>>"@)
            },
        forall|j: int|
            0 <= j < m.globals.len() ==> {
                let g = #[trigger] module_methods(m)[1 + m.fns.len() + j];
                &&& g.name == m.globals[j].name
                &&& g.self_arg == Some("&self"@)
                &&& g.args.len() == 0
                &&& g.ret == Some("Result<"@ + m.globals[j].t.rust_name() + ", Box<error::Error>>"@)
            },
{
}

/// The function's return type is set and starts with `Result<`.
pub open spec fn returns_result(f: FunctionState) -> bool {
    f.ret matches Some(t) && "Result<"@.is_prefix_of(t)
}

/// Every method of a generated module, the constructor, the calls of
/// exported functions and the getters of exported globals, returns a
/// `Result`, since each of them can fail at run time.
pub proof fn law_methods_return_result(m: ModuleView)
    ensures
        forall|i: int| 0 <= i < module_methods(m).len() ==> returns_result(#[trigger] module_methods(m)[i]),
{
    reveal_strlit("Result<");
    reveal_strlit("Result<Module, Box<error::Error>>");
    assert forall|i: int| 0 <= i < module_methods(m).len() implies returns_result(#[trigger] module_methods(m)[i]) by {
        if i == 0 {
            assert("Result<Module, Box<error::Error>>"@.subrange(0, 7) =~= "Result<"@);
        } else if i < 1 + m.fns.len() {
            let t = crate::function::result_type_text(m.fns[i - 1].return_type);
            assert(t.subrange(0, 7) =~= "Result<"@);
        } else {
            let t = crate::function::result_type_text(m.globals[i - 1 - m.fns.len()].t);
            assert(t.subrange(0, 7) =~= "Result<"@);
        }
    }
}

impl Module {
    /// A module with the given name, exported functions and exported globals.
    pub fn new(name: Option<String>, fns: Vec<Function>, globals: Vec<Global>) -> (m: Module)
        ensures
            m@ == (ModuleView {
                name: match name {
                    Some(n) => Some(n@),
                    None => None,
                },
                fns: fns@.map_values(|f: Function| f@),
                globals: globals@.map_values(|g: Global| g@),
            }),
    {
        Module { name: name, fns, globals }
    }

    /// The exported functions, in export order.
    pub fn functions(&self) -> (r: &Vec<Function>)
        ensures
            r@.map_values(|f: Function| f@) == self@.fns,
    {
        &self.fns
    }

    /// The Rust source of the generated module.
    pub fn to_rust(&self) -> (r: String)
        ensures
            r@ == render_scope(module_scope(self@)),
    {
        let mut scope = scope_new();
        let mut mod_struct = struct_new("Module");
        struct_vis(&mut mod_struct, "pub");
        struct_field(&mut mod_struct, "instance", "ModuleRef");
        assert(struct_state(mod_struct).fields =~= module_struct().fields);
        scope_push_struct(&mut scope, mod_struct);
        let module_impl = self.gen_impl();
        scope_push_impl(&mut scope, module_impl);
        assert(scope_state(scope).items =~= module_scope(self@).items);
        scope_to_string(&scope)
    }

    fn gen_impl(&self) -> (r: codegen::Impl)
        ensures
            impl_state(r) == module_impl(self@),
    {
        let mut mod_impl = impl_new("Module");
        impl_push_fn(&mut mod_impl, self.gen_new());
        let ghost methods = self.fns@.map_values(|f: Function| method_model(f@, LIBRARY_ERROR@));
        let mut i: usize = 0;
        while i < self.fns.len()
            invariant
                i <= self.fns.len(),
                methods == self.fns@.map_values(|f: Function| method_model(f@, LIBRARY_ERROR@)),
                impl_state(mod_impl).target == "Module"@,
                impl_state(mod_impl).fns == seq![constructor_model()] + methods.take(i as int),
            decreases self.fns.len() - i,
        {
            let fn_def = self.fns[i].to_rust();
            impl_push_fn(&mut mod_impl, fn_def);
            assert(methods.take(i + 1) =~= methods.take(i as int).push(methods[i as int]));
            i = i + 1;
        }
        assert(methods.take(i as int) =~= methods);
        let ghost getters = self.globals@.map_values(|g: Global| getter_model(g@));
        let ghost prefix = seq![constructor_model()] + methods;
        let mut j: usize = 0;
        while j < self.globals.len()
            invariant
                j <= self.globals.len(),
                getters == self.globals@.map_values(|g: Global| getter_model(g@)),
                impl_state(mod_impl).target == "Module"@,
                impl_state(mod_impl).fns == prefix + getters.take(j as int),
            decreases self.globals.len() - j,
        {
            let fn_def = self.globals[j].to_rust();
            impl_push_fn(&mut mod_impl, fn_def);
            assert(getters.take(j + 1) =~= getters.take(j as int).push(getters[j as int]));
            j = j + 1;
        }
        assert(getters.take(j as int) =~= getters);
        assert(methods =~= self@.fns.map_values(|f: FunctionView| method_model(f, LIBRARY_ERROR@)));
        assert(getters =~= self@.globals.map_values(|g: GlobalView| getter_model(g)));
        mod_impl
    }

    fn gen_new(&self) -> (r: CodegenFunction)
        ensures
            function_state(r) == constructor_model(),
    {
        let mut mod_new = function_new("new");
        function_vis(&mut mod_new, "pub");
        function_arg(&mut mod_new, "filename", "&str");
        function_ret(&mut mod_new, "Result<Module, Box<error::Error>>");
        let mut mod_new_block = block_new("");
        block_line(&mut mod_new_block, NEW_BODY);
        assert(block_state(mod_new_block).lines =~= seq![NEW_BODY@]);
        function_push_block(&mut mod_new, mod_new_block);
        assert(function_state(mod_new).args =~= constructor_model().args);
        assert(function_state(mod_new).body =~= constructor_model().body);
        mod_new
    }
}

} // verus!
