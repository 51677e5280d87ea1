//! An exported wasm global and the getter that reads it in the generated code.

use vstd::prelude::*;
use crate::builder::{block_line, block_new, block_state, function_arg_ref_self, function_new, function_push_block, function_ret, function_state, function_vis, BlockState, FunctionState};
use crate::function::{result_type, result_type_text};
use crate::wasm::ValueType;
use codegen::Function as CodegenFunction;

verus! {

/// The head of the getter's expression, up to the export's name.
pub const GLOBAL_HEAD: &'static str = "
            self.instance.export_by_name(\"";

/// The getter's expression between the export's name and the value's variant.
pub const GLOBAL_MID: &'static str = "\")
                .ok_or(Box::from(ruster::error::Error::new(\"global not found\")))
                .and_then(|e| match e {
                    wasmi::ExternVal::Global(r) => match r.get() {
                        RuntimeValue::";

/// The end of the getter's expression, after the value's variant.
pub const GLOBAL_TAIL: &'static str = "(t) => Ok(t),
                        _ => Err(Box::from(ruster::error::Error::new(\"returned value has invalid type\")))
                    },
                    _ => Err(Box::from(ruster::error::Error::new(\"export is not global\"))),
                })
            ";

/// An exported global: its export name and its content type.
#[derive(Debug)]
pub struct Global {
    name: String,
    t: ValueType,
}

pub struct GlobalView {
    pub name: Seq<char>,
    pub t: ValueType,
}

impl View for Global {
    type V = GlobalView;

    closed spec fn view(&self) -> GlobalView {
        GlobalView { name: self.name@, t: self.t }
    }
}

/// The expression that reads the global export `name` as a value of type `t`.
pub open spec fn global_read_text(name: Seq<char>, t: ValueType) -> Seq<char> {
    GLOBAL_HEAD@ + name + GLOBAL_MID@ + t.variant_name() + GLOBAL_TAIL@
}

/// The body of the generated getter.
pub open spec fn read_block(g: GlobalView) -> BlockState {
    BlockState { before: ""@, lines: seq![global_read_text(g.name, g.t)] }
}

/// The generated getter: `pub fn name(&self) -> Result<T, Box<error::Error>>`.
pub open spec fn getter_model(g: GlobalView) -> FunctionState {
    FunctionState {
        name: g.name,
        vis: Some("pub"@),
        ret: Some(result_type_text(g.t)),
        self_arg: Some("&self"@),
        args: Seq::empty(),
        body: seq![read_block(g)],
    }
}

/// The body of the getter generated for `g` is one block, opened with
/// nothing before its brace, of one line: the read of the export named
/// `g.name` through `export_by_name`, whose value is taken from the variant
/// of the global's type.
pub proof fn law_getter_body(g: GlobalView)
    ensures
        getter_model(g).body == seq![
            BlockState { before: ""@, lines: seq![GLOBAL_HEAD@ + g.name + GLOBAL_MID@ + g.t.variant_name() + GLOBAL_TAIL@] },
        ],
{
}

impl Global {
    /// A global exported as `name` with content type `t`.
    pub fn new(name: &str, t: ValueType) -> (g: Global)
        ensures
            g@ == (GlobalView { name: name@, t }),
    {
        Global { name: String::from_str(name), t }
    }

    /// The getter of the generated module that reads this global.
    pub fn to_rust(&self) -> (r: CodegenFunction)
        ensures
            function_state(r) == getter_model(self@),
    {
        let mut fn_def = function_new(self.name.as_str());
        function_vis(&mut fn_def, "pub");
        let ret = result_type(self.t);
        function_ret(&mut fn_def, ret.as_str());
        function_arg_ref_self(&mut fn_def);
        let block = self.gen_block();
        function_push_block(&mut fn_def, block);
        assert(function_state(fn_def).body =~= seq![read_block(self@)]);
        fn_def
    }

    fn gen_block(&self) -> (r: codegen::Block)
        ensures
            block_state(r) == read_block(self@),
    {
        let mut b = block_new("");
        let mut invoke = String::from_str(GLOBAL_HEAD);
        invoke.append(self.name.as_str());
        invoke.append(GLOBAL_MID);
        invoke.append(self.t.variant());
        invoke.append(GLOBAL_TAIL);
        block_line(&mut b, invoke.as_str());
        assert(block_state(b).lines =~= seq![global_read_text(self.name@, self.t)]);
        b
    }
}

} // verus!
