//! An exported wasm function and the method that calls it in the generated code.

use vstd::prelude::*;
use crate::builder::{block_line, block_new, block_state, function_arg, function_arg_ref_self, function_new, function_push_block, function_ret, function_state, function_vis, BlockState, FunctionState};
use crate::text::{decimal, join, join_strings, lemma_decimal_injective, to_decimal};
use codegen::Function as CodegenFunction;
use crate::wasm::ValueType;

verus! {

/// The head of the call expression, up to the export's name.
pub const INVOKE_HEAD: &'static str = "
            self.instance.invoke_export(\"";

/// The error type that methods of a module generated by `Generator` build
/// their errors with.
pub const LIBRARY_ERROR: &'static str = "ruster::error::Error";

/// The call expression from the export's name to the first error type.
pub const INVOKE_CALL: &'static str = "\", &params, &mut NopExternals)?
            .ok_or(Box::from(";

/// The call expression from the first error type to the result's variant.
pub const INVOKE_EMPTY: &'static str = "::new(\"returned value is empty\")))
            .and_then(|v| match v {
                RuntimeValue::";

/// The call expression from the result's variant to the second error type.
pub const INVOKE_MATCH: &'static str = "(t) => Ok(t),
                _ => Err(Box::from(";

/// The end of the call expression, after the second error type.
pub const INVOKE_TAIL: &'static str = "::new(\"returned value has invalid type\")))
            })";

/// An exported function: its export name and its signature.
#[derive(Debug)]
pub struct Function {
    pub name: String,
    pub arg_types: Vec<ValueType>,
    pub return_type: ValueType,
}

pub struct FunctionView {
    pub name: Seq<char>,
    pub arg_types: Seq<ValueType>,
    pub return_type: ValueType,
}

impl View for Function {
    type V = FunctionView;

    open spec fn view(&self) -> FunctionView {
        FunctionView { name: self.name@, arg_types: self.arg_types@, return_type: self.return_type }
    }
}

/// ASCII upper case: `a`..`z` become `A`..`Z`, other characters stay.
pub open spec fn ascii_upper(s: Seq<char>) -> Seq<char> {
    s.map_values(|c: char| if 'a' <= c && c <= 'z' { ((c as int) - 32) as char } else { c })
}

/// `Result<T, Box<error::Error>>` for the value type `T`.
pub open spec fn result_type_text(t: ValueType) -> Seq<char> {
    "Result<"@ + t.rust_name() + ", Box<error::Error>>"@
}

/// The name of the generated argument number `i`: `a0`, `a1`, ...
pub open spec fn arg_name(i: nat) -> Seq<char> {
    "a"@ + decimal(i)
}

/// The arguments of the generated method, one per parameter: name and type.
pub open spec fn arg_list(types: Seq<ValueType>) -> Seq<(Seq<char>, Seq<char>)> {
    Seq::new(types.len(), |i: int| (arg_name(i as nat), types[i].rust_name()))
}

/// `RuntimeValue::T(ai)`, `T` the upper-cased type name of parameter `i`.
pub open spec fn param_text(i: nat, t: ValueType) -> Seq<char> {
    "RuntimeValue::"@ + ascii_upper(t.rust_name()) + "("@ + arg_name(i) + ")"@
}

/// `let params = [..];` with a runtime value for each argument.
pub open spec fn params_line(types: Seq<ValueType>) -> Seq<char> {
    "let params = ["@ + join(Seq::new(types.len(), |i: int| param_text(i as nat, types[i])), ", "@) + "];"@
}

/// The expression that invokes the export `name` and takes its result of
/// type `t`, building its errors with the error type `err`.
pub open spec fn invoke_text(name: Seq<char>, t: ValueType, err: Seq<char>) -> Seq<char> {
    INVOKE_HEAD@ + name + INVOKE_CALL@ + err + INVOKE_EMPTY@ + t.variant_name() + INVOKE_MATCH@ + err
        + INVOKE_TAIL@
}

/// The body of the generated method.
pub open spec fn call_block(f: FunctionView, err: Seq<char>) -> BlockState {
    BlockState {
        before: ""@,
        lines: seq![params_line(f.arg_types), invoke_text(f.name, f.return_type, err)],
    }
}

/// The generated method: `pub fn name(&self, a0: T0, ..) -> Result<R, Box<error::Error>>`,
/// building its errors with the error type `err`.
pub open spec fn method_model(f: FunctionView, err: Seq<char>) -> FunctionState {
    FunctionState {
        name: f.name,
        vis: Some("pub"@),
        ret: Some(result_type_text(f.return_type)),
        self_arg: Some("&self"@),
        args: arg_list(f.arg_types),
        body: seq![call_block(f, err)],
    }
}

/// Upper-casing a value type's Rust name gives its variant name, so the
/// arguments and the result of a generated call name the same runtime values.
pub proof fn lemma_upper_rust_name_is_variant(t: ValueType)
    ensures
        ascii_upper(t.rust_name()) == t.variant_name(),
{
    reveal_strlit("i32");
    reveal_strlit("i64");
    reveal_strlit("f32");
    reveal_strlit("f64");
    reveal_strlit("I32");
    reveal_strlit("I64");
    reveal_strlit("F32");
    reveal_strlit("F64");
    assert(ascii_upper(t.rust_name()) =~= t.variant_name());
}

/// The generated arguments have pairwise different names.
pub proof fn lemma_arg_names_distinct(i: nat, j: nat)
    requires
        i != j,
    ensures
        arg_name(i) != arg_name(j),
{
    reveal_strlit("a");
    if arg_name(i) == arg_name(j) {
        assert(arg_name(i).subrange(1, arg_name(i).len() as int) =~= decimal(i));
        assert(arg_name(j).subrange(1, arg_name(j).len() as int) =~= decimal(j));
        lemma_decimal_injective(i, j);
    }
}

/// The body of the method generated for `f` is one block, opened with
/// nothing before its brace, of two lines: `let params = [..];` listing
/// `RuntimeValue::V(ak)` for each parameter `k`, `V` the variant name of its
/// type, joined by `, `; then the call of the export named `f.name` through
/// `invoke_export` with those params, whose errors are built with `err` and
/// whose result is taken from the variant of `f`'s result type.
pub proof fn law_method_body(f: FunctionView, err: Seq<char>)
    ensures
        method_model(f, err).body == seq![
            BlockState {
                before: ""@,
                lines: seq![
                    "let params = ["@ + join(
                        Seq::new(
                            f.arg_types.len(),
                            |k: int| "RuntimeValue::"@ + f.arg_types[k].variant_name() + "("@ + ("a"@ + decimal(k as nat)) + ")"@,
                        ),
                        ", "@,
                    ) + "];"@,
                    INVOKE_HEAD@ + f.name + INVOKE_CALL@ + err + INVOKE_EMPTY@ + f.return_type.variant_name() + INVOKE_MATCH@
                        + err + INVOKE_TAIL@,
                ],
            },
        ],
{
    let texts = Seq::new(f.arg_types.len(), |k: int| param_text(k as nat, f.arg_types[k]));
    let stated = Seq::new(
        f.arg_types.len(),
        |k: int| "RuntimeValue::"@ + f.arg_types[k].variant_name() + "("@ + ("a"@ + decimal(k as nat)) + ")"@,
    );
    assert forall|k: int| 0 <= k < f.arg_types.len() implies texts[k] == stated[k] by {
        lemma_upper_rust_name_is_variant(f.arg_types[k]);
    }
    assert(texts =~= stated);
}

/// `Result<T, Box<error::Error>>` for the value type `t`.
pub fn result_type(t: ValueType) -> (r: String)
    ensures
        r@ == result_type_text(t),
{
    let mut s = String::from_str("Result<");
    s.append(t.rust_type());
    s.append(", Box<error::Error>>");
    s
}

/// `a` followed by the decimal rendering of `i`.
pub fn arg_name_string(i: usize) -> (r: String)
    ensures
        r@ == arg_name(i as nat),
{
    let mut s = String::from_str("a");
    let d = to_decimal(i);
    s.append(d.as_str());
    s
}

impl Function {
    /// The method of the generated module that calls this function; it
    /// builds its errors with `ruster::error::Error`.
    pub fn to_rust(&self) -> (r: CodegenFunction)
        ensures
            function_state(r) == method_model(self@, LIBRARY_ERROR@),
    {
        self.to_rust_with_error(LIBRARY_ERROR)
    }

    /// The method that calls this function, building its errors with the
    /// error type at path `error_type`.
    pub fn to_rust_with_error(&self, error_type: &str) -> (r: CodegenFunction)
        ensures
            function_state(r) == method_model(self@, error_type@),
    {
        let mut fn_def = function_new(self.name.as_str());
        function_vis(&mut fn_def, "pub");
        let return_type = self.gen_return_type();
        function_ret(&mut fn_def, return_type.as_str());
        function_arg_ref_self(&mut fn_def);
        assert(arg_list(self.arg_types@).take(0) =~= Seq::<(Seq<char>, Seq<char>)>::empty());
        let mut i: usize = 0;
        while i < self.arg_types.len()
            invariant
                i <= self.arg_types.len(),
                function_state(fn_def) == (FunctionState {
                    name: self.name@,
                    vis: Some("pub"@),
                    ret: Some(result_type_text(self.return_type)),
                    self_arg: Some("&self"@),
                    args: arg_list(self.arg_types@).take(i as int),
                    body: Seq::empty(),
                }),
            decreases self.arg_types.len() - i,
        {
            let name = arg_name_string(i);
            let t = self.arg_types[i];
            function_arg(&mut fn_def, name.as_str(), t.rust_type());
            assert(arg_list(self.arg_types@).take(i + 1) =~= arg_list(self.arg_types@).take(i as int).push(
                (arg_name(i as nat), t.rust_name()),
            ));
            i = i + 1;
        }
        assert(arg_list(self.arg_types@).take(i as int) =~= arg_list(self.arg_types@));
        let block = self.gen_block(error_type);
        function_push_block(&mut fn_def, block);
        assert(function_state(fn_def).body =~= seq![call_block(self@, error_type@)]);
        fn_def
    }

    fn gen_return_type(&self) -> (r: String)
        ensures
            r@ == result_type_text(self.return_type),
    {
        result_type(self.return_type)
    }

    fn gen_block(&self, error_type: &str) -> (r: codegen::Block)
        ensures
            block_state(r) == call_block(self@, error_type@),
    {
        let mut b = block_new("");
        let ghost texts = Seq::new(self.arg_types@.len(), |k: int| param_text(k as nat, self.arg_types@[k]));
        let mut params: Vec<String> = Vec::new();
        let mut i: usize = 0;
        while i < self.arg_types.len()
            invariant
                i <= self.arg_types.len(),
                texts == Seq::new(self.arg_types@.len(), |k: int| param_text(k as nat, self.arg_types@[k])),
                params@.map_values(|s: String| s@) == texts.take(i as int),
            decreases self.arg_types.len() - i,
        {
            let t = self.arg_types[i];
            proof {
                lemma_upper_rust_name_is_variant(t);
            }
            let mut p = String::from_str("RuntimeValue::");
            p.append(t.variant());
            p.append("(");
            let name = arg_name_string(i);
            p.append(name.as_str());
            p.append(")");
            assert(p@ == param_text(i as nat, t));
            let ghost before = params@;
            params.push(p);
            assert(params@.map_values(|s: String| s@) =~= before.map_values(|s: String| s@).push(texts[i as int]));
            assert(texts.take(i + 1) =~= texts.take(i as int).push(texts[i as int]));
            i = i + 1;
        }
        assert(texts.take(i as int) =~= texts);
        let joined = join_strings(&params, ", ");
        let mut line = String::from_str("let params = [");
        line.append(joined.as_str());
        line.append("];");
        block_line(&mut b, line.as_str());
        let mut invoke = String::from_str(INVOKE_HEAD);
        invoke.append(self.name.as_str());
        invoke.append(INVOKE_CALL);
        invoke.append(error_type);
        invoke.append(INVOKE_EMPTY);
        invoke.append(self.return_type.variant());
        invoke.append(INVOKE_MATCH);
        invoke.append(error_type);
        invoke.append(INVOKE_TAIL);
        block_line(&mut b, invoke.as_str());
        assert(block_state(b).lines =~= seq![params_line(self.arg_types@), invoke_text(self.name@, self.return_type, error_type@)]);
        b
    }
}

} // verus!
