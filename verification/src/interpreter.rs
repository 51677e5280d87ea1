//! Reads a decoded wasm module and collects what it exports: each exported
//! function with its signature and each exported global with its type.

use vstd::prelude::*;
use crate::error::Error;
use crate::function::{Function, FunctionView};
use crate::global::{Global, GlobalView};
use crate::module::{Module, ModuleView};
use crate::wasm::{
    decoded_module, string_opt_view, wasm_decode_message, wasm_decodes, wasm_names_parse, DecodeError,
    ExportEntry, ExportEntryView, External, Internal, ValueType, WasmModule, WasmModuleView,
};

verus! {

/// The entries of a section, or none when the module has no such section.
pub open spec fn section<T>(s: Option<Seq<T>>) -> Seq<T> {
    match s {
        Some(s) => s,
        None => Seq::empty(),
    }
}

/// How many of `imports` are of kind `k`.
pub open spec fn count_kind(imports: Seq<External>, k: External) -> nat
    decreases imports.len(),
{
    if imports.len() == 0 {
        0
    } else {
        count_kind(imports.drop_last(), k) + if imports.last() == k { 1nat } else { 0nat }
    }
}

/// How many functions the module imports. Imported functions come first in
/// the function index space.
pub open spec fn imported_fns(m: WasmModuleView) -> nat {
    count_kind(section(m.imports), External::Function)
}

/// How many globals the module imports. Imported globals come first in the
/// global index space.
pub open spec fn imported_globals(m: WasmModuleView) -> nat {
    count_kind(section(m.imports), External::Global)
}

/// An export that the generated module can expose: a function or a global.
pub open spec fn is_fn_or_global(i: Internal) -> bool {
    i is Function || i is Global
}

/// Whether every export before position `i` is a function or a global.
pub open spec fn expected_before(exports: Seq<ExportEntryView>, i: int) -> bool {
    forall|j: int| 0 <= j < i ==> is_fn_or_global(#[trigger] exports[j].internal)
}

/// The position in the function section of the function with index `r`.
pub open spec fn defined_fn_index(m: WasmModuleView, r: u32) -> int {
    r - imported_fns(m)
}

/// The signature of the function with index `r`.
pub open spec fn signature_of(m: WasmModuleView, r: u32) -> crate::wasm::FunctionTypeView {
    m.types.unwrap()[section(m.functions)[defined_fn_index(m, r)] as int]
}

/// Whether the export's target is defined in this module with what the
/// generated code needs: a defined function whose signature has a result,
/// or a defined global. Other exports need nothing.
pub open spec fn resolves(m: WasmModuleView, i: Internal) -> bool {
    match i {
        Internal::Function(r) => {
            &&& imported_fns(m) <= r
            &&& defined_fn_index(m, r) < section(m.functions).len()
            &&& m.types is Some
            &&& section(m.functions)[defined_fn_index(m, r)] < m.types.unwrap().len()
            &&& signature_of(m, r).result is Some
        },
        Internal::Global(r) => {
            &&& imported_globals(m) <= r
            &&& r - imported_globals(m) < section(m.globals).len()
        },
        _ => true,
    }
}

/// Whether collecting the exports can go through: the import count fits a
/// `u32`, and each export up to the first that is neither a function nor a
/// global resolves.
pub open spec fn can_create(m: WasmModuleView) -> bool {
    &&& section(m.imports).len() <= u32::MAX
    &&& forall|i: int|
        0 <= i < section(m.exports).len() && expected_before(section(m.exports), i) ==> resolves(
            m,
            #[trigger] section(m.exports)[i].internal,
        )
}

/// Some export is neither a function nor a global.
pub open spec fn has_unexpected_export(m: WasmModuleView) -> bool {
    exists|i: int| 0 <= i < section(m.exports).len() && !is_fn_or_global(#[trigger] section(m.exports)[i].internal)
}

/// The function exported as `name` with index `r`.
pub open spec fn exported_fn(m: WasmModuleView, name: Seq<char>, r: u32) -> FunctionView {
    FunctionView {
        name,
        arg_types: signature_of(m, r).params,
        return_type: signature_of(m, r).result.unwrap(),
    }
}

/// The global exported as `name` with index `r`.
pub open spec fn exported_global(m: WasmModuleView, name: Seq<char>, r: u32) -> GlobalView {
    GlobalView { name, t: section(m.globals)[r - imported_globals(m)] }
}

/// The exported functions among `exports`, in order.
pub open spec fn exported_fns(m: WasmModuleView, exports: Seq<ExportEntryView>) -> Seq<FunctionView>
    decreases exports.len(),
{
    if exports.len() == 0 {
        Seq::empty()
    } else {
        exported_fns(m, exports.drop_last()) + match exports.last().internal {
            Internal::Function(r) => seq![exported_fn(m, exports.last().field, r)],
            _ => Seq::empty(),
        }
    }
}

/// The exported globals among `exports`, in order.
pub open spec fn exported_globals(m: WasmModuleView, exports: Seq<ExportEntryView>) -> Seq<GlobalView>
    decreases exports.len(),
{
    if exports.len() == 0 {
        Seq::empty()
    } else {
        exported_globals(m, exports.drop_last()) + match exports.last().internal {
            Internal::Global(r) => seq![exported_global(m, exports.last().field, r)],
            _ => Seq::empty(),
        }
    }
}

/// What `create_module` collects from a module that exports only functions
/// and globals.
pub open spec fn created_module(m: WasmModuleView) -> ModuleView {
    ModuleView {
        name: m.name,
        fns: exported_fns(m, section(m.exports)),
        globals: exported_globals(m, section(m.exports)),
    }
}

proof fn lemma_members_of_exports(m: WasmModuleView, ex: Seq<ExportEntryView>)
    requires
        forall|i: int| 0 <= i < ex.len() ==> is_fn_or_global(#[trigger] ex[i].internal),
    ensures
        exported_fns(m, ex).len() + exported_globals(m, ex).len() == ex.len(),
        forall|i: int|
            0 <= i < ex.len() && (#[trigger] ex[i]).internal is Function ==> exists|j: int|
                0 <= j < exported_fns(m, ex).len() && (#[trigger] exported_fns(m, ex)[j]).name == ex[i].field,
        forall|i: int|
            0 <= i < ex.len() && (#[trigger] ex[i]).internal is Global ==> exists|j: int|
                0 <= j < exported_globals(m, ex).len() && (#[trigger] exported_globals(m, ex)[j]).name == ex[i].field,
    decreases ex.len(),
{
    if ex.len() > 0 {
        let init = ex.drop_last();
        assert forall|i: int| 0 <= i < init.len() implies is_fn_or_global(#[trigger] init[i].internal) by {
            assert(init[i] == ex[i]);
        }
        lemma_members_of_exports(m, init);
        let fs = exported_fns(m, ex);
        let gs = exported_globals(m, ex);
        let last = ex.last();
        assert(is_fn_or_global(ex[ex.len() - 1].internal));
        assert forall|i: int| 0 <= i < ex.len() && (#[trigger] ex[i]).internal is Function implies exists|j: int|
            0 <= j < fs.len() && (#[trigger] fs[j]).name == ex[i].field by {
            if i < ex.len() - 1 {
                assert(init[i] == ex[i]);
                let j = choose|j: int| 0 <= j < exported_fns(m, init).len() && (#[trigger] exported_fns(m, init)[j]).name == init[i].field;
                assert(fs[j] == exported_fns(m, init)[j]);
            } else {
                let j = exported_fns(m, init).len() as int;
                assert(fs[j].name == last.field);
            }
        }
        assert forall|i: int| 0 <= i < ex.len() && (#[trigger] ex[i]).internal is Global implies exists|j: int|
            0 <= j < gs.len() && (#[trigger] gs[j]).name == ex[i].field by {
            if i < ex.len() - 1 {
                assert(init[i] == ex[i]);
                let j = choose|j: int| 0 <= j < exported_globals(m, init).len() && (#[trigger] exported_globals(m, init)[j]).name == init[i].field;
                assert(gs[j] == exported_globals(m, init)[j]);
            } else {
                let j = exported_globals(m, init).len() as int;
                assert(gs[j].name == last.field);
            }
        }
    }
}

/// When every export is a function or a global, the collected module has
/// exactly one member per export: each exported function appears under its
/// export name among the functions, each exported global among the globals.
#[verifier::spinoff_prover]
pub proof fn law_one_member_per_export(m: WasmModuleView)
    requires
        !has_unexpected_export(m),
    ensures
        created_module(m).fns.len() + created_module(m).globals.len() == section(m.exports).len(),
        forall|i: int|
            0 <= i < section(m.exports).len() && (#[trigger] section(m.exports)[i]).internal is Function
                ==> exists|j: int|
                0 <= j < created_module(m).fns.len() && (#[trigger] created_module(m).fns[j]).name
                    == section(m.exports)[i].field,
        forall|i: int|
            0 <= i < section(m.exports).len() && (#[trigger] section(m.exports)[i]).internal is Global
                ==> exists|j: int|
                0 <= j < created_module(m).globals.len() && (#[trigger] created_module(m).globals[j]).name
                    == section(m.exports)[i].field,
{
    let ex = section(m.exports);
    assert forall|i: int| 0 <= i < ex.len() implies is_fn_or_global(#[trigger] ex[i].internal) by {
        if !is_fn_or_global(ex[i].internal) {
            assert(has_unexpected_export(m));
        }
    }
    lemma_members_of_exports(m, ex);
}

/// The number of function entries in the import section, wherever they stand.
pub open spec fn function_import_count(m: WasmModuleView) -> nat {
    section(m.imports).filter(|e: External| e == External::Function).len()
}

/// The number of global entries in the import section, wherever they stand.
pub open spec fn global_import_count(m: WasmModuleView) -> nat {
    section(m.imports).filter(|e: External| e == External::Global).len()
}

/// The signature that the type section gives the function with index `r`:
/// the entry named by the function section's entry for `r`, once the
/// imported functions, which come first in the function index space, are
/// skipped.
pub open spec fn declared_signature(m: WasmModuleView, r: u32) -> crate::wasm::FunctionTypeView {
    m.types.unwrap()[section(m.functions)[r - function_import_count(m)] as int]
}

/// The export names a function defined in the module whose type has a
/// result (with any number of parameters, none included), or a global
/// defined in the module.
pub open spec fn names_defined_member(m: WasmModuleView, i: Internal) -> bool {
    match i {
        Internal::Function(r) => {
            &&& function_import_count(m) <= r
            &&& r - function_import_count(m) < section(m.functions).len()
            &&& m.types is Some
            &&& section(m.functions)[r - function_import_count(m)] < m.types.unwrap().len()
            &&& declared_signature(m, r).result is Some
        },
        Internal::Global(r) => {
            &&& global_import_count(m) <= r
            &&& r - global_import_count(m) < section(m.globals).len()
        },
        _ => false,
    }
}

proof fn lemma_count_is_filter_len(s: Seq<External>, k: External, p: spec_fn(External) -> bool)
    requires
        forall|e: External| #[trigger] p(e) == (e == k),
    ensures
        count_kind(s, k) == s.filter(p).len(),
    decreases s.len(),
{
    reveal_with_fuel(Seq::<_>::filter, 1);
    if s.len() > 0 {
        lemma_count_is_filter_len(s.drop_last(), k, p);
        assert(p(s.last()) == (s.last() == k));
        assert(s.filter(p) == if p(s.last()) {
            s.drop_last().filter(p).push(s.last())
        } else {
            s.drop_last().filter(p)
        });
    }
}

/// Every import of kind function counts, wherever it stands, and nothing
/// else does; likewise for globals.
pub proof fn law_import_counts(m: WasmModuleView)
    ensures
        imported_fns(m) == function_import_count(m),
        imported_globals(m) == global_import_count(m),
{
    lemma_count_is_filter_len(section(m.imports), External::Function, |e: External| e == External::Function);
    lemma_count_is_filter_len(section(m.imports), External::Global, |e: External| e == External::Global);
}

pub(crate) proof fn lemma_exported_members(m: WasmModuleView, ex: Seq<ExportEntryView>)
    requires
        forall|i: int| 0 <= i < ex.len() ==> names_defined_member(m, #[trigger] ex[i].internal),
    ensures
        ({
            let fex = ex.filter(|e: ExportEntryView| e.internal is Function);
            let fs = exported_fns(m, ex);
            &&& fs.len() == fex.len()
            &&& forall|k: int|
                0 <= k < fs.len() ==> match (#[trigger] fex[k]).internal {
                    Internal::Function(r) => {
                        &&& fs[k].name == fex[k].field
                        &&& fs[k].arg_types == declared_signature(m, r).params
                        &&& Some(fs[k].return_type) == declared_signature(m, r).result
                    },
                    _ => false,
                }
        }),
        ({
            let gex = ex.filter(|e: ExportEntryView| e.internal is Global);
            let gs = exported_globals(m, ex);
            &&& gs.len() == gex.len()
            &&& forall|k: int|
                0 <= k < gs.len() ==> match (#[trigger] gex[k]).internal {
                    Internal::Global(r) => {
                        &&& gs[k].name == gex[k].field
                        &&& gs[k].t == section(m.globals)[r - global_import_count(m)]
                    },
                    _ => false,
                }
        }),
    decreases ex.len(),
{
    reveal_with_fuel(Seq::<_>::filter, 1);
    law_import_counts(m);
    if ex.len() > 0 {
        let init = ex.drop_last();
        assert forall|i: int| 0 <= i < init.len() implies names_defined_member(m, #[trigger] init[i].internal) by {
            assert(init[i] == ex[i]);
        }
        lemma_exported_members(m, init);
        assert(names_defined_member(m, ex[ex.len() - 1].internal));
        let pf = |e: ExportEntryView| e.internal is Function;
        let pg = |e: ExportEntryView| e.internal is Global;
        let fex0 = init.filter(pf);
        let gex0 = init.filter(pg);
        let fs0 = exported_fns(m, init);
        let gs0 = exported_globals(m, init);
        let fex = ex.filter(pf);
        let gex = ex.filter(pg);
        let fs = exported_fns(m, ex);
        let gs = exported_globals(m, ex);
        let last = ex.last();
        match last.internal {
            Internal::Function(r) => {
                assert(fex == fex0.push(last));
                assert(gex == gex0);
                assert(fs == fs0.push(exported_fn(m, last.field, r)));
                assert(gs =~= gs0);
                assert forall|k: int| 0 <= k < fs.len() implies match (#[trigger] fex[k]).internal {
                    Internal::Function(r) => {
                        &&& fs[k].name == fex[k].field
                        &&& fs[k].arg_types == declared_signature(m, r).params
                        &&& Some(fs[k].return_type) == declared_signature(m, r).result
                    },
                    _ => false,
                } by {
                    if k < fs0.len() {
                        assert(fex[k] == fex0[k]);
                        assert(fs[k] == fs0[k]);
                    }
                }
            },
            Internal::Global(r) => {
                assert(gex == gex0.push(last));
                assert(fex == fex0);
                assert(gs == gs0.push(exported_global(m, last.field, r)));
                assert(fs =~= fs0);
                assert forall|k: int| 0 <= k < gs.len() implies match (#[trigger] gex[k]).internal {
                    Internal::Global(r) => {
                        &&& gs[k].name == gex[k].field
                        &&& gs[k].t == section(m.globals)[r - global_import_count(m)]
                    },
                    _ => false,
                } by {
                    if k < gs0.len() {
                        assert(gex[k] == gex0[k]);
                        assert(gs[k] == gs0[k]);
                    }
                }
            },
            _ => {},
        }
    }
}

/// A module whose exports each name a function defined in the module with a
/// result type (whatever its parameters, none included) or a global defined
/// in the module, and whose import count fits a `u32`, is accepted:
/// `create_module` can run and succeeds. Its functions are the function
/// exports in export order, each with its export name and with the
/// parameters and result of the type that the function section gives it;
/// its globals are the global exports in export order, each with the type of
/// the defined global it names. Imported functions and imported globals,
/// counted over the whole import section, shift the two index spaces.
pub proof fn law_created_module_members(m: WasmModuleView)
    requires
        section(m.imports).len() <= u32::MAX,
        forall|i: int|
            0 <= i < section(m.exports).len() ==> names_defined_member(m, #[trigger] section(m.exports)[i].internal),
    ensures
        can_create(m),
        !has_unexpected_export(m),
        ({
            let fex = section(m.exports).filter(|e: ExportEntryView| e.internal is Function);
            let fs = created_module(m).fns;
            &&& fs.len() == fex.len()
            &&& forall|k: int|
                0 <= k < fs.len() ==> match (#[trigger] fex[k]).internal {
                    Internal::Function(r) => {
                        &&& fs[k].name == fex[k].field
                        &&& fs[k].arg_types == declared_signature(m, r).params
                        &&& Some(fs[k].return_type) == declared_signature(m, r).result
                    },
                    _ => false,
                }
        }),
        ({
            let gex = section(m.exports).filter(|e: ExportEntryView| e.internal is Global);
            let gs = created_module(m).globals;
            &&& gs.len() == gex.len()
            &&& forall|k: int|
                0 <= k < gs.len() ==> match (#[trigger] gex[k]).internal {
                    Internal::Global(r) => {
                        &&& gs[k].name == gex[k].field
                        &&& gs[k].t == section(m.globals)[r - global_import_count(m)]
                    },
                    _ => false,
                }
        }),
{
    let ex = section(m.exports);
    law_import_counts(m);
    lemma_exported_members(m, ex);
    assert forall|i: int| 0 <= i < ex.len() && expected_before(ex, i) implies resolves(m, #[trigger] ex[i].internal) by {
        assert(names_defined_member(m, ex[i].internal));
    }
    if has_unexpected_export(m) {
        let i = choose|i: int| 0 <= i < ex.len() && !is_fn_or_global(#[trigger] ex[i].internal);
        assert(names_defined_member(m, ex[i].internal));
    }
}

/// Holds a decoded wasm module.
pub struct Interpreter {
    pwasm_module: WasmModule,
}

impl View for Interpreter {
    type V = WasmModuleView;

    closed spec fn view(&self) -> WasmModuleView {
        self.pwasm_module@
    }
}

impl Interpreter {
    /// Decodes the wasm binary `bytes`. Its custom `name` sections must
    /// parse; `try_new` checks that.
    pub fn new(bytes: &[u8]) -> (r: Result<Interpreter, Error>)
        requires
            wasm_decodes(bytes@) ==> wasm_names_parse(bytes@),
        ensures
            match r {
                Ok(i) => wasm_decodes(bytes@) && i@ == decoded_module(bytes@),
                Err(e) => !wasm_decodes(bytes@) && e@ == wasm_decode_message(bytes@),
            },
    {
        Self::from_decoded(WasmModule::decode(bytes), Ghost(bytes@))
    }

    /// Decodes the wasm binary `bytes` as `new` does, or gives `None` when
    /// the module decodes but one of its custom `name` sections does not parse.
    pub fn try_new(bytes: &[u8]) -> (r: Option<Result<Interpreter, Error>>)
        ensures
            r is None <==> wasm_decodes(bytes@) && !wasm_names_parse(bytes@),
            r matches Some(Ok(i)) ==> wasm_decodes(bytes@) && i@ == decoded_module(bytes@),
            r matches Some(Err(e)) ==> !wasm_decodes(bytes@) && e@ == wasm_decode_message(bytes@),
    {
        let decoded = WasmModule::decode(bytes);
        match decoded {
            Err(DecodeError::BadNames) => None,
            _ => Some(Self::from_decoded(decoded, Ghost(bytes@))),
        }
    }

    /// The interpreter for what decoding `bytes` gave, other than a name
    /// section that does not parse.
    fn from_decoded(decoded: Result<WasmModule, DecodeError>, Ghost(bytes): Ghost<Seq<u8>>) -> (r: Result<Interpreter, Error>)
        requires
            !(decoded matches Err(DecodeError::BadNames)),
            match decoded {
                Ok(m) => wasm_decodes(bytes) && wasm_names_parse(bytes) && m@ == decoded_module(bytes),
                Err(DecodeError::Malformed(msg)) => !wasm_decodes(bytes) && msg@ == wasm_decode_message(bytes),
                Err(DecodeError::BadNames) => wasm_decodes(bytes) && !wasm_names_parse(bytes),
            },
        ensures
            match r {
                Ok(i) => wasm_decodes(bytes) && i@ == decoded_module(bytes),
                Err(e) => !wasm_decodes(bytes) && e@ == wasm_decode_message(bytes),
            },
    {
        match decoded {
            Ok(m) => Ok(Interpreter { pwasm_module: m }),
            Err(DecodeError::Malformed(msg)) => Err(Error::from_message(msg)),
            Err(DecodeError::BadNames) => {
                proof {
                    assert(false);
                }
                Err(Error::new("Names to be parsed"))
            },
        }
    }

    /// An interpreter over an already decoded module.
    pub fn from_module(module: WasmModule) -> (i: Interpreter)
        ensures
            i@ == module@,
    {
        Interpreter { pwasm_module: module }
    }

    /// Whether `create_module` can be called: see `can_create`.
    pub fn can_create_module(&self) -> (r: bool)
        ensures
            r == can_create(self@),
    {
        proof {
            self.lemma_section_views();
        }
        let imports_len = match &self.pwasm_module.imports {
            Some(v) => v.len(),
            None => 0,
        };
        if imports_len > 4294967295usize {
            return false;
        }
        let (fn_imports, global_imports) = self.get_imported_lens();
        let exports = self.get_exports();
        let ghost m = self@;
        let ghost ex = section(m.exports);
        let mut i: usize = 0;
        while i < exports.len()
            invariant
                i <= exports.len(),
                exports@.len() == ex.len(),
                forall|k: int| 0 <= k < ex.len() ==> (#[trigger] exports@[k])@ == ex[k],
                m == self@,
                ex == section(m.exports),
                section(m.imports).len() <= u32::MAX,
                fn_imports == imported_fns(m),
                global_imports == imported_globals(m),
                expected_before(ex, i as int),
                forall|k: int| 0 <= k < i ==> resolves(m, #[trigger] ex[k].internal),
            decreases exports.len() - i,
        {
            let e = &exports[i];
            assert(e@ == ex[i as int]);
            if !self.export_resolves(e.internal, fn_imports, global_imports) {
                assert(expected_before(ex, i as int) && !resolves(m, ex[i as int].internal));
                return false;
            }
            match e.internal {
                Internal::Function(_) => {},
                Internal::Global(_) => {},
                _ => {
                    assert forall|k: int|
                        0 <= k < ex.len() && expected_before(ex, k) implies resolves(m, #[trigger] ex[k].internal) by {
                        if k > i {
                            assert(is_fn_or_global(ex[i as int].internal));
                        }
                    }
                    return true;
                },
            }
            i = i + 1;
        }
        true
    }

    proof fn lemma_section_views(&self)
        ensures
            section(self@.imports) == match self.pwasm_module.imports {
                Some(v) => v@,
                None => Seq::<External>::empty(),
            },
            section(self@.exports) == match self.pwasm_module.exports {
                Some(v) => v@.map_values(|e: ExportEntry| e@),
                None => Seq::<ExportEntryView>::empty(),
            },
    {
    }

    fn export_resolves(&self, internal: Internal, fn_imports: u32, global_imports: u32) -> (r: bool)
        requires
            fn_imports == imported_fns(self@),
            global_imports == imported_globals(self@),
        ensures
            r == resolves(self@, internal),
    {
        match internal {
            Internal::Function(r) => {
                if r < fn_imports {
                    return false;
                }
                let k = (r - fn_imports) as usize;
                let functions = match &self.pwasm_module.functions {
                    Some(v) => v.as_slice(),
                    None => &[],
                };
                if k >= functions.len() {
                    return false;
                }
                match &self.pwasm_module.types {
                    None => false,
                    Some(types) => {
                        let t = functions[k] as usize;
                        if t >= types.len() {
                            false
                        } else {
                            assert(self@.types.unwrap()[t as int] == types@[t as int]@);
                            types[t].result.is_some()
                        }
                    },
                }
            },
            Internal::Global(r) => {
                if r < global_imports {
                    return false;
                }
                let k = (r - global_imports) as usize;
                let n = match &self.pwasm_module.globals {
                    Some(v) => v.len(),
                    None => 0,
                };
                k < n
            },
            _ => true,
        }
    }

    /// Collects the exported functions and globals, in export order, into a
    /// `Module` that keeps the name of the module's name section. Fails with
    /// `unexpected export` when some export is neither a function nor a global.
    pub fn create_module(&self) -> (r: Result<Module, Error>)
        requires
            can_create(self@),
        ensures
            match r {
                Ok(module) => !has_unexpected_export(self@) && module@ == created_module(self@),
                Err(e) => has_unexpected_export(self@) && e@ == "unexpected export"@,
            },
    {
        proof {
            self.lemma_section_views();
        }
        let name = self.get_module_name();
        let exports = self.get_exports();
        let (fn_imports, global_imports) = self.get_imported_lens();
        let ghost m = self@;
        let ghost ex = section(m.exports);
        let mut fns: Vec<Function> = Vec::new();
        let mut globals: Vec<Global> = Vec::new();
        let mut i: usize = 0;
        while i < exports.len()
            invariant
                i <= exports.len(),
                exports@.len() == ex.len(),
                forall|k: int| 0 <= k < ex.len() ==> (#[trigger] exports@[k])@ == ex[k],
                m == self@,
                ex == section(m.exports),
                can_create(m),
                fn_imports == imported_fns(m),
                global_imports == imported_globals(m),
                expected_before(ex, i as int),
                fns@.map_values(|f: Function| f@) == exported_fns(m, ex.take(i as int)),
                globals@.map_values(|g: Global| g@) == exported_globals(m, ex.take(i as int)),
            decreases exports.len() - i,
        {
            let e = &exports[i];
            assert(e@ == ex[i as int]);
            assert(resolves(m, ex[i as int].internal));
            assert(ex.take(i + 1).drop_last() =~= ex.take(i as int));
            match e.internal {
                Internal::Function(r) => {
                    let f = self.get_exported_fn(e.field.as_str(), r - fn_imports);
                    let ghost before = fns@;
                    fns.push(f);
                    assert(fns@.map_values(|f: Function| f@) =~= before.map_values(|f: Function| f@).push(f@));
                    assert(exported_globals(m, ex.take(i + 1)) == exported_globals(m, ex.take(i as int)));
                },
                Internal::Global(r) => {
                    let g = self.get_exported_global(e.field.as_str(), r - global_imports);
                    let ghost before = globals@;
                    globals.push(g);
                    assert(globals@.map_values(|g: Global| g@) =~= before.map_values(|g: Global| g@).push(g@));
                    assert(exported_fns(m, ex.take(i + 1)) == exported_fns(m, ex.take(i as int)));
                },
                _ => {
                    assert(!is_fn_or_global(ex[i as int].internal));
                    return Err(Error::new("unexpected export"));
                },
            }
            i = i + 1;
        }
        assert(ex.take(i as int) =~= ex);
        assert(!has_unexpected_export(m));
        Ok(Module::new(name, fns, globals))
    }

    fn get_module_name(&self) -> (r: Option<String>)
        ensures
            string_opt_view(r) == self@.name,
    {
        match &self.pwasm_module.name {
            Some(n) => Some(n.clone()),
            None => None,
        }
    }

    fn get_exports(&self) -> (r: &[ExportEntry])
        ensures
            r@.map_values(|e: ExportEntry| e@) == section(self@.exports),
    {
        match &self.pwasm_module.exports {
            Some(v) => v.as_slice(),
            None => &[],
        }
    }

    fn get_exported_global(&self, name: &str, i: u32) -> (g: Global)
        requires
            (i as int) < section(self@.globals).len(),
        ensures
            g@ == (GlobalView { name: name@, t: section(self@.globals)[i as int] }),
    {
        let globals = match &self.pwasm_module.globals {
            Some(v) => v.as_slice(),
            None => &[],
        };
        let global_type = globals[i as usize];
        Global::new(name, global_type)
    }

    fn get_exported_fn(&self, name: &str, i: u32) -> (f: Function)
        requires
            (i as int) < section(self@.functions).len(),
            self@.types is Some,
            section(self@.functions)[i as int] < self@.types.unwrap().len(),
            self@.types.unwrap()[section(self@.functions)[i as int] as int].result is Some,
        ensures
            f@ == ({
                let ty = self@.types.unwrap()[section(self@.functions)[i as int] as int];
                FunctionView { name: name@, arg_types: ty.params, return_type: ty.result.unwrap() }
            }),
    {
        let functions = match &self.pwasm_module.functions {
            Some(v) => v.as_slice(),
            None => &[],
        };
        let func_type_ref = functions[i as usize] as usize;
        let types = match &self.pwasm_module.types {
            Some(v) => v,
            None => {
                assert(false);
                return Function { name: String::from_str(name), arg_types: Vec::new(), return_type: ValueType::I32 };
            },
        };
        let function_type = &types[func_type_ref];
        assert(function_type@ == self@.types.unwrap()[func_type_ref as int]);
        let mut arg_types: Vec<ValueType> = Vec::new();
        let mut k: usize = 0;
        while k < function_type.params.len()
            invariant
                k <= function_type.params.len(),
                arg_types@ == function_type.params@.take(k as int),
            decreases function_type.params.len() - k,
        {
            arg_types.push(function_type.params[k]);
            assert(function_type.params@.take(k + 1) =~= function_type.params@.take(k as int).push(function_type.params@[k as int]));
            k = k + 1;
        }
        assert(function_type.params@.take(k as int) =~= function_type.params@);
        let return_type = match function_type.result {
            Some(t) => t,
            None => {
                assert(false);
                ValueType::I32
            },
        };
        Function { name: String::from_str(name), arg_types, return_type }
    }

    fn get_imported_lens(&self) -> (r: (u32, u32))
        requires
            section(self@.imports).len() <= u32::MAX,
        ensures
            r.0 == imported_fns(self@),
            r.1 == imported_globals(self@),
    {
        proof {
            self.lemma_section_views();
        }
        match &self.pwasm_module.imports {
            None => (0, 0),
            Some(imports) => {
                let mut fns: u32 = 0;
                let mut globals: u32 = 0;
                let mut i: usize = 0;
                while i < imports.len()
                    invariant
                        i <= imports.len(),
                        imports.len() <= u32::MAX,
                        fns == count_kind(imports@.take(i as int), External::Function),
                        globals == count_kind(imports@.take(i as int), External::Global),
                        fns <= i,
                        globals <= i,
                    decreases imports.len() - i,
                {
                    assert(imports@.take(i + 1).drop_last() =~= imports@.take(i as int));
                    match imports[i] {
                        External::Function => fns = fns + 1,
                        External::Global => globals = globals + 1,
                        _ => {},
                    }
                    i = i + 1;
                }
                assert(imports@.take(i as int) =~= imports@);
                (fns, globals)
            },
        }
    }
}

} // verus!
