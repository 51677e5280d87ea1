//! Collects the exported functions of a module that exports nothing else.

use vstd::prelude::*;
use crate::function::Function;
use crate::interpreter::{declared_signature, law_import_counts, lemma_exported_members, names_defined_member, can_create, count_kind, created_module, exported_fns, exported_globals, has_unexpected_export, imported_fns, resolves, section};
use crate::wasm::{ExportEntry, ExportEntryView, External, Internal, ValueType, WasmModule, WasmModuleView};

verus! {

/// What `get_exported_fns` needs: the export, function and type sections are
/// there, and every export is a function defined in the module whose
/// signature has a result.
pub open spec fn exports_only_functions(m: WasmModuleView) -> bool {
    &&& m.exports is Some
    &&& m.functions is Some
    &&& m.types is Some
    &&& forall|i: int|
        0 <= i < section(m.exports).len() ==> (#[trigger] section(m.exports)[i].internal) is Function && resolves(
            m,
            section(m.exports)[i].internal,
        )
}

proof fn lemma_no_globals(m: WasmModuleView, ex: Seq<crate::wasm::ExportEntryView>)
    requires
        forall|i: int| 0 <= i < ex.len() ==> (#[trigger] ex[i]).internal is Function,
    ensures
        exported_globals(m, ex).len() == 0,
    decreases ex.len(),
{
    if ex.len() > 0 {
        let init = ex.drop_last();
        assert forall|i: int| 0 <= i < init.len() implies (#[trigger] init[i]).internal is Function by {
            assert(init[i] == ex[i]);
        }
        lemma_no_globals(m, init);
        assert(ex[ex.len() - 1].internal is Function);
    }
}

/// On a module that exports only functions, `get_exported_fns` and
/// `Interpreter::create_module` agree: the latter can run, succeeds, and
/// collects the same functions and no globals.
pub proof fn law_extract_agrees_with_create_module(m: WasmModuleView)
    requires
        exports_only_functions(m),
        section(m.imports).len() <= u32::MAX,
    ensures
        can_create(m),
        !has_unexpected_export(m),
        created_module(m).fns == exported_fns(m, section(m.exports)),
        created_module(m).globals.len() == 0,
{
    let ex = section(m.exports);
    assert forall|i: int| 0 <= i < ex.len() implies (#[trigger] ex[i]).internal is Function by {
        assert(section(m.exports)[i].internal is Function);
    }
    lemma_no_globals(m, ex);
    assert forall|i: int|
        0 <= i < ex.len() && crate::interpreter::expected_before(ex, i) implies resolves(m, #[trigger] ex[i].internal) by {
        assert(section(m.exports)[i].internal is Function);
    }
    if has_unexpected_export(m) {
        let i = choose|i: int| 0 <= i < ex.len() && !crate::interpreter::is_fn_or_global(#[trigger] ex[i].internal);
        assert(section(m.exports)[i].internal is Function);
    }
}

proof fn lemma_count_kind_append(a: Seq<External>, b: Seq<External>, k: External)
    ensures
        count_kind(a + b, k) == count_kind(a, k) + count_kind(b, k),
    decreases b.len(),
{
    if b.len() == 0 {
        assert(a + b =~= a);
    } else {
        assert((a + b).drop_last() =~= a + b.drop_last());
        lemma_count_kind_append(a, b.drop_last(), k);
    }
}

proof fn lemma_count_kind_absent(b: Seq<External>, k: External)
    requires
        forall|i: int| 0 <= i < b.len() ==> b[i] != k,
    ensures
        count_kind(b, k) == 0,
    decreases b.len(),
{
    if b.len() > 0 {
        lemma_count_kind_absent(b.drop_last(), k);
    }
}

proof fn lemma_exported_fns_depend_on_function_imports(m1: WasmModuleView, m2: WasmModuleView, ex: Seq<ExportEntryView>)
    requires
        m1.types == m2.types,
        m1.functions == m2.functions,
        imported_fns(m1) == imported_fns(m2),
    ensures
        exported_fns(m1, ex) == exported_fns(m2, ex),
    decreases ex.len(),
{
    if ex.len() > 0 {
        lemma_exported_fns_depend_on_function_imports(m1, m2, ex.drop_last());
    }
}

/// Adding imports that are not functions (globals, memories, tables) to a
/// module changes nothing for `get_exported_fns`: only imported functions
/// shift the function index space. The module with the added imports meets
/// the requirement of `get_exported_fns` exactly when the module does, and
/// the same functions come out.
pub proof fn law_non_function_imports_keep_exported_fns(m: WasmModuleView, extra: Seq<External>)
    requires
        forall|i: int| 0 <= i < extra.len() ==> extra[i] != External::Function,
    ensures
        ({
            let m2 = WasmModuleView {
                name: m.name,
                types: m.types,
                imports: Some(section(m.imports) + extra),
                functions: m.functions,
                globals: m.globals,
                exports: m.exports,
            };
            &&& imported_fns(m2) == imported_fns(m)
            &&& exports_only_functions(m2) <==> exports_only_functions(m)
            &&& exported_fns(m2, section(m2.exports)) == exported_fns(m, section(m.exports))
        }),
{
    let m2 = WasmModuleView {
        name: m.name,
        types: m.types,
        imports: Some(section(m.imports) + extra),
        functions: m.functions,
        globals: m.globals,
        exports: m.exports,
    };
    lemma_count_kind_append(section(m.imports), extra, External::Function);
    lemma_count_kind_absent(extra, External::Function);
    assert(imported_fns(m2) == imported_fns(m));
    lemma_exported_fns_depend_on_function_imports(m2, m, section(m.exports));
    let ex = section(m.exports);
    assert forall|i: int| 0 <= i < ex.len() && (#[trigger] ex[i].internal) is Function implies resolves(m2, ex[i].internal)
        == resolves(m, ex[i].internal) by {}
    if exports_only_functions(m) {
        assert forall|i: int| 0 <= i < section(m2.exports).len() implies (#[trigger] section(m2.exports)[i].internal) is Function
            && resolves(m2, section(m2.exports)[i].internal) by {
            assert(section(m.exports)[i].internal is Function);
        }
    }
    if exports_only_functions(m2) {
        assert forall|i: int| 0 <= i < section(m.exports).len() implies (#[trigger] section(m.exports)[i].internal) is Function
            && resolves(m, section(m.exports)[i].internal) by {
            assert(section(m2.exports)[i].internal is Function);
        }
    }
}

proof fn lemma_filter_keeps_all(ex: Seq<ExportEntryView>, p: spec_fn(ExportEntryView) -> bool)
    requires
        forall|i: int| 0 <= i < ex.len() ==> p(#[trigger] ex[i]),
    ensures
        ex.filter(p) == ex,
    decreases ex.len(),
{
    reveal_with_fuel(Seq::<_>::filter, 1);
    if ex.len() > 0 {
        let init = ex.drop_last();
        assert forall|i: int| 0 <= i < init.len() implies p(#[trigger] init[i]) by {
            assert(init[i] == ex[i]);
        }
        lemma_filter_keeps_all(init, p);
        assert(p(ex[ex.len() - 1]));
        assert(init.push(ex.last()) =~= ex);
    }
}

/// On a module whose export, function and type sections are there and whose
/// exports each name a function defined in the module with a result type
/// (any number of parameters, none included), `get_exported_fns` can run and
/// gives one function per export, in export order: the `k`-th is named like
/// the `k`-th export and has the parameters and result of the type that the
/// function section gives that export's function, the function index taken
/// after all imported functions of the import section, wherever they stand.
pub proof fn law_exported_fns_signatures(m: WasmModuleView)
    requires
        m.exports is Some,
        m.functions is Some,
        m.types is Some,
        forall|i: int|
            0 <= i < section(m.exports).len() ==> (#[trigger] section(m.exports)[i].internal) is Function
                && names_defined_member(m, section(m.exports)[i].internal),
    ensures
        exports_only_functions(m),
        exported_fns(m, section(m.exports)).len() == section(m.exports).len(),
        forall|k: int|
            0 <= k < section(m.exports).len() ==> match (#[trigger] section(m.exports)[k]).internal {
                Internal::Function(r) => {
                    &&& exported_fns(m, section(m.exports))[k].name == section(m.exports)[k].field
                    &&& exported_fns(m, section(m.exports))[k].arg_types == declared_signature(m, r).params
                    &&& Some(exported_fns(m, section(m.exports))[k].return_type) == declared_signature(m, r).result
                },
                _ => false,
            },
{
    let ex = section(m.exports);
    law_import_counts(m);
    assert forall|i: int| 0 <= i < ex.len() implies names_defined_member(m, #[trigger] ex[i].internal) by {
        assert(section(m.exports)[i].internal is Function);
    }
    lemma_exported_members(m, ex);
    let pf = |e: ExportEntryView| e.internal is Function;
    assert forall|i: int| 0 <= i < ex.len() implies pf(#[trigger] ex[i]) by {
        assert(section(m.exports)[i].internal is Function);
    }
    lemma_filter_keeps_all(ex, pf);
    assert forall|i: int| 0 <= i < ex.len() implies (#[trigger] ex[i].internal) is Function && resolves(m, ex[i].internal) by {
        assert(section(m.exports)[i].internal is Function);
        assert(names_defined_member(m, ex[i].internal));
    }
}

/// The exported functions of `module`, in export order, each with its export
/// name and signature.
pub fn get_exported_fns(module: &WasmModule) -> (r: Vec<Function>)
    requires
        exports_only_functions(module@),
    ensures
        r@.map_values(|f: Function| f@) == exported_fns(module@, section(module@.exports)),
{
    let ghost m = module@;
    let export_section = match &module.exports {
        Some(v) => v,
        None => {
            assert(false);
            return Vec::new();
        },
    };
    let function_section = match &module.functions {
        Some(v) => v,
        None => {
            assert(false);
            return Vec::new();
        },
    };
    let type_section = match &module.types {
        Some(v) => v,
        None => {
            assert(false);
            return Vec::new();
        },
    };
    let imported_fns_len = get_imported_fns_len(module);
    let ghost ex = section(m.exports);
    assert(ex == export_section@.map_values(|e: ExportEntry| e@));
    let mut exported: Vec<Function> = Vec::new();
    let mut i: usize = 0;
    while i < export_section.len()
        invariant
            i <= export_section.len(),
            m == module@,
            ex == section(m.exports),
            ex == export_section@.map_values(|e: ExportEntry| e@),
            m.functions == Some(function_section@),
            m.types == Some(type_section@.map_values(|t: crate::wasm::FunctionType| t@)),
            exports_only_functions(m),
            imported_fns_len == imported_fns(m),
            exported@.map_values(|f: Function| f@) == exported_fns(m, ex.take(i as int)),
        decreases export_section.len() - i,
    {
        let export = &export_section[i];
        assert(export@ == ex[i as int]);
        assert(section(m.exports)[i as int].internal is Function && resolves(m, section(m.exports)[i as int].internal));
        assert(ex.take(i + 1).drop_last() =~= ex.take(i as int));
        let function_index: usize = match export.internal {
            Internal::Function(k) => k as usize,
            _ => {
                assert(false);
                0
            },
        };
        let function_index_in_section = function_index - imported_fns_len;
        let func_type_ref = function_section[function_index_in_section] as usize;
        let function_type = &type_section[func_type_ref];
        let mut arg_types: Vec<ValueType> = Vec::new();
        let mut k: usize = 0;
        while k < function_type.params.len()
            invariant
                k <= function_type.params.len(),
                arg_types@ == function_type.params@.take(k as int),
            decreases function_type.params.len() - k,
        {
            arg_types.push(function_type.params[k]);
            assert(function_type.params@.take(k + 1) =~= function_type.params@.take(k as int).push(
                function_type.params@[k as int],
            ));
            k = k + 1;
        }
        assert(function_type.params@.take(k as int) =~= function_type.params@);
        let return_type = match function_type.result {
            Some(t) => t,
            None => {
                assert(false);
                ValueType::I32
            },
        };
        let f = Function { name: export.field.clone(), arg_types, return_type };
        let ghost before = exported@;
        exported.push(f);
        assert(exported@.map_values(|f: Function| f@) =~= before.map_values(|f: Function| f@).push(f@));
        i = i + 1;
    }
    assert(ex.take(i as int) =~= ex);
    exported
}

/// How many of the module's imports are functions.
fn get_imported_fns_len(module: &WasmModule) -> (r: usize)
    ensures
        r == imported_fns(module@),
{
    match &module.imports {
        None => 0,
        Some(imports) => {
            let mut n: usize = 0;
            let mut i: usize = 0;
            while i < imports.len()
                invariant
                    i <= imports.len(),
                    n == count_kind(imports@.take(i as int), External::Function),
                    n <= i,
                decreases imports.len() - i,
            {
                assert(imports@.take(i + 1).drop_last() =~= imports@.take(i as int));
                if imports[i] == External::Function {
                    n = n + 1;
                }
                i = i + 1;
            }
            assert(imports@.take(i as int) =~= imports@);
            n
        },
    }
}

} // verus!
