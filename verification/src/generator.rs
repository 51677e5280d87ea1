//! Produces the source file for a module: its imports, then the module.

use vstd::prelude::*;
use crate::builder::{first_segment, import_insert, lemma_first_segment_plain, render_scope, scope_import, scope_new, scope_raw, scope_state, scope_to_string, ScopeItem, ScopeState};
use crate::error::Error;
use crate::module::{module_scope, Module, ModuleView};

verus! {

/// The `extern crate` lines that open a generated file.
pub const GENERATED_HEADER: &'static str = "extern crate wasmi;\nextern crate parity_wasm;\nextern crate ruster;\n";

/// `imports` after importing `NopExternals`, `RuntimeValue`, `ModuleRef`,
/// `ModuleInstance` and `ImportsBuilder` from `wasmi`, then `error` from `std`.
pub open spec fn prelude_imports(imports: Seq<(Seq<char>, Seq<Seq<char>>)>) -> Seq<(Seq<char>, Seq<Seq<char>>)> {
    let i1 = import_insert(imports, "wasmi"@, first_segment("NopExternals"@));
    let i2 = import_insert(i1, "wasmi"@, first_segment("RuntimeValue"@));
    let i3 = import_insert(i2, "wasmi"@, first_segment("ModuleRef"@));
    let i4 = import_insert(i3, "wasmi"@, first_segment("ModuleInstance"@));
    let i5 = import_insert(i4, "wasmi"@, first_segment("ImportsBuilder"@));
    import_insert(i5, "std"@, first_segment("error"@))
}

/// A generated file imports, once each and in this order, `NopExternals`,
/// `RuntimeValue`, `ModuleRef`, `ModuleInstance` and `ImportsBuilder` from
/// `wasmi`, and `error` from `std`.
pub proof fn law_prelude_imports()
    ensures
        prelude_imports(Seq::empty()) == seq![
            ("wasmi"@, seq!["NopExternals"@, "RuntimeValue"@, "ModuleRef"@, "ModuleInstance"@, "ImportsBuilder"@]),
            ("std"@, seq!["error"@]),
        ],
{
    reveal_strlit("wasmi");
    reveal_strlit("std");
    reveal_strlit("NopExternals");
    reveal_strlit("RuntimeValue");
    reveal_strlit("ModuleRef");
    reveal_strlit("ModuleInstance");
    reveal_strlit("ImportsBuilder");
    reveal_strlit("error");
    lemma_first_segment_plain("NopExternals"@);
    lemma_first_segment_plain("RuntimeValue"@);
    lemma_first_segment_plain("ModuleRef"@);
    lemma_first_segment_plain("ModuleInstance"@);
    lemma_first_segment_plain("ImportsBuilder"@);
    lemma_first_segment_plain("error"@);
    let w = "wasmi"@;
    let e: Seq<(Seq<char>, Seq<Seq<char>>)> = Seq::empty();
    let i1 = import_insert(e, w, "NopExternals"@);
    assert(i1 == seq![(w, seq!["NopExternals"@])]);
    let i2 = import_insert(i1, w, "RuntimeValue"@);
    assert(!seq!["NopExternals"@].contains("RuntimeValue"@)) by {
        assert(seq!["NopExternals"@][0] != "RuntimeValue"@);
    }
    assert(i1.drop_first() =~= Seq::<(Seq<char>, Seq<Seq<char>>)>::empty());
    assert(seq!["NopExternals"@].push("RuntimeValue"@) =~= seq!["NopExternals"@, "RuntimeValue"@]);
    assert(i2 =~= seq![(w, seq!["NopExternals"@, "RuntimeValue"@])]);
    let i3 = import_insert(i2, w, "ModuleRef"@);
    assert(!seq!["NopExternals"@, "RuntimeValue"@].contains("ModuleRef"@)) by {
        let s = seq!["NopExternals"@, "RuntimeValue"@];
        assert(s[0] != "ModuleRef"@ && s[1] != "ModuleRef"@);
    }
    assert(i2.drop_first() =~= Seq::<(Seq<char>, Seq<Seq<char>>)>::empty());
    assert(seq!["NopExternals"@, "RuntimeValue"@].push("ModuleRef"@) =~= seq!["NopExternals"@, "RuntimeValue"@, "ModuleRef"@]);
    assert(i3 =~= seq![(w, seq!["NopExternals"@, "RuntimeValue"@, "ModuleRef"@])]);
    let i4 = import_insert(i3, w, "ModuleInstance"@);
    assert(!seq!["NopExternals"@, "RuntimeValue"@, "ModuleRef"@].contains("ModuleInstance"@)) by {
        let s = seq!["NopExternals"@, "RuntimeValue"@, "ModuleRef"@];
        assert(s[0] != "ModuleInstance"@ && s[1] != "ModuleInstance"@ && s[2] != "ModuleInstance"@);
    }
    assert(i3.drop_first() =~= Seq::<(Seq<char>, Seq<Seq<char>>)>::empty());
    assert(seq!["NopExternals"@, "RuntimeValue"@, "ModuleRef"@].push("ModuleInstance"@) =~= seq![
        "NopExternals"@,
        "RuntimeValue"@,
        "ModuleRef"@,
        "ModuleInstance"@,
    ]);
    assert(i4 =~= seq![(w, seq!["NopExternals"@, "RuntimeValue"@, "ModuleRef"@, "ModuleInstance"@])]);
    let i5 = import_insert(i4, w, "ImportsBuilder"@);
    assert(!seq!["NopExternals"@, "RuntimeValue"@, "ModuleRef"@, "ModuleInstance"@].contains("ImportsBuilder"@)) by {
        let s = seq!["NopExternals"@, "RuntimeValue"@, "ModuleRef"@, "ModuleInstance"@];
        assert(s[0] != "ImportsBuilder"@ && s[1] != "ImportsBuilder"@ && s[2] != "ImportsBuilder"@ && s[3]
            != "ImportsBuilder"@);
    }
    let tys = seq!["NopExternals"@, "RuntimeValue"@, "ModuleRef"@, "ModuleInstance"@, "ImportsBuilder"@];
    assert(i4.drop_first() =~= Seq::<(Seq<char>, Seq<Seq<char>>)>::empty());
    assert(seq!["NopExternals"@, "RuntimeValue"@, "ModuleRef"@, "ModuleInstance"@].push("ImportsBuilder"@) =~= tys);
    assert(i5 =~= seq![(w, tys)]);
    let i6 = import_insert(i5, "std"@, "error"@);
    assert(w.len() == 5 && "std"@.len() == 3);
    assert(i5[0].0 != "std"@);
    assert(i5.drop_first() =~= Seq::<(Seq<char>, Seq<Seq<char>>)>::empty());
    assert(import_insert(i5.drop_first(), "std"@, "error"@) == seq![("std"@, seq!["error"@])]);
    assert(i6 =~= seq![(w, tys), ("std"@, seq!["error"@])]);
}

/// The generated source file for a module: the `extern crate` lines, then a
/// scope with the prelude's imports and the module's source as a raw item.
pub open spec fn generated_file(m: ModuleView) -> Seq<char> {
    GENERATED_HEADER@ + render_scope(
        ScopeState {
            imports: prelude_imports(Seq::empty()),
            items: seq![ScopeItem::Raw(render_scope(module_scope(m)))],
        },
    )
}

/// Holds the module to generate a source file for.
pub struct Generator {
    module: Module,
}

impl View for Generator {
    type V = ModuleView;

    closed spec fn view(&self) -> ModuleView {
        self.module@
    }
}

impl Generator {
    /// A generator for `module`.
    pub fn new(module: Module) -> (g: Generator)
        ensures
            g@ == module@,
    {
        Generator { module }
    }

    /// The Rust source file for the module. It always succeeds.
    pub fn generate_rust(&self) -> (r: Result<String, Error>)
        ensures
            r matches Ok(s) && s@ == generated_file(self@),
    {
        let mut scope = scope_new();
        self.generate_prelude(&mut scope);
        let raw_module = self.module.to_rust();
        scope_raw(&mut scope, raw_module.as_str());
        assert(scope_state(scope).items =~= seq![ScopeItem::Raw(render_scope(module_scope(self@)))]);
        let body = scope_to_string(&scope);
        let mut res = String::from_str(GENERATED_HEADER);
        res.append(body.as_str());
        Ok(res)
    }

    fn generate_prelude(&self, scope: &mut codegen::Scope)
        ensures
            scope_state(*final(scope)) == (ScopeState {
                imports: prelude_imports(scope_state(*old(scope)).imports),
                items: scope_state(*old(scope)).items,
            }),
    {
        scope_import(scope, "wasmi", "NopExternals");
        scope_import(scope, "wasmi", "RuntimeValue");
        scope_import(scope, "wasmi", "ModuleRef");
        scope_import(scope, "wasmi", "ModuleInstance");
        scope_import(scope, "wasmi", "ImportsBuilder");
        scope_import(scope, "std", "error");
    }
}

} // verus!
