//! The parts of a WebAssembly module that code generation reads, held as plain
//! values, and the decoding of a module from its binary form.

use vstd::prelude::*;
use parity_wasm::elements::Deserialize;
use parity_wasm::elements::Module as ParityModule;
use parity_wasm::elements::{External as WasmExternal, Internal as WasmInternal, NameSection, Type, ValueType as WasmValueType};

verus! {

/// A WebAssembly value type.
#[derive(Clone, Copy, Debug, PartialEq, Eq, Structural)]
pub enum ValueType {
    I32,
    I64,
    F32,
    F64,
}

impl ValueType {
    /// How a value type is written in Rust (and in the wasm text format):
    /// `i32`, `i64`, `f32`, `f64`.
    pub open spec fn rust_name(self) -> Seq<char> {
        match self {
            ValueType::I32 => "i32"@,
            ValueType::I64 => "i64"@,
            ValueType::F32 => "f32"@,
            ValueType::F64 => "f64"@,
        }
    }

    /// The name of the variant: `I32`, `I64`, `F32`, `F64`.
    pub open spec fn variant_name(self) -> Seq<char> {
        match self {
            ValueType::I32 => "I32"@,
            ValueType::I64 => "I64"@,
            ValueType::F32 => "F32"@,
            ValueType::F64 => "F64"@,
        }
    }

    /// The Rust type name of this value type, as the type's `Display` writes it.
    pub fn rust_type(&self) -> (r: &'static str)
        ensures
            r@ == self.rust_name(),
    {
        match self {
            ValueType::I32 => "i32",
            ValueType::I64 => "i64",
            ValueType::F32 => "f32",
            ValueType::F64 => "f64",
        }
    }

    /// The variant name of this value type, as the type's `Debug` writes it.
    pub fn variant(&self) -> (r: &'static str)
        ensures
            r@ == self.variant_name(),
    {
        match self {
            ValueType::I32 => "I32",
            ValueType::I64 => "I64",
            ValueType::F32 => "F32",
            ValueType::F64 => "F64",
        }
    }
}

/// What an export refers to, with its index in the corresponding index space.
#[derive(Clone, Copy, Debug, PartialEq, Eq, Structural)]
pub enum Internal {
    Function(u32),
    Table(u32),
    Memory(u32),
    Global(u32),
}

/// The kind of an import.
#[derive(Clone, Copy, Debug, PartialEq, Eq, Structural)]
pub enum External {
    Function,
    Table,
    Memory,
    Global,
}

/// An entry of the export section.
#[derive(Debug)]
pub struct ExportEntry {
    pub field: String,
    pub internal: Internal,
}

pub struct ExportEntryView {
    pub field: Seq<char>,
    pub internal: Internal,
}

impl View for ExportEntry {
    type V = ExportEntryView;

    open spec fn view(&self) -> ExportEntryView {
        ExportEntryView { field: self.field@, internal: self.internal }
    }
}

/// A function signature of the type section.
#[derive(Debug)]
pub struct FunctionType {
    pub params: Vec<ValueType>,
    pub result: Option<ValueType>,
}

pub struct FunctionTypeView {
    pub params: Seq<ValueType>,
    pub result: Option<ValueType>,
}

impl View for FunctionType {
    type V = FunctionTypeView;

    open spec fn view(&self) -> FunctionTypeView {
        FunctionTypeView { params: self.params@, result: self.result }
    }
}

/// The sections of a module that code generation reads. A section that the
/// module does not have is `None`.
#[derive(Debug)]
pub struct WasmModule {
    /// The module name of the name section, if there is one.
    pub name: Option<String>,
    /// The type section.
    pub types: Option<Vec<FunctionType>>,
    /// The kinds of the entries of the import section.
    pub imports: Option<Vec<External>>,
    /// The function section: the type index of each function defined here.
    pub functions: Option<Vec<u32>>,
    /// The content type of each entry of the global section.
    pub globals: Option<Vec<ValueType>>,
    /// The export section.
    pub exports: Option<Vec<ExportEntry>>,
}

pub struct WasmModuleView {
    pub name: Option<Seq<char>>,
    pub types: Option<Seq<FunctionTypeView>>,
    pub imports: Option<Seq<External>>,
    pub functions: Option<Seq<u32>>,
    pub globals: Option<Seq<ValueType>>,
    pub exports: Option<Seq<ExportEntryView>>,
}

pub open spec fn string_opt_view(s: Option<String>) -> Option<Seq<char>> {
    match s {
        Some(s) => Some(s@),
        None => None,
    }
}

pub open spec fn vec_opt_view<T>(v: Option<Vec<T>>) -> Option<Seq<T>> {
    match v {
        Some(v) => Some(v@),
        None => None,
    }
}

pub open spec fn params_opt_view(v: Option<Vec<Vec<ValueType>>>) -> Option<Seq<Seq<ValueType>>> {
    match v {
        Some(v) => Some(v@.map_values(|p: Vec<ValueType>| p@)),
        None => None,
    }
}

pub open spec fn types_opt_view(v: Option<Vec<FunctionType>>) -> Option<Seq<FunctionTypeView>> {
    match v {
        Some(v) => Some(v@.map_values(|t: FunctionType| t@)),
        None => None,
    }
}

pub open spec fn exports_opt_view(v: Option<Vec<ExportEntry>>) -> Option<Seq<ExportEntryView>> {
    match v {
        Some(v) => Some(v@.map_values(|e: ExportEntry| e@)),
        None => None,
    }
}

impl View for WasmModule {
    type V = WasmModuleView;

    open spec fn view(&self) -> WasmModuleView {
        WasmModuleView {
            name: string_opt_view(self.name),
            types: types_opt_view(self.types),
            imports: vec_opt_view(self.imports),
            functions: vec_opt_view(self.functions),
            globals: vec_opt_view(self.globals),
            exports: exports_opt_view(self.exports),
        }
    }
}

/// Whether `bytes` deserialize as a wasm module.
pub uninterp spec fn wasm_decodes(bytes: Seq<u8>) -> bool;

/// The message of the error with which `bytes` fail to deserialize.
pub uninterp spec fn wasm_decode_message(bytes: Seq<u8>) -> Seq<char>;

/// Whether the custom `name` sections of the module in `bytes` parse.
pub uninterp spec fn wasm_names_parse(bytes: Seq<u8>) -> bool;

/// The module name that the name section of the module in `bytes` gives.
pub uninterp spec fn wasm_module_name(bytes: Seq<u8>) -> Option<Seq<char>>;

/// The parameter types of each entry of the type section of the module in `bytes`.
pub uninterp spec fn wasm_type_params(bytes: Seq<u8>) -> Option<Seq<Seq<ValueType>>>;

/// The result type of each entry of the type section of the module in `bytes`.
pub uninterp spec fn wasm_type_results(bytes: Seq<u8>) -> Option<Seq<Option<ValueType>>>;

/// The type section of the module in `bytes`.
pub open spec fn wasm_types(bytes: Seq<u8>) -> Option<Seq<FunctionTypeView>> {
    match wasm_type_params(bytes) {
        Some(params) => Some(Seq::new(params.len(), |i: int| FunctionTypeView {
            params: params[i],
            result: wasm_type_results(bytes).unwrap()[i],
        })),
        None => None,
    }
}

/// The kinds of the imports of the module in `bytes`.
pub uninterp spec fn wasm_imports(bytes: Seq<u8>) -> Option<Seq<External>>;

/// The function section of the module in `bytes`.
pub uninterp spec fn wasm_functions(bytes: Seq<u8>) -> Option<Seq<u32>>;

/// The global content types of the module in `bytes`.
pub uninterp spec fn wasm_globals(bytes: Seq<u8>) -> Option<Seq<ValueType>>;

/// The export section of the module in `bytes`.
pub uninterp spec fn wasm_exports(bytes: Seq<u8>) -> Option<Seq<ExportEntryView>>;

/// The sections of the module that `bytes` encode.
pub open spec fn decoded_module(bytes: Seq<u8>) -> WasmModuleView {
    WasmModuleView {
        name: wasm_module_name(bytes),
        types: wasm_types(bytes),
        imports: wasm_imports(bytes),
        functions: wasm_functions(bytes),
        globals: wasm_globals(bytes),
        exports: wasm_exports(bytes),
    }
}

#[verifier::external_type_specification]
#[verifier::external_body]
pub struct ExParityModule(ParityModule);

/// A module deserialized by parity-wasm, with its name sections parsed,
/// together with the bytes it was deserialized from. Only `decode_binary`
/// builds one, so the module is always the decoding of `bytes`.
struct WasmBinary {
    module: ParityModule,
    bytes: Vec<u8>,
}

impl View for WasmBinary {
    type V = Seq<u8>;

    closed spec fn view(&self) -> Seq<u8> {
        self.bytes@
    }
}

enum Decoded {
    Module(WasmBinary),
    Malformed(String),
    BadNames,
}

/// Calls `Module::deserialize` on a `std::io::Cursor` over `bytes`, reading
/// them as a stream, as `parity_wasm::deserialize_file` reads a file, and,
/// when that succeeds, `Module::parse_names` on the result. The contract
/// claims that both are functions of `bytes` alone, and passes on the
/// `Display` text of the deserialization error.
#[verifier::external_body]
fn decode_binary(bytes: &[u8]) -> (r: Decoded)
    ensures
        match r {
            Decoded::Module(b) => wasm_decodes(bytes@) && wasm_names_parse(bytes@) && b@ == bytes@,
            Decoded::Malformed(m) => !wasm_decodes(bytes@) && m@ == wasm_decode_message(bytes@),
            Decoded::BadNames => wasm_decodes(bytes@) && !wasm_names_parse(bytes@),
        },
{
    let mut reader = std::io::Cursor::new(bytes);
    match ParityModule::deserialize(&mut reader) {
        Err(e) => Decoded::Malformed(e.to_string()),
        Ok(m) => match m.parse_names() {
            Ok(module) => Decoded::Module(WasmBinary { module, bytes: bytes.to_vec() }),
            Err(_) => Decoded::BadNames,
        },
    }
}

/// Calls `Module::names_section` and, for a module name subsection,
/// `ModuleNameSection::name`. The contract claims the result is determined by
/// the module's bytes.
#[verifier::external_body]
fn binary_module_name(b: &WasmBinary) -> (r: Option<String>)
    ensures
        string_opt_view(r) == wasm_module_name(b@),
{
    match b.module.names_section() {
        Some(NameSection::Module(m)) => Some(m.name().to_string()),
        _ => None,
    }
}

/// Calls `Module::type_section`, `TypeSection::types` and
/// `FunctionType::params`, converting each value type variant by variant.
#[verifier::external_body]
fn binary_type_params(b: &WasmBinary) -> (r: Option<Vec<Vec<ValueType>>>)
    ensures
        params_opt_view(r) == wasm_type_params(b@),
{
    b.module.type_section().map(|s| s.types().iter().map(|t| match t {
        Type::Function(f) => f.params().iter().map(|p| match p {
            WasmValueType::I32 => ValueType::I32,
            WasmValueType::I64 => ValueType::I64,
            WasmValueType::F32 => ValueType::F32,
            WasmValueType::F64 => ValueType::F64,
        }).collect(),
    }).collect())
}

/// Calls `Module::type_section`, `TypeSection::types` and
/// `FunctionType::return_type`. Both this and `binary_type_params` read the
/// same type section, entry by entry.
#[verifier::external_body]
fn binary_type_results(b: &WasmBinary) -> (r: Option<Vec<Option<ValueType>>>)
    ensures
        vec_opt_view(r) == wasm_type_results(b@),
        r is Some <==> wasm_type_params(b@) is Some,
        r matches Some(v) ==> v.len() == wasm_type_params(b@).unwrap().len(),
{
    b.module.type_section().map(|s| s.types().iter().map(|t| match t {
        Type::Function(f) => f.return_type().map(|p| match p {
            WasmValueType::I32 => ValueType::I32,
            WasmValueType::I64 => ValueType::I64,
            WasmValueType::F32 => ValueType::F32,
            WasmValueType::F64 => ValueType::F64,
        }),
    }).collect())
}

/// Calls `Module::import_section`, `ImportSection::entries` and
/// `ImportEntry::external`, keeping the kind of each import.
#[verifier::external_body]
fn binary_imports(b: &WasmBinary) -> (r: Option<Vec<External>>)
    ensures
        vec_opt_view(r) == wasm_imports(b@),
{
    b.module.import_section().map(|s| s.entries().iter().map(|e| match e.external() {
        WasmExternal::Function(_) => External::Function,
        WasmExternal::Table(_) => External::Table,
        WasmExternal::Memory(_) => External::Memory,
        WasmExternal::Global(_) => External::Global,
    }).collect())
}

/// Calls `Module::function_section`, `FunctionSection::entries` and
/// `Func::type_ref`.
#[verifier::external_body]
fn binary_functions(b: &WasmBinary) -> (r: Option<Vec<u32>>)
    ensures
        vec_opt_view(r) == wasm_functions(b@),
{
    b.module.function_section().map(|s| s.entries().iter().map(|f| f.type_ref()).collect())
}

/// Calls `Module::global_section`, `GlobalSection::entries`,
/// `GlobalEntry::global_type` and `GlobalType::content_type`.
#[verifier::external_body]
fn binary_globals(b: &WasmBinary) -> (r: Option<Vec<ValueType>>)
    ensures
        vec_opt_view(r) == wasm_globals(b@),
{
    b.module.global_section().map(|s| s.entries().iter().map(|g| match g.global_type().content_type() {
        WasmValueType::I32 => ValueType::I32,
        WasmValueType::I64 => ValueType::I64,
        WasmValueType::F32 => ValueType::F32,
        WasmValueType::F64 => ValueType::F64,
    }).collect())
}

/// Calls `Module::export_section`, `ExportSection::entries`,
/// `ExportEntry::field` and `ExportEntry::internal`.
#[verifier::external_body]
fn binary_exports(b: &WasmBinary) -> (r: Option<Vec<ExportEntry>>)
    ensures
        exports_opt_view(r) == wasm_exports(b@),
{
    b.module.export_section().map(|s| s.entries().iter().map(|e| ExportEntry {
        field: e.field().to_string(),
        internal: match *e.internal() {
            WasmInternal::Function(i) => Internal::Function(i),
            WasmInternal::Table(i) => Internal::Table(i),
            WasmInternal::Memory(i) => Internal::Memory(i),
            WasmInternal::Global(i) => Internal::Global(i),
        },
    }).collect())
}

/// Pairs the parameter lists of the type section with its result types.
fn zip_types(params: Option<Vec<Vec<ValueType>>>, results: Option<Vec<Option<ValueType>>>) -> (r: Option<Vec<FunctionType>>)
    requires
        params is Some <==> results is Some,
        params matches Some(p) ==> p.len() == results.unwrap().len(),
    ensures
        match params {
            Some(p) => r matches Some(t) && t@.map_values(|t: FunctionType| t@) == Seq::new(p.len() as nat, |i: int| FunctionTypeView {
                params: p@[i]@,
                result: results.unwrap()@[i],
            }),
            None => r is None,
        },
{
    match (params, results) {
        (Some(mut p), Some(rs)) => {
            let ghost p0 = p@;
            let mut out: Vec<FunctionType> = Vec::new();
            let mut i: usize = 0;
            let n = rs.len();
            while i < n
                invariant
                    n == rs.len(),
                    p0.len() == n,
                    p@.len() + i == n,
                    i <= n,
                    forall|j: int| 0 <= j < p@.len() ==> p@[j] == p0[j + i],
                    out@.len() == i,
                    forall|j: int| 0 <= j < i ==> (#[trigger] out@[j])@ == (FunctionTypeView { params: p0[j]@, result: rs@[j] }),
                decreases n - i,
            {
                let params_i = p.remove(0);
                out.push(FunctionType { params: params_i, result: rs[i] });
                i = i + 1;
            }
            assert(out@.map_values(|t: FunctionType| t@) =~= Seq::new(p0.len(), |k: int| FunctionTypeView {
                params: p0[k]@,
                result: rs@[k],
            }));
            Some(out)
        },
        _ => None,
    }
}

/// Why bytes could not be decoded.
#[derive(Debug)]
pub enum DecodeError {
    /// The bytes are no wasm module; the deserializer's message.
    Malformed(String),
    /// A custom `name` section of the module does not parse.
    BadNames,
}

impl WasmModule {
    /// Decodes a wasm binary and reads the sections that code generation needs.
    pub fn decode(bytes: &[u8]) -> (r: Result<WasmModule, DecodeError>)
        ensures
            match r {
                Ok(m) => wasm_decodes(bytes@) && wasm_names_parse(bytes@) && m@ == decoded_module(bytes@),
                Err(DecodeError::Malformed(msg)) => !wasm_decodes(bytes@) && msg@ == wasm_decode_message(bytes@),
                Err(DecodeError::BadNames) => wasm_decodes(bytes@) && !wasm_names_parse(bytes@),
            },
    {
        match decode_binary(bytes) {
            Decoded::Malformed(msg) => Err(DecodeError::Malformed(msg)),
            Decoded::BadNames => Err(DecodeError::BadNames),
            Decoded::Module(b) => {
                let params = binary_type_params(&b);
                let results = binary_type_results(&b);
                let types = zip_types(params, results);
                proof {
                    if types is Some {
                        let expected = wasm_types(b@).unwrap();
                        assert(types.unwrap()@.map_values(|t: FunctionType| t@) =~= expected);
                    }
                }
                let m = WasmModule {
                    name: binary_module_name(&b),
                    types: types,
                    imports: binary_imports(&b),
                    functions: binary_functions(&b),
                    globals: binary_globals(&b),
                    exports: binary_exports(&b),
                };
                Ok(m)
            },
        }
    }
}

} // verus!
