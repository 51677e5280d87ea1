use ruster::extract::get_exported_fns;
use ruster::interpreter::Interpreter;
use ruster::wasm::{DecodeError, ExportEntry, External, FunctionType, Internal, ValueType, WasmModule};

fn export(name: &str, internal: Internal) -> ExportEntry {
    ExportEntry { field: name.to_string(), internal }
}

/// Imports a function and a global, defines two functions and a global,
/// exports the second defined function and the defined global.
fn module_with_imports() -> WasmModule {
    WasmModule {
        name: Some("calc".to_string()),
        types: Some(vec![
            FunctionType { params: vec![ValueType::I32], result: Some(ValueType::I64) },
            FunctionType { params: vec![ValueType::F32, ValueType::F64], result: Some(ValueType::F64) },
        ]),
        imports: Some(vec![External::Function, External::Global, External::Memory]),
        functions: Some(vec![0, 1]),
        globals: Some(vec![ValueType::F32]),
        exports: Some(vec![export("mix", Internal::Function(2)), export("scale", Internal::Global(1))]),
    }
}

#[test]
fn create_module_skips_imported_indices() {
    let interpreter = Interpreter::from_module(module_with_imports());
    assert!(interpreter.can_create_module());
    let module = interpreter.create_module().expect("functions and globals only");
    let fns = module.functions();
    assert_eq!(fns.len(), 1);
    assert_eq!(fns[0].name, "mix");
    assert_eq!(fns[0].arg_types, vec![ValueType::F32, ValueType::F64]);
    assert_eq!(fns[0].return_type, ValueType::F64);
    let source = module.to_rust();
    assert!(source.starts_with("pub struct Module {\n    instance: ModuleRef,\n}\n"));
    assert!(!source.contains("calc"));
    assert!(source.contains("    pub fn mix(&self, a0: f32, a1: f64) -> Result<f64, Box<error::Error>> {\n"));
    assert!(source.contains("            let params = [RuntimeValue::F32(a0), RuntimeValue::F64(a1)];\n"));
    assert!(source.contains("    pub fn scale(&self) -> Result<f32, Box<error::Error>> {\n"));
    assert!(source.contains("RuntimeValue::F32(t) => Ok(t),"));
}

#[test]
fn create_module_refuses_a_table_export() {
    let mut m = module_with_imports();
    m.exports = Some(vec![export("mix", Internal::Function(2)), export("tbl", Internal::Table(0))]);
    let interpreter = Interpreter::from_module(m);
    assert!(interpreter.can_create_module());
    let err = interpreter.create_module().expect_err("a table cannot be exposed");
    assert_eq!(err.message(), "unexpected export");
}

#[test]
fn an_unexpected_export_stops_before_later_exports_are_read() {
    let mut m = module_with_imports();
    // the export after the table names an imported function, which would not resolve
    m.exports = Some(vec![export("tbl", Internal::Table(0)), export("bad", Internal::Function(0))]);
    let interpreter = Interpreter::from_module(m);
    assert!(interpreter.can_create_module());
    assert!(interpreter.create_module().is_err());
}

#[test]
fn can_create_module_rejects_an_imported_function_export() {
    let mut m = module_with_imports();
    m.exports = Some(vec![export("imported", Internal::Function(0))]);
    assert!(!Interpreter::from_module(m).can_create_module());
}

#[test]
fn can_create_module_rejects_a_function_without_result() {
    let mut m = module_with_imports();
    m.types = Some(vec![
        FunctionType { params: vec![], result: None },
        FunctionType { params: vec![], result: None },
    ]);
    assert!(!Interpreter::from_module(m).can_create_module());
}

#[test]
fn can_create_module_rejects_a_missing_type_section() {
    let mut m = module_with_imports();
    m.types = None;
    assert!(!Interpreter::from_module(m).can_create_module());
}

#[test]
fn a_module_without_exports_gives_an_empty_module() {
    let mut m = module_with_imports();
    m.exports = None;
    m.name = None;
    let module = Interpreter::from_module(m).create_module().expect("nothing to refuse");
    assert_eq!(module.functions().len(), 0);
    assert!(module.to_rust().starts_with("pub struct Module {"));
}

#[test]
fn one_member_per_export() {
    let mut m = module_with_imports();
    m.exports = Some(vec![
        export("scale", Internal::Global(1)),
        export("mix", Internal::Function(2)),
        export("first", Internal::Function(1)),
    ]);
    let module = Interpreter::from_module(m).create_module().expect("functions and globals only");
    let fns = module.functions();
    assert_eq!(fns.len(), 2);
    assert_eq!(fns[0].name, "mix");
    assert_eq!(fns[1].name, "first");
    assert_eq!(fns[1].arg_types, vec![ValueType::I32]);
    let source = module.to_rust();
    let mix = source.find("pub fn mix").unwrap();
    let first = source.find("pub fn first").unwrap();
    let scale = source.find("pub fn scale").unwrap();
    assert!(mix < first && first < scale);
}

#[test]
fn get_exported_fns_agrees_with_create_module() {
    let mut m = module_with_imports();
    m.exports = Some(vec![export("mix", Internal::Function(2)), export("first", Internal::Function(1))]);
    let extracted = get_exported_fns(&m);
    let module = Interpreter::from_module(m).create_module().expect("functions only");
    let created = module.functions();
    assert_eq!(extracted.len(), created.len());
    for (a, b) in extracted.iter().zip(created.iter()) {
        assert_eq!(a.name, b.name);
        assert_eq!(a.arg_types, b.arg_types);
        assert_eq!(a.return_type, b.return_type);
    }
}

#[test]
fn non_function_imports_keep_exported_fns() {
    let mut m = module_with_imports();
    m.exports = Some(vec![export("mix", Internal::Function(2)), export("first", Internal::Function(1))]);
    let before = get_exported_fns(&m);
    let mut imports = m.imports.take().unwrap();
    imports.extend_from_slice(&[External::Global, External::Table, External::Memory]);
    m.imports = Some(imports);
    let after = get_exported_fns(&m);
    assert_eq!(before.len(), after.len());
    for (a, b) in before.iter().zip(after.iter()) {
        assert_eq!(a.name, b.name);
        assert_eq!(a.arg_types, b.arg_types);
        assert_eq!(a.return_type, b.return_type);
    }
}

#[test]
fn decode_reads_the_sections() {
    let bytes = vec![
        0x00, 0x61, 0x73, 0x6d, 0x01, 0x00, 0x00, 0x00, // magic, version
        0x01, 0x07, 0x01, 0x60, 0x02, 0x7f, 0x7f, 0x01, 0x7f, // type section
        0x03, 0x02, 0x01, 0x00, // function section
        0x07, 0x07, 0x01, 0x03, b'a', b'd', b'd', 0x00, 0x00, // export section
        0x0a, 0x09, 0x01, 0x07, 0x00, 0x20, 0x00, 0x20, 0x01, 0x6a, 0x0b, // code section
        0x00, 0x0e, 0x04, b'n', b'a', b'm', b'e', 0x00, 0x07, 0x06, b'a', b'd', b'd', b'e', b'r', b's',
    ];
    let m = WasmModule::decode(&bytes).expect("a valid module");
    assert_eq!(m.name, Some("adders".to_string()));
    let types = m.types.as_ref().expect("a type section");
    assert_eq!(types.len(), 1);
    assert_eq!(types[0].params, vec![ValueType::I32, ValueType::I32]);
    assert_eq!(types[0].result, Some(ValueType::I32));
    assert_eq!(m.functions, Some(vec![0]));
    assert!(m.imports.is_none());
    assert!(m.globals.is_none());
    let exports = m.exports.as_ref().expect("an export section");
    assert_eq!(exports.len(), 1);
    assert_eq!(exports[0].field, "add");
    assert_eq!(exports[0].internal, Internal::Function(0));
    let source = ruster::run(&bytes).expect("converts");
    assert!(source.contains("pub struct Module {"));
}

#[test]
fn decode_reads_imports_and_globals() {
    let bytes = vec![
        0x00, 0x61, 0x73, 0x6d, 0x01, 0x00, 0x00, 0x00, // magic, version
        0x01, 0x04, 0x01, 0x60, 0x00, 0x00, // type section: () -> ()
        0x02, 0x09, 0x01, 0x03, b'e', b'n', b'v', 0x01, b'f', 0x00, 0x00, // import env.f function type 0
        0x06, 0x06, 0x01, 0x7e, 0x00, 0x42, 0x07, 0x0b, // global section: i64 immutable = 7
        0x07, 0x05, 0x01, 0x01, b'g', 0x03, 0x00, // export "g" global 0
    ];
    let m = WasmModule::decode(&bytes).expect("a valid module");
    assert_eq!(m.imports, Some(vec![External::Function]));
    assert_eq!(m.globals, Some(vec![ValueType::I64]));
    let types = m.types.as_ref().expect("a type section");
    assert_eq!(types[0].result, None);
    let source = ruster::run(&bytes).expect("converts");
    assert!(source.contains("    pub fn g(&self) -> Result<i64, Box<error::Error>> {\n"));
    assert!(source.contains("self.instance.export_by_name(\"g\")"));
    assert!(source.contains("RuntimeValue::I64(t) => Ok(t),"));
}

#[test]
fn decode_refuses_truncated_bytes() {
    match WasmModule::decode(&[0x00, 0x61, 0x73]) {
        Err(DecodeError::Malformed(_)) => {},
        other => panic!("unexpected: {:?}", other.is_ok()),
    }
}

#[test]
fn try_new_refuses_a_broken_name_section() {
    let bytes = vec![
        0x00, 0x61, 0x73, 0x6d, 0x01, 0x00, 0x00, 0x00,
        0x00, 0x08, 0x04, b'n', b'a', b'm', b'e', 0x00, 0x02, 0x09,
    ];
    assert!(Interpreter::try_new(&bytes).is_none());
    match WasmModule::decode(&bytes) {
        Err(DecodeError::BadNames) => {},
        _ => panic!("the name section should not parse"),
    }
}

#[test]
fn new_reports_the_decoder_message() {
    let err = Interpreter::new(&[0x01, 0x02, 0x03, 0x04, 0x01, 0x00, 0x00, 0x00]).err().expect("no wasm module");
    assert_eq!(err.message(), "Invalid magic number at start of file");
}
