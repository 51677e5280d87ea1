use ruster::function::Function;
use ruster::generate::generate_rust as generate_standalone;
use ruster::generator::Generator;
use ruster::global::Global;
use ruster::module::Module;
use ruster::text::{join_strings, to_decimal};
use ruster::wasm::ValueType;

#[test]
fn empty_module_renders_struct_and_constructor() {
    let module = Module::new(None, vec![], vec![]);
    let source = module.to_rust();
    let expected_head = "pub struct Module {\n    instance: ModuleRef,\n}\n\nimpl Module {\n    pub fn new(filename: &str) -> Result<Module, Box<error::Error>> {\n        {\n\n";
    assert!(source.starts_with(expected_head));
    assert!(source.ends_with("        }\n    }\n}"));
}

#[test]
fn generator_prepends_crates_and_imports() {
    let module = Module::new(Some("m".to_string()), vec![], vec![]);
    let inner = module.to_rust();
    let generator = Generator::new(Module::new(Some("m".to_string()), vec![], vec![]));
    let source = generator.generate_rust().expect("always succeeds");
    let expected = format!(
        "extern crate wasmi;\nextern crate parity_wasm;\nextern crate ruster;\nuse wasmi::{{NopExternals, RuntimeValue, ModuleRef, ModuleInstance, ImportsBuilder}};\nuse std::error;\n\n{}",
        inner
    );
    assert_eq!(source, expected);
}

#[test]
fn getter_reads_the_global() {
    let module = Module::new(None, vec![], vec![Global::new("counter", ValueType::I32)]);
    let source = module.to_rust();
    let mut getter = String::new();
    getter.push_str("    pub fn counter(&self) -> Result<i32, Box<error::Error>> {\n");
    getter.push_str("        {\n");
    getter.push_str("\n");
    getter.push_str("                        self.instance.export_by_name(\"counter\")\n");
    getter.push_str("                            .ok_or(Box::from(ruster::error::Error::new(\"global not found\")))\n");
    getter.push_str("                            .and_then(|e| match e {\n");
    getter.push_str("                                wasmi::ExternVal::Global(r) => match r.get() {\n");
    getter.push_str("                                    RuntimeValue::I32(t) => Ok(t),\n");
    getter.push_str("                                    _ => Err(Box::from(ruster::error::Error::new(\"returned value has invalid type\")))\n");
    getter.push_str("                                },\n");
    getter.push_str("                                _ => Err(Box::from(ruster::error::Error::new(\"export is not global\"))),\n");
    getter.push_str("                            })\n");
    getter.push_str("                        \n");
    getter.push_str("        }\n");
    getter.push_str("    }\n");
    assert!(source.contains(&getter), "{}", source);
}

#[test]
fn method_without_arguments() {
    let f = Function { name: "tick".to_string(), arg_types: vec![], return_type: ValueType::F64 };
    let module = Module::new(None, vec![f], vec![]);
    let source = module.to_rust();
    assert!(source.contains("    pub fn tick(&self) -> Result<f64, Box<error::Error>> {\n"));
    assert!(source.contains("            let params = [];\n"));
    assert!(source.contains("RuntimeValue::F64(t) => Ok(t),"));
    assert!(source.contains(".ok_or(Box::from(ruster::error::Error::new(\"returned value is empty\")))"));
}

#[test]
fn many_arguments_have_distinct_names() {
    let f = Function { name: "wide".to_string(), arg_types: vec![ValueType::I64; 12], return_type: ValueType::I32 };
    let source = Module::new(None, vec![f], vec![]).to_rust();
    assert!(source.contains("a0: i64, a1: i64, a2: i64, a3: i64, a4: i64, a5: i64, a6: i64, a7: i64, a8: i64, a9: i64, a10: i64, a11: i64)"));
    assert!(source.contains("RuntimeValue::I64(a1), RuntimeValue::I64(a2)"));
    assert!(source.contains("RuntimeValue::I64(a10), RuntimeValue::I64(a11)];"));
}

#[test]
fn every_method_returns_a_result() {
    let f = Function { name: "f".to_string(), arg_types: vec![ValueType::I32], return_type: ValueType::I32 };
    let source = Module::new(None, vec![f], vec![Global::new("g", ValueType::F32)]).to_rust();
    let signatures: Vec<&str> = source.lines().filter(|l| l.trim_start().starts_with("pub fn ")).collect();
    assert_eq!(signatures.len(), 3);
    for s in signatures {
        assert!(s.contains("-> Result<"), "{}", s);
    }
}

#[test]
fn standalone_file_carries_its_error_type() {
    let f = Function { name: "add".to_string(), arg_types: vec![ValueType::I32, ValueType::I32], return_type: ValueType::I32 };
    let source = generate_standalone(Module::new(Some("ignored".to_string()), vec![f], vec![Global::new("g", ValueType::I32)]))
        .expect("always succeeds");
    assert!(source.starts_with("extern crate wasmi;\nextern crate parity_wasm;\nuse wasmi::{NopExternals, RuntimeValue, ModuleRef, ModuleInstance, ImportsBuilder};\nuse std::error;\n\n\nuse std::fmt;\n"));
    assert!(source.contains("pub struct Error {\n    msg: String\n}\n"));
    assert!(source.contains("pub struct Module {\n    instance: ModuleRef,\n}\n"));
    assert!(source.contains("    pub fn add(&self, a0: i32, a1: i32) -> Result<i32, Box<error::Error>> {\n"));
    assert!(!source.contains("pub fn g("));
    assert!(source.contains(".ok_or(Box::from(Error::new(\"returned value is empty\")))"));
    assert!(!source.contains("ruster::error::Error::new(\"returned value is empty\")"));
    assert!(!source.contains("ignored"));
}

#[test]
fn decimal_rendering() {
    assert_eq!(to_decimal(0), "0");
    assert_eq!(to_decimal(7), "7");
    assert_eq!(to_decimal(10), "10");
    assert_eq!(to_decimal(4096), "4096");
    assert_eq!(to_decimal(usize::MAX), usize::MAX.to_string());
}

#[test]
fn joining() {
    let items = vec!["a".to_string(), "b".to_string(), "c".to_string()];
    assert_eq!(join_strings(&items, ", "), "a, b, c");
    assert_eq!(join_strings(&vec!["x".to_string()], ", "), "x");
    assert_eq!(join_strings(&vec![], ", "), "");
}

#[test]
fn value_type_names() {
    assert_eq!(ValueType::I32.rust_type(), "i32");
    assert_eq!(ValueType::F64.rust_type(), "f64");
    for t in [ValueType::I32, ValueType::I64, ValueType::F32, ValueType::F64] {
        assert_eq!(t.rust_type().to_ascii_uppercase(), t.variant());
        assert_eq!(format!("{:?}", t), t.variant());
    }
}

#[test]
fn error_keeps_its_message() {
    let e = ruster::error::Error::new("global not found");
    assert_eq!(e.message(), "global not found");
}
