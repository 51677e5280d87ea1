use ruster::{run, try_run};

/// The module of the README: `add(i32, i32) -> i32`, exported as `add`.
fn add_wasm() -> Vec<u8> {
    vec![
        0x00, 0x61, 0x73, 0x6d, 0x01, 0x00, 0x00, 0x00, // magic, version
        0x01, 0x07, 0x01, 0x60, 0x02, 0x7f, 0x7f, 0x01, 0x7f, // type section
        0x03, 0x02, 0x01, 0x00, // function section
        0x07, 0x07, 0x01, 0x03, b'a', b'd', b'd', 0x00, 0x00, // export section
        0x0a, 0x09, 0x01, 0x07, 0x00, 0x20, 0x00, 0x20, 0x01, 0x6a, 0x0b, // code section
    ]
}

fn spaces(n: usize) -> String {
    " ".repeat(n)
}

fn expected_constructor() -> String {
    let mut s = String::new();
    s.push_str("    pub fn new(filename: &str) -> Result<Module, Box<error::Error>> {\n");
    s.push_str("        {\n");
    s.push_str("\n");
    s.push_str(&format!("{}let module = parity_wasm::deserialize_file(&filename)?;\n", spaces(24)));
    s.push_str(&format!("{}let module = wasmi::Module::from_parity_wasm_module(module)?;\n", spaces(24)));
    s.push_str(&format!(
        "{}let instance = ModuleInstance::new(&module, &ImportsBuilder::default())?\n",
        spaces(24)
    ));
    s.push_str(&format!("{}.assert_no_start();\n", spaces(28)));
    s.push_str("\n");
    s.push_str(&format!("{}Ok(Module {{ instance }})\n", spaces(24)));
    s.push_str(&format!("{}\n", spaces(24)));
    s.push_str("        }\n");
    s.push_str("    }\n");
    s
}

fn expected_add_method() -> String {
    let mut s = String::new();
    s.push_str("    pub fn add(&self, a0: i32, a1: i32) -> Result<i32, Box<error::Error>> {\n");
    s.push_str("        {\n");
    s.push_str("            let params = [RuntimeValue::I32(a0), RuntimeValue::I32(a1)];\n");
    s.push_str("\n");
    s.push_str(&format!(
        "{}self.instance.invoke_export(\"add\", &params, &mut NopExternals)?\n",
        spaces(24)
    ));
    s.push_str(&format!(
        "{}.ok_or(Box::from(ruster::error::Error::new(\"returned value is empty\")))\n",
        spaces(24)
    ));
    s.push_str(&format!("{}.and_then(|v| match v {{\n", spaces(24)));
    s.push_str(&format!("{}RuntimeValue::I32(t) => Ok(t),\n", spaces(28)));
    s.push_str(&format!(
        "{}_ => Err(Box::from(ruster::error::Error::new(\"returned value has invalid type\")))\n",
        spaces(28)
    ));
    s.push_str(&format!("{}}})\n", spaces(24)));
    s.push_str("        }\n");
    s.push_str("    }\n");
    s
}

#[test]
fn it_runs() {
    if let Err(e) = run(&add_wasm()) {
        panic!("run failed: {}", e.message());
    }
}

#[test]
fn run_generates_the_readme_module() {
    let source = run(&add_wasm()).expect("the add module converts");
    let mut expected = String::new();
    expected.push_str("extern crate wasmi;\nextern crate parity_wasm;\nextern crate ruster;\n");
    expected.push_str("use wasmi::{NopExternals, RuntimeValue, ModuleRef, ModuleInstance, ImportsBuilder};\n");
    expected.push_str("use std::error;\n");
    expected.push_str("\n");
    expected.push_str("pub struct Module {\n    instance: ModuleRef,\n}\n");
    expected.push_str("\n");
    expected.push_str("impl Module {\n");
    expected.push_str(&expected_constructor());
    expected.push_str("\n");
    expected.push_str(&expected_add_method());
    expected.push_str("}");
    assert_eq!(source, expected);
}

#[test]
fn run_names_the_struct_module_whatever_the_name_section_says() {
    let mut bytes = add_wasm();
    // custom section "name" with module name "adders"
    bytes.extend_from_slice(&[0x00, 0x0e, 0x04, b'n', b'a', b'm', b'e', 0x00, 0x07, 0x06, b'a', b'd', b'd', b'e', b'r', b's']);
    let source = run(&bytes).expect("the named module converts");
    assert!(source.contains("pub struct Module {\n    instance: ModuleRef,\n}\n"));
    assert!(source.contains("impl Module {\n"));
    assert!(!source.contains("adders"));
    assert_eq!(source, run(&add_wasm()).expect("the add module converts"));
}

#[test]
fn run_reports_truncated_input_as_a_stream_error() {
    let err = run(&[0x00, 0x61, 0x73, 0x6d, 0x01, 0x00]).expect_err("truncated");
    assert!(err.message().starts_with("I/O Error: IoError("), "{}", err.message());
}

#[test]
fn try_run_agrees_with_run() {
    let a = run(&add_wasm()).expect("the add module converts");
    let b = try_run(&add_wasm()).expect("nothing to refuse").expect("the add module converts");
    assert_eq!(a, b);
}

#[test]
fn run_reports_a_bad_magic_number() {
    let bytes = vec![0x01, 0x02, 0x03, 0x04, 0x01, 0x00, 0x00, 0x00];
    let err = run(&bytes).expect_err("no wasm module");
    assert_eq!(err.message(), "Invalid magic number at start of file");
}

#[test]
fn run_refuses_a_memory_export() {
    let bytes = vec![
        0x00, 0x61, 0x73, 0x6d, 0x01, 0x00, 0x00, 0x00, // magic, version
        0x05, 0x03, 0x01, 0x00, 0x01, // memory section: one memory, min 1
        0x07, 0x07, 0x01, 0x03, b'm', b'e', b'm', 0x02, 0x00, // export "mem" memory 0
    ];
    let err = run(&bytes).expect_err("a memory cannot be exposed");
    assert_eq!(err.message(), "unexpected export");
}

#[test]
fn try_run_refuses_a_broken_name_section() {
    let mut bytes = add_wasm();
    // custom section "name" whose module name claims 9 bytes but has 1
    bytes.extend_from_slice(&[0x00, 0x08, 0x04, b'n', b'a', b'm', b'e', 0x00, 0x02, 0x09]);
    assert!(try_run(&bytes).is_none());
}

#[test]
fn try_run_refuses_an_export_of_an_undefined_function() {
    let bytes = vec![
        0x00, 0x61, 0x73, 0x6d, 0x01, 0x00, 0x00, 0x00, // magic, version
        0x01, 0x07, 0x01, 0x60, 0x02, 0x7f, 0x7f, 0x01, 0x7f, // type section
        0x03, 0x02, 0x01, 0x00, // function section
        0x07, 0x07, 0x01, 0x03, b'a', b'd', b'd', 0x00, 0x05, // export "add" as function 5
        0x0a, 0x09, 0x01, 0x07, 0x00, 0x20, 0x00, 0x20, 0x01, 0x6a, 0x0b, // code section
    ];
    assert!(try_run(&bytes).is_none());
}
