//! Turns a WebAssembly module into the source of a Rust module that loads the
//! wasm file through `wasmi` and exposes each exported function and global as
//! a method.

pub mod builder;
pub mod error;
pub mod extract;
pub mod function;
pub mod generate;
pub mod generator;
pub mod global;
pub mod interpreter;
pub mod module;
pub mod text;
pub mod wasm;

use vstd::prelude::*;
use crate::error::Error;
use crate::generator::{generated_file, Generator};
use crate::interpreter::{can_create, created_module, has_unexpected_export, Interpreter};
use crate::wasm::{decoded_module, wasm_decode_message, wasm_decodes, wasm_names_parse};

verus! {

/// Generates the source of a Rust module from the wasm binary `wasm`.
///
/// Fails with the deserializer's message when `wasm` is no wasm module, and
/// with `unexpected export` when the module exports a table or a memory.
pub fn run(wasm: &[u8]) -> (r: Result<String, Error>)
    requires
        wasm_decodes(wasm@) ==> wasm_names_parse(wasm@) && can_create(decoded_module(wasm@)),
    ensures
        match r {
            Ok(source) => {
                &&& wasm_decodes(wasm@)
                &&& !has_unexpected_export(decoded_module(wasm@))
                &&& source@ == generated_file(created_module(decoded_module(wasm@)))
            },
            Err(e) => {
                ||| !wasm_decodes(wasm@) && e@ == wasm_decode_message(wasm@)
                ||| wasm_decodes(wasm@) && has_unexpected_export(decoded_module(wasm@)) && e@
                    == "unexpected export"@
            },
        },
{
    let interpreter = Interpreter::new(wasm)?;
    let module = interpreter.create_module()?;
    let generator = Generator::new(module);
    let output = generator.generate_rust()?;
    Ok(output)
}

/// Generates from `wasm` as `run` does, or gives `None` where `run` cannot go
/// through: a custom `name` section that does not parse, or an export that
/// names a function or global the module does not define (or a function
/// without a result).
pub fn try_run(wasm: &[u8]) -> (r: Option<Result<String, Error>>)
    ensures
        r is None <==> wasm_decodes(wasm@) && !(wasm_names_parse(wasm@) && can_create(decoded_module(wasm@))),
        r matches Some(Ok(source)) ==> wasm_decodes(wasm@) && !has_unexpected_export(decoded_module(wasm@))
            && source@ == generated_file(created_module(decoded_module(wasm@))),
        r matches Some(Err(e)) ==> (!wasm_decodes(wasm@) && e@ == wasm_decode_message(wasm@)) || (wasm_decodes(
            wasm@,
        ) && has_unexpected_export(decoded_module(wasm@)) && e@ == "unexpected export"@),
{
    match Interpreter::try_new(wasm) {
        None => None,
        Some(Err(e)) => Some(Err(e)),
        Some(Ok(interpreter)) => {
            if interpreter.can_create_module() {
                Some(run(wasm))
            } else {
                None
            }
        },
    }
}

} // verus!
