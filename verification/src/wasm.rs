//! The sandbox that runs WebAssembly modules.

use vstd::prelude::*;
use vstd::string::*;

verus! {

/// The stack, in bytes, that a module may use: one mebibyte.
pub const MAX_WASM_STACK: usize = 1048576;

/// Why a module could not be run.
#[derive(Debug, Clone, Copy, PartialEq, Eq)]
pub enum WasmError {
    /// The engine could not be set up.
    EngineUnavailable,
}

impl WasmError {
    /// What the error says.
    pub fn message(&self) -> (text: String)
        ensures
            text@ == "wasm engine unavailable"@,
    {
        String::from_str("wasm engine unavailable")
    }
}

/// The sandbox's settings. The engine itself is set up from them by whoever
/// owns it.
#[derive(Debug, Clone, Copy, PartialEq, Eq)]
pub struct WasmRuntime {
    max_wasm_stack: usize,
}

impl WasmRuntime {
    /// The stack limit of modules run in this sandbox.
    pub closed spec fn stack_limit(&self) -> usize {
        self.max_wasm_stack
    }

    /// A sandbox with the stack of its modules capped at one mebibyte.
    pub fn new() -> (res: Result<Self, WasmError>)
        ensures
            res matches Ok(runtime) && runtime.stack_limit() == MAX_WASM_STACK,
    {
        Ok(WasmRuntime { max_wasm_stack: MAX_WASM_STACK })
    }

    /// The stack limit of modules run in this sandbox.
    pub fn max_wasm_stack(&self) -> (limit: usize)
        ensures
            limit == self.stack_limit(),
    {
        self.max_wasm_stack
    }

    /// Runs a module on an input and returns what it printed. No module is
    /// run yet: the answer names the input and nothing else, whatever the
    /// module.
    pub fn run_module(&self, bytes: &[u8], input: &str) -> (res: Result<String, WasmError>)
        ensures
            res matches Ok(output) && output@ == "Stub WASM execution: input="@ + input@,
    {
        Ok(String::from_str("Stub WASM execution: input=").concat(input))
    }
}

} // verus!
