//! The value-type vocabulary shared by the invocation bridge and the export
//! introspector, together with the error taxonomy of the embedding layer.

use vstd::prelude::*;

verus! {

/// The guest engine's fixed type vocabulary for function parameters and
/// results.
#[derive(Clone, Copy, PartialEq, Eq, Structural, Debug)]
pub enum WasmType {
    I32,
    I64,
    F32,
    F64,
    V128,
    ExternRef,
    FuncRef,
}

/// A host argument after coercion into the guest's typed representation.
/// The bridge marshals integers only, so only the two integer shapes exist.
#[derive(Clone, Copy, PartialEq, Eq, Structural, Debug)]
pub enum ArgValue {
    I32(i32),
    I64(i64),
}

/// A single result value handed back by the guest. Non-integer results are
/// collapsed to `Other`: the boundary only understands scalar integers.
#[derive(Clone, Copy, PartialEq, Eq, Structural, Debug)]
pub enum RetValue {
    I32(i32),
    I64(i64),
    Other,
}

/// The declared signature of an exported guest function: ordered parameter
/// types and ordered result types.
pub struct FuncSig {
    pub params: Vec<WasmType>,
    pub results: Vec<WasmType>,
}

impl View for FuncSig {
    type V = (Seq<WasmType>, Seq<WasmType>);

    open spec fn view(&self) -> (Seq<WasmType>, Seq<WasmType>) {
        (self.params@, self.results@)
    }
}

/// Why a module could not be loaded and registered.
#[derive(Debug)]
pub enum LoadError {
    /// The module bytes could not be read from their source.
    IoError(String),
    /// The bytes are not a well-formed, valid module for the guest engine.
    CompileError(String),
    /// The valid module could not be instantiated with the empty import set.
    InstantiationError(String),
}

/// Why an invocation could not produce a result.
#[derive(Debug)]
pub enum InvokeError {
    /// No instance is registered under the given identifier.
    InstanceNotFound,
    /// The instance exports no function under the given name.
    FunctionNotFound,
    /// The argument count differs from the function's declared parameter count.
    ArityMismatch,
    /// A declared parameter type is outside the integer subset the bridge
    /// supports.
    UnsupportedArgumentType,
    /// The guest trapped during the call; carries the engine's diagnostic.
    ExecutionFault(String),
}

} // verus!
