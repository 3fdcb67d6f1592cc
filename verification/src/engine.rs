//! The trusted boundary to the guest execution engine. The engine compiles
//! byte content into a validated module, instantiates it with an empty import
//! set, and executes its exported functions. Everything the rest of the
//! library knows about a live instance is what these contracts state about
//! its export map.

use vstd::prelude::*;

use crate::types::{ArgValue, FuncSig, LoadError, RetValue, WasmType};
use crate::marshal::rets_typed;

verus! {

/// A live guest module instance, shareable across callers. The engine needs
/// exclusive access to its store for the duration of a call, so the store
/// lives with the instance behind a mutex inside the handle; the handle
/// itself is a cheap shared reference to that one underlying instance, which
/// lets a registry lookup hand out an owned handle and release its lock
/// before the call executes. The pair is engine state that Verus cannot look
/// into; the handle is opaque and described solely by `guest_exports`.
#[verifier::external_body]
pub struct GuestHandle {
    inner: std::sync::Arc<std::sync::Mutex<(wasmer::Store, wasmer::Instance)>>,
}

/// What a live instance exports: for each exported function, keyed by its
/// export name, the ordered parameter types and the ordered result types.
/// Fixed at instantiation; a handle's export map never changes.
pub uninterp spec fn guest_exports(h: GuestHandle) -> Map<
    Seq<char>,
    (Seq<WasmType>, Seq<WasmType>),
>;

/// The function exports that a module with the given byte content declares:
/// a function of the bytes alone, since compilation and instantiation with
/// the empty import set add nothing to them.
pub uninterp spec fn module_exports(bytes: Seq<u8>) -> Map<
    Seq<char>,
    (Seq<WasmType>, Seq<WasmType>),
>;

/// Whether the byte content is a well-formed, valid module for the guest
/// engine: the verdict of its validating compiler, a pure function of the
/// bytes.
pub uninterp spec fn module_compiles(bytes: Seq<u8>) -> bool;

/// Whether the byte content compiles and its module then instantiates with
/// the empty import set: the engine's whole verdict on the bytes. With no
/// imports supplied, link checking and the start function see nothing but
/// the module itself, so the verdict depends on the bytes alone.
pub uninterp spec fn engine_accepts(bytes: Seq<u8>) -> bool;

/// Relies on wasmer::Module::new and wasmer::Instance::new: compilation
/// rejects exactly the bytes that are not a well-formed, valid module;
/// instantiation with the empty import set fails on unmet imports or a
/// trapping start function; a successful instantiation exposes exactly the
/// function exports the byte content declares.
#[verifier::external_body]
pub(crate) fn instantiate_module(bytes: &Vec<u8>) -> (r: Result<GuestHandle, LoadError>)
    ensures
        r matches Ok(h) ==> guest_exports(h) == module_exports(bytes@),
        r matches Err(e) ==> (e matches LoadError::CompileError(_) || e
            matches LoadError::InstantiationError(_)),
        r is Ok <==> engine_accepts(bytes@),
        (r matches Err(e) && e matches LoadError::CompileError(_)) <==> !module_compiles(bytes@),
        (r matches Err(e) && e matches LoadError::InstantiationError(_)) <==> (module_compiles(
            bytes@,
        ) && !engine_accepts(bytes@)),
{
    let mut store = wasmer::Store::default();
    let module = match wasmer::Module::new(&store, bytes.as_slice()) {
        Ok(m) => m,
        Err(e) => {
            return Err(LoadError::CompileError(e.to_string()));
        },
    };
    match wasmer::Instance::new(&mut store, &module, &wasmer::Imports::new()) {
        Ok(instance) => Ok(GuestHandle {
            inner: std::sync::Arc::new(std::sync::Mutex::new((store, instance))),
        }),
        Err(e) => Err(LoadError::InstantiationError(e.to_string())),
    }
}

impl GuestHandle {
    /// Relies on std::sync::Arc::clone: both handles share the one underlying
    /// engine instance, so they expose the same export map.
    #[verifier::external_body]
    pub(crate) fn duplicate(&self) -> (r: GuestHandle)
        ensures
            guest_exports(r) == guest_exports(*self),
    {
        GuestHandle { inner: std::sync::Arc::clone(&self.inner) }
    }
}

#[verifier::external_type_specification]
#[verifier::external_body]
pub struct ExType(wasmer::Type);

/// The conversion from the engine's type enum into the library's vocabulary,
/// one variant across at a time, with exception references surfacing as
/// opaque external references. Only the export-listing wrapper calls it; its
/// faithfulness is part of what `function_exports` is trusted for, so it
/// carries no contract of its own.
#[verifier::external_body]
fn convert_type(t: &wasmer::Type) -> WasmType {
    match t {
        wasmer::Type::I32 => WasmType::I32,
        wasmer::Type::I64 => WasmType::I64,
        wasmer::Type::F32 => WasmType::F32,
        wasmer::Type::F64 => WasmType::F64,
        wasmer::Type::V128 => WasmType::V128,
        wasmer::Type::FuncRef => WasmType::FuncRef,
        _ => WasmType::ExternRef,
    }
}

/// Relies on wasmer's Exports::iter and Function::ty: yields each function
/// export of the instance exactly once, under its export name, with its
/// declared parameter and result types in declaration order; non-function
/// exports (globals, tables, memories, tags) are not functions and do not
/// appear in the export map. The engine's seven-type vocabulary maps
/// one-to-one onto WasmType, with exception references surfacing as opaque
/// external references (both lie outside the supported subset either way).
#[verifier::external_body]
pub(crate) fn function_exports(h: &GuestHandle) -> (r: Vec<(String, FuncSig)>)
    ensures
        forall|i: int|
            0 <= i < r@.len() ==> #[trigger] guest_exports(*h).contains_key(r@[i].0@)
                && guest_exports(*h)[r@[i].0@] == (r@[i].1.params@, r@[i].1.results@),
        forall|i: int, j: int| 0 <= i < j < r@.len() ==> r@[i].0@ != r@[j].0@,
        forall|k: Seq<char>|
            #[trigger] guest_exports(*h).contains_key(k) ==> exists|i: int|
                0 <= i < r@.len() && #[trigger] r@[i].0@ == k,
{
    let guard = h.inner.lock().unwrap();
    guard.1.exports.iter().filter_map(|(name, ext)| match ext {
        wasmer::Extern::Function(f) => {
            let ty = f.ty(&guard.0);
            Some((name.clone(), FuncSig {
                params: ty.params().iter().map(convert_type).collect(),
                results: ty.results().iter().map(convert_type).collect(),
            }))
        },
        _ => None,
    }).collect()
}

#[verifier::external_type_specification]
#[verifier::external_body]
pub struct ExValue(wasmer::Value);

/// The conversion from one coerced argument into the engine's value enum,
/// one variant across at a time. Only the call wrapper uses it; its
/// faithfulness is part of what `call_guest` is trusted for, so it carries
/// no contract of its own.
#[verifier::external_body]
fn convert_arg(a: &ArgValue) -> wasmer::Value {
    match a {
        ArgValue::I32(v) => wasmer::Value::I32(*v),
        ArgValue::I64(v) => wasmer::Value::I64(*v),
    }
}

/// The conversion from one engine result value into the library's result
/// enum: integers carry their value across, every other variant collapses to
/// `Other`. Only the call wrapper uses it; its faithfulness is part of what
/// `call_guest` is trusted for, so it carries no contract of its own.
#[verifier::external_body]
fn convert_result(v: &wasmer::Value) -> RetValue {
    match v {
        wasmer::Value::I32(x) => RetValue::I32(*x),
        wasmer::Value::I64(x) => RetValue::I64(*x),
        _ => RetValue::Other,
    }
}

/// Relies on wasmer's Exports::get_function and Function::call: a trap or any
/// other runtime failure surfaces as an error carrying the engine's
/// diagnostic, and a successful call returns exactly the declared result
/// values, each of its declared type. Which outcome comes back depends on
/// guest state, so nothing more is promised of it.
#[verifier::external_body]
pub(crate) fn call_guest(h: &GuestHandle, name: &str, args: &Vec<ArgValue>) -> (r: Result<
    Vec<RetValue>,
    String,
>)
    ensures
        r matches Ok(vals) ==> guest_exports(*h).contains_key(name@) && rets_typed(
            vals@,
            guest_exports(*h)[name@].1,
        ),
{
    let mut guard = h.inner.lock().unwrap();
    let (store, instance) = &mut *guard;
    let f = match instance.exports.get_function(name) {
        Ok(f) => f.clone(),
        Err(e) => return Err(e.to_string()),
    };
    let vals: Vec<wasmer::Value> = args.iter().map(convert_arg).collect();
    match f.call(store, vals.as_slice()) {
        Ok(rets) => Ok(rets.iter().map(convert_result).collect()),
        Err(e) => Err(e.to_string()),
    }
}

} // verus!
