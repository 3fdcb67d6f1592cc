//! Arity and type validation of host arguments, and their coercion into the
//! guest's typed values; interpretation of the guest's result list as a single
//! optional 64-bit integer.

use vstd::prelude::*;

use crate::types::{ArgValue, InvokeError, RetValue, WasmType};

verus! {

/// The bridge marshals only the two integer types.
pub open spec fn is_integer_type(t: WasmType) -> bool {
    t == WasmType::I32 || t == WasmType::I64
}

/// Every declared parameter type is within the supported integer subset.
pub open spec fn all_params_supported(params: Seq<WasmType>) -> bool {
    forall|i: int| 0 <= i < params.len() ==> is_integer_type(#[trigger] params[i])
}

/// The coercion of one 64-bit host argument into one declared parameter type:
/// truncate for a 32-bit parameter, pass through for a 64-bit one. Only
/// applied to integer parameter types.
pub open spec fn coerce_one(t: WasmType, a: i64) -> ArgValue {
    if t == WasmType::I32 {
        ArgValue::I32(a as i32)
    } else {
        ArgValue::I64(a)
    }
}

/// The positionwise coercion of a whole argument list.
pub open spec fn coerce_all(params: Seq<WasmType>, args: Seq<i64>) -> Seq<ArgValue> {
    Seq::new(params.len(), |i: int| coerce_one(params[i], args[i]))
}

/// What marshalling yields: an arity mismatch is reported first, then an
/// unsupported parameter type, and otherwise the coerced argument list.
pub open spec fn marshal_spec(params: Seq<WasmType>, args: Seq<i64>) -> Result<
    Seq<ArgValue>,
    InvokeError,
> {
    if params.len() != args.len() {
        Err(InvokeError::ArityMismatch)
    } else if !all_params_supported(params) {
        Err(InvokeError::UnsupportedArgumentType)
    } else {
        Ok(coerce_all(params, args))
    }
}

/// Validates the argument count and the declared parameter types, and coerces
/// each supplied 64-bit integer into the corresponding parameter type.
pub fn marshal_args(params: &Vec<WasmType>, args: &Vec<i64>) -> (r: Result<
    Vec<ArgValue>,
    InvokeError,
>)
    ensures
        match r {
            Ok(vals) => marshal_spec(params@, args@) == Ok::<Seq<ArgValue>, InvokeError>(vals@),
            Err(e) => marshal_spec(params@, args@) == Err::<Seq<ArgValue>, InvokeError>(e),
        },
{
    if params.len() != args.len() {
        return Err(InvokeError::ArityMismatch);
    }
    let mut vals: Vec<ArgValue> = Vec::new();
    let mut i: usize = 0;
    while i < params.len()
        invariant
            params@.len() == args@.len(),
            i <= params@.len(),
            vals@.len() == i as int,
            forall|j: int| 0 <= j < i as int ==> is_integer_type(#[trigger] params@[j]),
            forall|j: int| 0 <= j < i as int ==> vals@[j] == coerce_one(params@[j], args@[j]),
        decreases params@.len() - i as int,
    {
        let val = match params[i] {
            WasmType::I32 => ArgValue::I32(args[i] as i32),
            WasmType::I64 => ArgValue::I64(args[i]),
            _ => {
                return Err(InvokeError::UnsupportedArgumentType);
            },
        };
        vals.push(val);
        i = i + 1;
    }
    proof {
        assert(vals@ =~= coerce_all(params@, args@));
    }
    Ok(vals)
}

/// Whether one guest result value has the given declared type, as the bridge
/// observes it: integers carry their value, everything else collapses to
/// `Other`.
pub open spec fn ret_has_type(v: RetValue, t: WasmType) -> bool {
    if t == WasmType::I32 {
        v is I32
    } else if t == WasmType::I64 {
        v is I64
    } else {
        v is Other
    }
}

/// The guest's result list matches its declared result types positionwise.
pub open spec fn rets_typed(vals: Seq<RetValue>, types: Seq<WasmType>) -> bool {
    vals.len() == types.len() && forall|i: int|
        0 <= i < vals.len() ==> ret_has_type(#[trigger] vals[i], types[i])
}

/// How the result list is reported to the host: exactly one 32-bit integer is
/// widened, exactly one 64-bit integer passes through, and any other shape is
/// "no value".
pub open spec fn interpret_spec(vals: Seq<RetValue>) -> Option<i64> {
    if vals.len() == 1 {
        match vals[0] {
            RetValue::I32(v) => Some(v as i64),
            RetValue::I64(v) => Some(v),
            RetValue::Other => None,
        }
    } else {
        None
    }
}

/// Reduces the guest's result list to the single optional scalar the host
/// understands.
pub fn interpret_results(vals: &Vec<RetValue>) -> (r: Option<i64>)
    ensures
        r == interpret_spec(vals@),
{
    if vals.len() == 1 {
        match vals[0] {
            RetValue::I32(v) => Some(v as i64),
            RetValue::I64(v) => Some(v),
            RetValue::Other => None,
        }
    } else {
        None
    }
}

/// Any result shape other than a single scalar integer — zero results, more
/// than one result, or one non-integer result — is reported as "no value",
/// never as an error.
pub proof fn lemma_unsupported_result_shape(vals: Seq<RetValue>)
    requires
        vals.len() != 1 || vals[0] is Other,
    ensures
        interpret_spec(vals) is None,
{
}

/// An argument count different from the declared parameter count always
/// yields an arity mismatch, whatever the declared types and whatever the
/// argument values.
pub proof fn lemma_arity_mismatch(params: Seq<WasmType>, args: Seq<i64>)
    requires
        params.len() != args.len(),
    ensures
        marshal_spec(params, args) == Err::<Seq<ArgValue>, InvokeError>(InvokeError::ArityMismatch),
{
}

/// A declared signature holding any floating-point, vector or reference
/// parameter is rejected before any call: marshalling a matching argument
/// count against it always yields the unsupported-argument-type error.
pub proof fn lemma_unsupported_parameter(params: Seq<WasmType>, args: Seq<i64>, bad: int)
    requires
        params.len() == args.len(),
        0 <= bad < params.len(),
        !is_integer_type(params[bad]),
    ensures
        marshal_spec(params, args) == Err::<Seq<ArgValue>, InvokeError>(
            InvokeError::UnsupportedArgumentType,
        ),
{
}

} // verus!
