use wasm_registry::introspect::{render_tags, type_tag};
use wasm_registry::marshal::{interpret_results, marshal_args};
use wasm_registry::types::{ArgValue, InvokeError, RetValue, WasmType};

#[test]
fn arity_mismatch_for_all_arities() {
    for declared in 0..=10usize {
        let params: Vec<WasmType> = vec![WasmType::I64; declared];
        for supplied in 0..=10usize {
            if supplied == declared {
                continue;
            }
            let args: Vec<i64> = vec![1; supplied];
            let r = marshal_args(&params, &args);
            assert!(matches!(r, Err(InvokeError::ArityMismatch)));
        }
    }
}

#[test]
fn unsupported_parameter_types_rejected() {
    for bad in [
        WasmType::F32,
        WasmType::F64,
        WasmType::V128,
        WasmType::ExternRef,
        WasmType::FuncRef,
    ] {
        let params = vec![WasmType::I32, bad];
        let args: Vec<i64> = vec![1, 2];
        let r = marshal_args(&params, &args);
        assert!(matches!(r, Err(InvokeError::UnsupportedArgumentType)));
    }
}

#[test]
fn arity_checked_before_parameter_types() {
    let params = vec![WasmType::F32];
    let args: Vec<i64> = vec![1, 2];
    let r = marshal_args(&params, &args);
    assert!(matches!(r, Err(InvokeError::ArityMismatch)));
}

#[test]
fn coercion_truncates_and_passes_through() {
    let params = vec![WasmType::I32, WasmType::I64, WasmType::I32];
    let args: Vec<i64> = vec![0x1_0000_0005, 7, -1];
    let vals = marshal_args(&params, &args).unwrap();
    assert_eq!(
        vals,
        vec![ArgValue::I32(5), ArgValue::I64(7), ArgValue::I32(-1)]
    );
}

#[test]
fn empty_signature_marshals_to_empty() {
    let params: Vec<WasmType> = Vec::new();
    let args: Vec<i64> = Vec::new();
    let vals = marshal_args(&params, &args).unwrap();
    assert!(vals.is_empty());
}

#[test]
fn interpret_single_integer_results() {
    assert_eq!(interpret_results(&vec![RetValue::I32(-1)]), Some(-1));
    assert_eq!(interpret_results(&vec![RetValue::I32(5)]), Some(5));
    assert_eq!(interpret_results(&vec![RetValue::I64(1 << 40)]), Some(1 << 40));
}

#[test]
fn interpret_other_shapes_as_no_value() {
    assert_eq!(interpret_results(&Vec::new()), None);
    assert_eq!(
        interpret_results(&vec![RetValue::I32(1), RetValue::I32(2)]),
        None
    );
    assert_eq!(interpret_results(&vec![RetValue::Other]), None);
}

#[test]
fn type_tags_follow_translation_table() {
    assert_eq!(type_tag(&WasmType::I32), Some("int4"));
    assert_eq!(type_tag(&WasmType::I64), Some("int8"));
    assert_eq!(type_tag(&WasmType::F32), Some("numeric"));
    assert_eq!(type_tag(&WasmType::F64), Some("numeric"));
    assert_eq!(type_tag(&WasmType::V128), Some("decimal"));
    assert_eq!(type_tag(&WasmType::ExternRef), None);
    assert_eq!(type_tag(&WasmType::FuncRef), None);
}

#[test]
fn rendered_tags_join_in_declaration_order() {
    let ts = vec![
        WasmType::I32,
        WasmType::I64,
        WasmType::F32,
        WasmType::F64,
        WasmType::V128,
    ];
    assert_eq!(
        render_tags(&ts).as_deref(),
        Some("int4,int8,numeric,numeric,decimal")
    );
    assert_eq!(render_tags(&vec![WasmType::I32]).as_deref(), Some("int4"));
    assert_eq!(render_tags(&Vec::new()).as_deref(), Some(""));
}

#[test]
fn reference_types_have_no_rendering() {
    assert_eq!(render_tags(&vec![WasmType::ExternRef]), None);
    assert_eq!(render_tags(&vec![WasmType::I32, WasmType::FuncRef]), None);
}
