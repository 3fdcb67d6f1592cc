use wasm_registry::registry::SharedRegistry;
use wasm_registry::types::{InvokeError, LoadError};

fn load(registry: &SharedRegistry, wat_text: &str) -> String {
    let bytes = wat::parse_str(wat_text).expect("the module text must parse");
    registry
        .load_module_bytes(&bytes, String::from("test-module.wasm"))
        .expect("the module must load")
}

const SUM_MODULE: &str = r#"
(module
  (func (export "sum") (param i32 i32) (result i32)
    local.get 0
    local.get 1
    i32.add))
"#;

#[test]
fn load_and_invoke_sum() {
    let registry = SharedRegistry::new();
    let id = load(&registry, SUM_MODULE);
    let r = registry.invoke(&id, &String::from("sum"), &vec![2, 3]);
    assert!(matches!(r, Ok(Some(5))));
}

#[test]
fn sum_with_three_arguments_is_arity_mismatch() {
    let registry = SharedRegistry::new();
    let id = load(&registry, SUM_MODULE);
    let r = registry.invoke(&id, &String::from("sum"), &vec![1, 2, 3]);
    assert!(matches!(r, Err(InvokeError::ArityMismatch)));
}

#[test]
fn missing_function_is_function_not_found() {
    let registry = SharedRegistry::new();
    let id = load(&registry, SUM_MODULE);
    let r = registry.invoke(&id, &String::from("missing"), &Vec::new());
    assert!(matches!(r, Err(InvokeError::FunctionNotFound)));
}

#[test]
fn unknown_instance_is_instance_not_found() {
    let registry = SharedRegistry::new();
    let r = registry.invoke(&String::from("no-such-id"), &String::from("sum"), &vec![1]);
    assert!(matches!(r, Err(InvokeError::InstanceNotFound)));
}

#[test]
fn sum_widens_negative_32_bit_result() {
    let registry = SharedRegistry::new();
    let id = load(&registry, SUM_MODULE);
    let r = registry.invoke(&id, &String::from("sum"), &vec![-2, -3]);
    assert!(matches!(r, Ok(Some(-5))));
}

#[test]
fn argument_truncation_reaches_the_guest() {
    let registry = SharedRegistry::new();
    let id = load(&registry, SUM_MODULE);
    let r = registry.invoke(&id, &String::from("sum"), &vec![0x1_0000_0002, 3]);
    assert!(matches!(r, Ok(Some(5))));
}

#[test]
fn loading_same_content_twice_returns_same_identifier() {
    let registry = SharedRegistry::new();
    let first = load(&registry, SUM_MODULE);
    let second = load(&registry, SUM_MODULE);
    assert_eq!(first, second);
    let r = registry.invoke(&first, &String::from("sum"), &vec![20, 22]);
    assert!(matches!(r, Ok(Some(42))));
    assert_eq!(registry.list_exported_functions().len(), 1);
}

#[test]
fn distinct_modules_get_distinct_identifiers() {
    let registry = SharedRegistry::new();
    let id_sum = load(&registry, SUM_MODULE);
    let id_answer = load(
        &registry,
        r#"(module (func (export "answer") (result i64) i64.const 42))"#,
    );
    assert_ne!(id_sum, id_answer);
    let r = registry.invoke(&id_answer, &String::from("answer"), &Vec::new());
    assert!(matches!(r, Ok(Some(42))));
}

#[test]
fn float_parameter_fails_without_calling_the_guest() {
    let registry = SharedRegistry::new();
    let id = load(
        &registry,
        r#"(module
            (func (export "fhalf") (param f32) (result i32) i32.const 1)
            (func (export "dhalf") (param f64) (result i32) i32.const 1))"#,
    );
    let r = registry.invoke(&id, &String::from("fhalf"), &vec![1]);
    assert!(matches!(r, Err(InvokeError::UnsupportedArgumentType)));
    let r = registry.invoke(&id, &String::from("dhalf"), &vec![1]);
    assert!(matches!(r, Err(InvokeError::UnsupportedArgumentType)));
}

#[test]
fn trap_is_reported_as_execution_fault() {
    let registry = SharedRegistry::new();
    let id = load(&registry, r#"(module (func (export "boom") unreachable))"#);
    let r = registry.invoke(&id, &String::from("boom"), &Vec::new());
    assert!(matches!(r, Err(InvokeError::ExecutionFault(_))));
}

#[test]
fn zero_results_mean_no_value() {
    let registry = SharedRegistry::new();
    let id = load(&registry, r#"(module (func (export "noop")))"#);
    let r = registry.invoke(&id, &String::from("noop"), &Vec::new());
    assert!(matches!(r, Ok(None)));
}

#[test]
fn non_integer_result_means_no_value() {
    let registry = SharedRegistry::new();
    let id = load(
        &registry,
        r#"(module (func (export "pi") (result f64) f64.const 3.14))"#,
    );
    let r = registry.invoke(&id, &String::from("pi"), &Vec::new());
    assert!(matches!(r, Ok(None)));
}

#[test]
fn two_results_mean_no_value() {
    let registry = SharedRegistry::new();
    let id = load(
        &registry,
        r#"(module (func (export "pair") (result i32 i32) i32.const 1 i32.const 2))"#,
    );
    let r = registry.invoke(&id, &String::from("pair"), &Vec::new());
    assert!(matches!(r, Ok(None)));
}

#[test]
fn reference_parameter_is_unsupported_and_unlisted() {
    let registry = SharedRegistry::new();
    let id = load(
        &registry,
        r#"(module
            (func (export "takes_ref") (param externref) (result i32) i32.const 1)
            (func (export "plain") (result i32) i32.const 7))"#,
    );
    let r = registry.invoke(&id, &String::from("takes_ref"), &vec![1]);
    assert!(matches!(r, Err(InvokeError::UnsupportedArgumentType)));
    let rows = registry.list_exported_functions();
    assert_eq!(rows.len(), 1);
    assert_eq!(rows[0].name, "plain");
    let r = registry.invoke(&id, &String::from("plain"), &Vec::new());
    assert!(matches!(r, Ok(Some(7))));
}

#[test]
fn malformed_bytes_are_a_compile_error() {
    let registry = SharedRegistry::new();
    let bytes: Vec<u8> = vec![0xde, 0xad, 0xbe, 0xef];
    let r = registry.load_module_bytes(&bytes, String::from("bad.wasm"));
    assert!(matches!(r, Err(LoadError::CompileError(_))));
}

#[test]
fn unmet_import_is_an_instantiation_error_not_a_crash() {
    let registry = SharedRegistry::new();
    let bytes = wat::parse_str(r#"(module (import "env" "f" (func)))"#).unwrap();
    let r = registry.load_module_bytes(&bytes, String::from("needs-imports.wasm"));
    assert!(matches!(r, Err(LoadError::InstantiationError(_))));
}
