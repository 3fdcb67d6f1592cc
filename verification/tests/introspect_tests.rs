use wasm_registry::registry::SharedRegistry;

fn load(registry: &SharedRegistry, wat_text: &str) -> String {
    let bytes = wat::parse_str(wat_text).expect("the module text must parse");
    registry
        .load_module_bytes(&bytes, String::from("test-module.wasm"))
        .expect("the module must load")
}

#[test]
fn empty_registry_has_no_rows() {
    let registry = SharedRegistry::new();
    assert!(registry.list_exported_functions().is_empty());
}

#[test]
fn single_add_export_yields_one_exact_row() {
    let registry = SharedRegistry::new();
    let id = load(
        &registry,
        r#"(module
            (func (export "add") (param i32 i32) (result i32)
              local.get 0
              local.get 1
              i32.add))"#,
    );
    let rows = registry.list_exported_functions();
    assert_eq!(rows.len(), 1);
    assert_eq!(rows[0].instance_id, id);
    assert_eq!(rows[0].name, "add");
    assert_eq!(rows[0].inputs, "int4,int4");
    assert_eq!(rows[0].outputs, "int4");
}

#[test]
fn mixed_signature_renders_in_declaration_order() {
    let registry = SharedRegistry::new();
    load(
        &registry,
        r#"(module
            (func (export "mix") (param i64 f64 i32) (result f32) f32.const 0))"#,
    );
    let rows = registry.list_exported_functions();
    assert_eq!(rows.len(), 1);
    assert_eq!(rows[0].name, "mix");
    assert_eq!(rows[0].inputs, "int8,numeric,int4");
    assert_eq!(rows[0].outputs, "numeric");
}

#[test]
fn non_function_exports_produce_no_rows() {
    let registry = SharedRegistry::new();
    load(
        &registry,
        r#"(module
            (table (export "tbl") 1 funcref)
            (global (export "g") i32 (i32.const 7))
            (func (export "only") (result i32) i32.const 1))"#,
    );
    let rows = registry.list_exported_functions();
    assert_eq!(rows.len(), 1);
    assert_eq!(rows[0].name, "only");
}

#[test]
fn rows_cover_every_registered_instance() {
    let registry = SharedRegistry::new();
    let id_a = load(
        &registry,
        r#"(module (func (export "a") (result i32) i32.const 1))"#,
    );
    let id_b = load(
        &registry,
        r#"(module (func (export "b") (result i64) i64.const 2))"#,
    );
    let rows = registry.list_exported_functions();
    assert_eq!(rows.len(), 2);
    assert!(rows.iter().any(|r| r.instance_id == id_a && r.name == "a"));
    assert!(rows.iter().any(|r| r.instance_id == id_b && r.name == "b"));
}

#[test]
fn zero_parameter_function_renders_empty_inputs() {
    let registry = SharedRegistry::new();
    load(
        &registry,
        r#"(module (func (export "nullary") (result i64) i64.const 9))"#,
    );
    let rows = registry.list_exported_functions();
    assert_eq!(rows.len(), 1);
    assert_eq!(rows[0].inputs, "");
    assert_eq!(rows[0].outputs, "int8");
}
