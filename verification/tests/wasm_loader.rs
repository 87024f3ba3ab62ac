//! Modules, instances and values of the loader, with the real engine.
use afterburner_wasi::error::AfterburnerError;
use afterburner_wasi::json::Json;
use afterburner_wasi::wasm_loader::{
    call_result, check_arguments, Casts, FloatBits, RawResult, ValueType, WasmArg, WasmLoader,
    WasmValue, DEFAULT_MAX_MEMORY,
};

/// What a value becomes in other types.
fn casts_of(v: WasmValue) -> Casts {
    match v {
        WasmValue::I32(x) => Casts {
            to_i32: x,
            to_i64: x as i64,
            to_f32: (x as f32).to_bits(),
            to_f64: (x as f64).to_bits(),
        },
        WasmValue::I64(x) => Casts {
            to_i32: x as i32,
            to_i64: x,
            to_f32: (x as f32).to_bits(),
            to_f64: (x as f64).to_bits(),
        },
        WasmValue::F32(b) => {
            let x = f32::from_bits(b);
            Casts {
                to_i32: x as i32,
                to_i64: x as i64,
                to_f32: b,
                to_f64: (x as f64).to_bits(),
            }
        }
        WasmValue::F64(b) => {
            let x = f64::from_bits(b);
            Casts {
                to_i32: x as i32,
                to_i64: x as i64,
                to_f32: (x as f32).to_bits(),
                to_f64: b,
            }
        }
    }
}

fn arg(value: WasmValue) -> WasmArg {
    WasmArg { value, casts: casts_of(value) }
}

fn float_of(v: WasmValue) -> FloatBits {
    let c = casts_of(v);
    FloatBits { single: c.to_f32, double: c.to_f64 }
}

fn host_text(e: AfterburnerError) -> String {
    match e {
        AfterburnerError::Host(m) => m,
        other => panic!("unexpected error: {other:?}"),
    }
}

/// The binary of a module that is written as text.
fn compile_wat(wat: &str) -> Vec<u8> {
    wat::parse_str(wat).expect("WAT should compile")
}

fn add_wasm() -> Vec<u8> {
    compile_wat(
        r#"
        (module
            (func (export "add") (param i32 i32) (result i32)
                local.get 0
                local.get 1
                i32.add))
        "#,
    )
}

fn memory_wasm() -> Vec<u8> {
    compile_wat(
        r#"
        (module
            (memory (export "memory") 1)
            (func (export "read_first") (result i32)
                i32.const 0
                i32.load))
        "#,
    )
}

#[test]
fn compile_then_drop_module() {
    let mut loader = WasmLoader::new();
    let id = loader.compile(&add_wasm()).expect("compile");
    assert!(id >= 1);
    loader.drop_module(id);
}

#[test]
fn invalid_wasm_bytes_error() {
    let mut loader = WasmLoader::new();
    let r = loader.compile(&[0xde, 0xad, 0xbe, 0xef]);
    assert!(matches!(r, Err(AfterburnerError::Host(_))));
}

#[test]
fn instantiate_and_call_add() {
    let mut loader = WasmLoader::new();
    let mid = loader.compile(&add_wasm()).expect("compile");
    let iid = loader.instantiate(mid).expect("instantiate");
    let result = loader
        .call_export(iid, "add", vec![arg(WasmValue::I32(7)), arg(WasmValue::I32(35))])
        .expect("call");
    assert_eq!(result.len(), 1);
    match result[0] {
        WasmValue::I32(42) => {}
        other => panic!("unexpected result: {other:?}"),
    }
}

#[test]
fn missing_export_errors() {
    let mut loader = WasmLoader::new();
    let mid = loader.compile(&add_wasm()).expect("compile");
    let iid = loader.instantiate(mid).expect("instantiate");
    let r = loader.call_export(iid, "does_not_exist", vec![]);
    assert!(matches!(r, Err(AfterburnerError::Host(_))));
}

#[test]
fn wrong_arg_count_errors() {
    let mut loader = WasmLoader::new();
    let mid = loader.compile(&add_wasm()).expect("compile");
    let iid = loader.instantiate(mid).expect("instantiate");
    let r = loader.call_export(iid, "add", vec![arg(WasmValue::I32(1))]);
    assert!(matches!(r, Err(AfterburnerError::Host(_))));
}

#[test]
fn module_exports_introspection() {
    let mut loader = WasmLoader::new();
    let mid = loader.compile(&add_wasm()).expect("compile");
    let exports = loader.module_exports(mid).expect("exports");
    assert_eq!(exports.len(), 1);
    assert_eq!(exports[0].name, "add");
    assert_eq!(exports[0].kind, "function");
    assert_eq!(exports[0].param_count, 2);
    assert_eq!(exports[0].result_count, 1);
}

#[test]
fn module_imports_introspection() {
    let mut loader = WasmLoader::new();
    let mid = loader.compile(&add_wasm()).expect("compile");
    let imports = loader.module_imports(mid).expect("imports");
    assert!(imports.is_empty(), "add module should have no imports");
}

#[test]
fn unknown_module_id_errors() {
    let mut loader = WasmLoader::new();
    let r = loader.instantiate(9999);
    assert!(matches!(r, Err(AfterburnerError::Host(_))));
}

#[test]
fn unknown_instance_id_errors() {
    let mut loader = WasmLoader::new();
    let r = loader.call_export(9999, "x", vec![]);
    assert!(matches!(r, Err(AfterburnerError::Host(_))));
}

#[test]
fn drop_instance_invalidates() {
    let mut loader = WasmLoader::new();
    let mid = loader.compile(&add_wasm()).expect("compile");
    let iid = loader.instantiate(mid).expect("instantiate");
    loader.drop_instance(iid);
    let r = loader.call_export(iid, "add", vec![arg(WasmValue::I32(1)), arg(WasmValue::I32(2))]);
    assert!(matches!(r, Err(AfterburnerError::Host(_))));
}

#[test]
fn memory_round_trip() {
    let mut loader = WasmLoader::new();
    let mid = loader.compile(&memory_wasm()).expect("compile");
    let iid = loader.instantiate(mid).expect("instantiate");
    // Initially zero.
    let bytes = loader.memory_read(iid, 0, 4).expect("read");
    assert_eq!(bytes, vec![0, 0, 0, 0]);
    // Write 0x2A 0x00 0x00 0x00 (little-endian 42).
    loader
        .memory_write(iid, 0, &[0x2a, 0x00, 0x00, 0x00])
        .expect("write");
    // The exported `read_first` reads the i32 we just wrote.
    let result = loader.call_export(iid, "read_first", vec![]).expect("call");
    match result[0] {
        WasmValue::I32(42) => {}
        other => panic!("unexpected: {other:?}"),
    }
}

#[test]
fn memory_size_is_one_page() {
    let mut loader = WasmLoader::new();
    let mid = loader.compile(&memory_wasm()).expect("compile");
    let iid = loader.instantiate(mid).expect("instantiate");
    let size = loader.memory_size(iid).expect("size");
    // One page = 64 KiB.
    assert_eq!(size, 64 * 1024);
}

#[test]
fn memory_read_out_of_bounds_errors() {
    let mut loader = WasmLoader::new();
    let mid = loader.compile(&memory_wasm()).expect("compile");
    let iid = loader.instantiate(mid).expect("instantiate");
    let r = loader.memory_read(iid, 0, u32::MAX);
    assert!(matches!(r, Err(AfterburnerError::Host(_))));
}

#[test]
fn memory_write_out_of_bounds_errors() {
    let mut loader = WasmLoader::new();
    let mid = loader.compile(&memory_wasm()).expect("compile");
    let iid = loader.instantiate(mid).expect("instantiate");
    let r = loader.memory_write(iid, 65530, &[0; 100]);
    assert!(matches!(r, Err(AfterburnerError::Host(_))));
}

#[test]
fn module_with_imports_reports_them() {
    let bytes = compile_wat(
        r#"(module (import "env" "log" (func (param i32))))"#,
    );
    let mut loader = WasmLoader::new();
    let mid = loader.compile(&bytes).expect("compile");
    let imports = loader.module_imports(mid).expect("imports");
    assert_eq!(imports.len(), 1);
    assert_eq!(imports[0].module, "env");
    assert_eq!(imports[0].name, "log");
    assert_eq!(imports[0].kind, "function");
}

#[test]
fn module_with_unsatisfied_imports_fails_to_instantiate() {
    let bytes = compile_wat(
        r#"(module (import "env" "log" (func (param i32))))"#,
    );
    let mut loader = WasmLoader::new();
    let mid = loader.compile(&bytes).expect("compile");
    let r = loader.instantiate(mid);
    assert!(matches!(r, Err(AfterburnerError::Host(_))));
}

#[test]
fn coercion_i32_to_i64_widens() {
    let v = WasmValue::I32(42);
    let coerced = v.coerce(&ValueType::I64, casts_of(v)).unwrap();
    assert!(matches!(coerced, WasmValue::I64(42)));
}

#[test]
fn coercion_i64_oversized_to_i32_errors() {
    let v = WasmValue::I64(i64::MAX);
    let r = v.coerce(&ValueType::I32, casts_of(v));
    assert!(matches!(r, Err(AfterburnerError::Host(_))));
}

#[test]
fn json_round_trip_each_type() {
    for v in [
        WasmValue::I32(42),
        WasmValue::I64(i64::MAX),
        WasmValue::F32(3.14f32.to_bits()),
        WasmValue::F64(2.71828f64.to_bits()),
    ] {
        let json = v.to_json();
        let back = WasmValue::from_json(&json, float_of(v)).unwrap();
        assert_eq!(format!("{:?}", v.to_json()), format!("{:?}", back.to_json()));
    }
}

#[test]
fn ids_start_at_one_and_go_up() {
    let mut loader = WasmLoader::new();
    assert_eq!(loader.compile(&add_wasm()).unwrap(), 1);
    assert_eq!(loader.compile(&memory_wasm()).unwrap(), 2);
    assert_eq!(loader.instantiate(1).unwrap(), 1);
    assert_eq!(loader.instantiate(2).unwrap(), 2);
    loader.drop_module(1);
    assert_eq!(loader.compile(&add_wasm()).unwrap(), 3);
}

#[test]
fn a_broken_module_takes_no_id() {
    let mut loader = WasmLoader::new();
    let text = host_text(loader.compile(&[1, 2, 3]).unwrap_err());
    assert!(text.starts_with("WebAssembly.compile: "), "{text}");
    assert_eq!(loader.compile(&add_wasm()).unwrap(), 1);
}

#[test]
fn a_dropped_module_is_unknown() {
    let mut loader = WasmLoader::new();
    let id = loader.compile(&add_wasm()).unwrap();
    loader.drop_module(id);
    assert_eq!(
        host_text(loader.module_exports(id).unwrap_err()),
        "WebAssembly: unknown module 1"
    );
    assert_eq!(
        host_text(loader.module_imports(id).unwrap_err()),
        "WebAssembly: unknown module 1"
    );
    assert_eq!(
        host_text(loader.instantiate(id).unwrap_err()),
        "WebAssembly: unknown module 1"
    );
}

#[test]
fn what_was_written_is_read_back_and_nothing_else_changes() {
    let mut loader = WasmLoader::new();
    let module = loader.compile(&memory_wasm()).unwrap();
    let one = loader.instantiate(module).unwrap();
    let two = loader.instantiate(module).unwrap();
    loader.memory_write(one, 100, &[1, 2, 3]).unwrap();
    assert_eq!(loader.memory_read(one, 99, 5).unwrap(), vec![0, 1, 2, 3, 0]);
    assert_eq!(loader.memory_read(two, 99, 5).unwrap(), vec![0; 5]);
    assert_eq!(loader.memory_size(one).unwrap(), 65536);
}

#[test]
fn ranges_beyond_a_memory_are_named() {
    let mut loader = WasmLoader::new();
    let module = loader.compile(&memory_wasm()).unwrap();
    let id = loader.instantiate(module).unwrap();
    assert_eq!(
        host_text(loader.memory_read(id, 65530, 7).unwrap_err()),
        "WebAssembly.memory.read: range 65530..65537 exceeds memory size 65536"
    );
    assert_eq!(
        host_text(loader.memory_write(id, 65536, &[1]).unwrap_err()),
        "WebAssembly.memory.write: range 65536..65537 exceeds memory size 65536"
    );
    assert!(loader.memory_read(id, 65536, 0).unwrap().is_empty());
    assert_eq!(
        host_text(loader.memory_read(9, 0, 1).unwrap_err()),
        "WebAssembly: unknown instance 9"
    );
}

#[test]
fn an_instance_without_memory_says_so() {
    let mut loader = WasmLoader::new();
    let module = loader.compile(&add_wasm()).unwrap();
    let id = loader.instantiate(module).unwrap();
    let text = "WebAssembly: instance does not export `memory`";
    assert_eq!(host_text(loader.memory_size(id).unwrap_err()), text);
    assert_eq!(host_text(loader.memory_read(id, 0, 1).unwrap_err()), text);
    assert_eq!(host_text(loader.memory_write(id, 0, &[1]).unwrap_err()), text);
}

#[test]
fn memories_stay_within_their_limit() {
    let mut loader = WasmLoader::new();
    let grower = compile_wat(
        r#"(module
            (memory (export "memory") 1)
            (func (export "grow") (param i32) (result i32)
                local.get 0
                memory.grow))"#,
    );
    let module = loader.compile(&grower).unwrap();
    let id = loader.instantiate(module).unwrap();
    let pages = (DEFAULT_MAX_MEMORY / 65536) as i32;
    let refused = loader.call_export(id, "grow", vec![arg(WasmValue::I32(pages))]).unwrap();
    assert_eq!(refused, vec![WasmValue::I32(-1)]);
    let granted = loader.call_export(id, "grow", vec![arg(WasmValue::I32(1))]).unwrap();
    assert_eq!(granted, vec![WasmValue::I32(1)]);
    assert_eq!(loader.memory_size(id).unwrap(), 131072);
    let huge = compile_wat(r#"(module (memory (export "memory") 5000))"#);
    let module = loader.compile(&huge).unwrap();
    assert!(loader.instantiate(module).is_err());
}

#[test]
fn a_trap_is_named_after_its_function() {
    let mut loader = WasmLoader::new();
    let bytes = compile_wat(r#"(module (func (export "boom") unreachable))"#);
    let module = loader.compile(&bytes).unwrap();
    let id = loader.instantiate(module).unwrap();
    let text = host_text(loader.call_export(id, "boom", vec![]).unwrap_err());
    assert!(text.starts_with("WebAssembly: `boom` trapped: "), "{text}");
}

#[test]
fn arguments_are_counted_and_coerced() {
    let mut loader = WasmLoader::new();
    let bytes = compile_wat(
        r#"(module
            (func (export "long") (param i64) (result i64) local.get 0)
            (func (export "real") (param f64) (result f64) local.get 0)
            (func (export "vector") (param v128)))"#,
    );
    let module = loader.compile(&bytes).unwrap();
    let id = loader.instantiate(module).unwrap();
    assert_eq!(
        loader.call_export(id, "long", vec![arg(WasmValue::I32(-5))]).unwrap(),
        vec![WasmValue::I64(-5)]
    );
    assert_eq!(
        loader.call_export(id, "real", vec![arg(WasmValue::I32(3))]).unwrap(),
        vec![WasmValue::F64(3.0f64.to_bits())]
    );
    assert_eq!(
        host_text(loader.call_export(id, "long", vec![]).unwrap_err()),
        "WebAssembly: `long` expects 1 arg(s), got 0"
    );
    let text = host_text(loader.call_export(id, "vector", vec![arg(WasmValue::I32(0))]).unwrap_err());
    assert_eq!(text, "WebAssembly: unsupported param type v128");
    assert_eq!(
        host_text(loader.call_export(id, "none", vec![]).unwrap_err()),
        "WebAssembly: export `none` not found or not a function"
    );
}

#[test]
fn the_first_argument_that_does_not_fit_is_named() {
    let types = vec![ValueType::I32, ValueType::I32];
    let args = vec![arg(WasmValue::I64(1)), arg(WasmValue::I64(1 << 40))];
    assert_eq!(
        host_text(check_arguments("f", &args, &types).unwrap_err()),
        "WebAssembly: i64 1099511627776 doesn't fit in i32"
    );
    let fine = vec![arg(WasmValue::I64(-1)), arg(WasmValue::F64(2.5f64.to_bits()))];
    assert_eq!(
        check_arguments("f", &fine, &types).unwrap(),
        vec![WasmValue::I32(-1), WasmValue::I32(2)]
    );
}

#[test]
fn results_that_are_no_numbers_are_errors() {
    let given = vec![
        RawResult::Value(WasmValue::I32(1)),
        RawResult::Other("FuncRef(None)".to_string()),
    ];
    assert_eq!(
        host_text(call_result("f", Ok(given)).unwrap_err()),
        "WebAssembly: unsupported result type FuncRef(None)"
    );
    assert_eq!(
        host_text(call_result("f", Err("stop".to_string())).unwrap_err()),
        "WebAssembly: `f` trapped: stop"
    );
}

#[test]
fn values_that_are_no_values_are_named() {
    let bits = FloatBits { single: 0, double: 0 };
    let object = |ty: &str, value: Json| {
        Json::Object(vec![
            ("type".to_string(), Json::Text(ty.to_string())),
            ("value".to_string(), value),
        ])
    };
    let text = |v: Json| host_text(WasmValue::from_json(&v, bits).unwrap_err());
    assert_eq!(text(Json::Null), "WasmValue: missing `type`");
    assert_eq!(
        text(Json::Object(vec![("type".to_string(), Json::Text("i32".to_string()))])),
        "WasmValue: missing `value`"
    );
    assert_eq!(text(object("i32", Json::Text("1".into()))), "WasmValue.i32: not a number");
    assert_eq!(text(object("i64", Json::Int(1))), "WasmValue.i64: not a string");
    assert_eq!(text(object("f32", Json::Null)), "WasmValue.f32: not a number");
    assert_eq!(text(object("f64", Json::Null)), "WasmValue.f64: not a number");
    assert_eq!(text(object("v128", Json::Null)), "WasmValue: unknown type `v128`");
    assert_eq!(
        WasmValue::from_json(&object("i32", Json::Int(1 << 33)), bits).unwrap(),
        WasmValue::I32(0)
    );
}

#[test]
fn integers_read_as_the_standard_library_reads_them() {
    for s in [
        "",
        "+",
        "-",
        "0",
        "-0",
        "007",
        "+12",
        "9223372036854775807",
        "9223372036854775808",
        "-9223372036854775808",
        "-9223372036854775809",
        "9223372036854775808x",
        "99999999999999999999x",
        "x9",
        "1 ",
        "--1",
        "\u{0663}",
    ] {
        let v = Json::Object(vec![
            ("type".to_string(), Json::Text("i64".to_string())),
            ("value".to_string(), Json::Text(s.to_string())),
        ]);
        let read = WasmValue::from_json(&v, FloatBits { single: 0, double: 0 });
        match s.parse::<i64>() {
            Ok(n) => assert_eq!(read.unwrap(), WasmValue::I64(n)),
            Err(e) => assert_eq!(
                host_text(read.unwrap_err()),
                format!("WasmValue.i64 parse: {e}")
            ),
        }
    }
}

#[test]
fn result_that_is_no_number_is_refused() {
    let loader = &mut WasmLoader::new();
    let binary = compile_wat(
        r#"(module (func (export "both") (result i32 funcref) i32.const 1 ref.null func))"#,
    );
    let module = loader.compile(&binary).unwrap();
    let id = loader.instantiate(module).unwrap();
    assert_eq!(
        host_text(loader.call_export(id, "both", vec![]).unwrap_err()),
        "WebAssembly: unsupported result type FuncRef(None)"
    );
}

#[test]
fn unsatisfied_import_is_named() {
    let loader = &mut WasmLoader::new();
    let binary = compile_wat(
        r#"(module (import "env" "log" (func (param i32))) (import "env" "now" (func)))"#,
    );
    let module = loader.compile(&binary).unwrap();
    let text = host_text(loader.instantiate(module).unwrap_err());
    assert!(text.starts_with("WebAssembly.instantiate: import not satisfied: log. "), "{text}");
}
