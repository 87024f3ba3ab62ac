//! Scripts: how they are compiled, kept and run.
use afterburner_wasi::columnar::{decode_batch, encode_batch, ColumnDtype, ColumnRef, ColumnarBatch};
use afterburner_wasi::daemon_runtime::GuestTrap;
use afterburner_wasi::error::AfterburnerError;
use afterburner_wasi::wasm_engine::{
    checked_output, columnar_outcome, columnar_reply, compile_failure, deadline_ticks, decode_bytecode,
    format_trap_with_stderr, fuel_of, hex8, map_script_trap, max_linear_memory_bytes,
    script_outcome, thrust_failure, thrust_outcome, trim_trailing_whitespace, Ignition, ScriptCache,
    DEFAULT_MAX_LINEAR_MEMORY_BYTES, STDERR_DIAGNOSIS_CAP, WASM32_MAX_LINEAR_MEMORY_BYTES,
};
use base64::engine::general_purpose::STANDARD;
use base64::Engine as _;
use serde_json::Value;

/// Takes a script up, where the guest compiles a source to the mode and the source itself.
fn ignite(c: &mut ScriptCache, hash: &[u8; 32], source: &str) {
    let mut at = c.ignite(hash);
    while let Some(mode) = at.asks() {
        let bytecode = format!("{mode}:{source}").into_bytes();
        at = c.compiled(hash, source, at, Ok(bytecode));
    }
    assert!(matches!(at, Ignition::Done));
}

fn envelope(bytes: &[u8]) -> (String, Vec<u8>) {
    let v: Value = serde_json::from_slice(bytes).unwrap();
    let b64 = v["bytecode_b64"].as_str().unwrap();
    (v["mode"].as_str().unwrap().to_string(), STANDARD.decode(b64).unwrap())
}

#[test]
fn bytecode_cache_compiles_once_per_source() {
    let mut c = ScriptCache::new();
    assert_eq!(c.compile_count(), 0);

    let (id, other) = ([1u8; 32], [2u8; 32]);
    ignite(&mut c, &id, "module.exports = (d) => ({ doubled: d.n * 2 })");
    assert_eq!(c.compile_count(), 2);

    for _ in 0..32 {
        assert!(c.invoke_envelope_of(&id).is_ok());
    }
    assert_eq!(c.compile_count(), 2);

    ignite(&mut c, &id, "module.exports = (d) => ({ doubled: d.n * 2 })");
    assert_eq!(c.compile_count(), 2);

    ignite(&mut c, &other, "module.exports = () => 42");
    assert_eq!(c.compile_count(), 4);
}

#[test]
fn invoke_envelope_is_prebuilt_at_ignite() {
    let mut c = ScriptCache::new();
    let id = [1u8; 32];
    ignite(&mut c, &id, "module.exports = () => 'ok'");
    let (_, raw, columnar_raw, invoke, columnar_invoke) = c.script(&id).expect("cached");
    assert!(!raw.is_empty(), "raw bytecode must be cached");
    assert!(!columnar_raw.is_empty(), "columnar bytecode must be cached");
    assert_ne!(raw, columnar_raw, "regular + columnar bytecodes must differ");
    assert!(!invoke.is_empty(), "invoke envelope must be pre-built at ignite");
    assert_eq!(envelope(&invoke), ("invoke".to_string(), raw));
    assert!(!columnar_invoke.is_empty(), "columnar invoke envelope must be pre-built at ignite");
    assert_eq!(envelope(&columnar_invoke), ("columnar-invoke".to_string(), columnar_raw));
}

#[test]
fn script_that_does_not_compile_is_not_kept() {
    let mut c = ScriptCache::new();
    let id = [3u8; 32];
    let broken = || Err(AfterburnerError::CompileFailed("SyntaxError".to_string()));
    let at = c.ignite(&id);
    assert_eq!(at.asks(), Some("compile"));
    let at = c.compiled(&id, "(", at, broken());
    assert!(matches!(&at, Ignition::Failed(AfterburnerError::CompileFailed(_))));
    assert_eq!(at.asks(), None);
    assert_eq!(c.compile_count(), 1);
    let at = c.ignite(&id);
    let at = c.compiled(&id, "(", at, Ok(vec![1]));
    assert_eq!(at.asks(), Some("compile-columnar"));
    let at = c.compiled(&id, "(", at, broken());
    assert!(matches!(at, Ignition::Failed(_)));
    assert_eq!(c.compile_count(), 3);
    assert!(matches!(c.invoke_envelope_of(&id), Err(AfterburnerError::ScriptNotFound)));
}

#[test]
fn script_not_found_after_extinguish_wasm() {
    let mut c = ScriptCache::new();
    let id = [7u8; 32];
    ignite(&mut c, &id, "const x = 1;");
    assert!(c.is_cached(&id));
    c.extinguish(&id);
    let err = c.invoke_envelope_of(&id).unwrap_err();
    assert!(matches!(err, AfterburnerError::ScriptNotFound));
}

#[test]
fn thrust_columnar_unknown_script_id() {
    let c = ScriptCache::new();
    let bogus = [0u8; 32];
    let err = c.columnar_envelope_of(&bogus).unwrap_err();
    assert!(matches!(err, AfterburnerError::ScriptNotFound));
}

#[test]
fn thrust_columnar_phase1_unsupported_dtype_clean_error() {
    let data = vec![0u8; 16];
    let mut batch = ColumnarBatch::new(1);
    batch.push(ColumnRef {
        name: "amount",
        dtype: ColumnDtype::Decimal128,
        data: &data,
        validity: None,
    });
    match encode_batch(&batch) {
        Err(AfterburnerError::Engine(msg)) => assert!(msg.contains("Decimal128"), "got {msg}"),
        _ => panic!("expected Engine error"),
    }
}

#[test]
fn encoded_batch_reads_back() {
    let data = vec![1u8, 0, 0, 0, 2, 0, 0, 0];
    let mut batch = ColumnarBatch::new(2);
    batch.push(ColumnRef { name: "n", dtype: ColumnDtype::Int32, data: &data, validity: None });
    let encoded = encode_batch(&batch).unwrap();
    let back = decode_batch(&encoded.bytes).unwrap();
    assert_eq!(back.columns[0].name, "n");
    assert_eq!(back.columns[0].data, data);
}

#[test]
fn scripts_are_kept_by_their_hash() {
    let mut c = ScriptCache::new();
    let (a, b) = ([1u8; 32], [2u8; 32]);
    ignite(&mut c, &a, "a");
    assert!(c.is_cached(&a) && !c.is_cached(&b));
    ignite(&mut c, &b, "b");
    c.extinguish(&a);
    assert!(!c.is_cached(&a) && c.is_cached(&b));
    assert_eq!(envelope(&c.invoke_envelope_of(&b).unwrap()).1, b"compile:b".to_vec());
    assert_eq!(envelope(&c.columnar_envelope_of(&b).unwrap()).1, b"compile-columnar:b".to_vec());
    assert_eq!(c.compile_count(), 4);
}

#[test]
fn memory_setting_is_bounded() {
    assert_eq!(max_linear_memory_bytes(None), DEFAULT_MAX_LINEAR_MEMORY_BYTES);
    assert_eq!(max_linear_memory_bytes(Some("")), DEFAULT_MAX_LINEAR_MEMORY_BYTES);
    assert_eq!(max_linear_memory_bytes(Some("many")), DEFAULT_MAX_LINEAR_MEMORY_BYTES);
    assert_eq!(max_linear_memory_bytes(Some("65536")), 65_536);
    assert_eq!(max_linear_memory_bytes(Some("99999999999999")), WASM32_MAX_LINEAR_MEMORY_BYTES);
}

#[test]
fn limits_become_ticks_and_fuel() {
    assert_eq!(deadline_ticks(Some(0)), 1);
    assert_eq!(deadline_ticks(Some(10)), 1);
    assert_eq!(deadline_ticks(Some(11)), 2);
    assert_eq!(deadline_ticks(Some(500)), 50);
    assert_eq!(deadline_ticks(None), u64::MAX / 2);
    assert_eq!(fuel_of(Some(9)), 9);
    assert_eq!(fuel_of(None), u64::MAX);
}

#[test]
fn bytecode_is_base64_on_the_output() {
    assert_eq!(trim_trailing_whitespace(b" aGk= \r\n\0"), b" aGk=".to_vec());
    assert_eq!(decode_bytecode(b"aGk=\n", "bytecode b64 decode").unwrap(), b"hi".to_vec());
    match decode_bytecode(b"!", "bytecode b64 decode") {
        Err(AfterburnerError::CompileFailed(text)) => {
            assert!(text.starts_with("bytecode b64 decode: "), "{text}");
            assert!(text.len() > "bytecode b64 decode: ".len(), "{text}");
        }
        _ => panic!("that is no base64"),
    }
}

#[test]
fn traps_tell_what_the_script_wrote() {
    assert_eq!(format_trap_with_stderr("trap", b""), "trap");
    let told = format_trap_with_stderr("trap", b"TypeError: x\n");
    assert!(told.starts_with("trap") && told.contains("TypeError: x"), "{told}");
    let long = vec![b'e'; STDERR_DIAGNOSIS_CAP * 2];
    let cut = format_trap_with_stderr("trap", &long);
    assert!(cut.len() < STDERR_DIAGNOSIS_CAP * 2);
    match compile_failure("compile", "boom", b"SyntaxError") {
        AfterburnerError::CompileFailed(text) => assert!(text.contains("SyntaxError"), "{text}"),
        other => panic!("{other:?}"),
    }
}

#[test]
fn failures_of_scripts_are_told_apart() {
    assert!(thrust_failure(&GuestTrap::Exit(0), b"").is_none());
    match thrust_failure(&GuestTrap::Exit(2), b"").unwrap() {
        AfterburnerError::WasmTrap(text) => {
            assert_eq!(text, "script exited with non-zero code 2")
        }
        other => panic!("{other:?}"),
    }
    assert!(matches!(
        thrust_failure(&GuestTrap::Interrupt, b""),
        Some(AfterburnerError::Timeout)
    ));
    assert!(matches!(
        thrust_failure(&GuestTrap::OutOfFuel, b""),
        Some(AfterburnerError::FuelExhausted)
    ));
    let chain = GuestTrap::Chain(vec!["a".into(), "memory minimum size too large".into()]);
    assert!(matches!(thrust_failure(&chain, b""), Some(AfterburnerError::MemoryLimit)));
    match thrust_failure(&GuestTrap::Chain(vec!["a".into(), "b".into()]), b"").unwrap() {
        AfterburnerError::WasmTrap(text) => assert_eq!(text, "a => b"),
        other => panic!("{other:?}"),
    }
}

#[test]
fn output_at_its_capacity_was_cut_off() {
    assert_eq!(checked_output(vec![1, 2], 3).unwrap(), vec![1, 2]);
    assert!(matches!(
        checked_output(vec![1, 2, 3], 3),
        Err(AfterburnerError::OutputTooLarge(3))
    ));
}

#[test]
fn runs_end_with_output_or_with_an_error() {
    assert_eq!(thrust_outcome(&None, b"{}".to_vec(), b"", 10).unwrap(), b"{}".to_vec());
    let left = Some(GuestTrap::Exit(0));
    assert_eq!(thrust_outcome(&left, b"{}".to_vec(), b"", 10).unwrap(), b"{}".to_vec());
    assert!(matches!(
        thrust_outcome(&Some(GuestTrap::Interrupt), vec![], b"", 10),
        Err(AfterburnerError::Timeout)
    ));
    assert!(matches!(
        thrust_outcome(&None, vec![0; 10], b"", 10),
        Err(AfterburnerError::OutputTooLarge(10))
    ));
    assert_eq!(columnar_outcome(&left, b"", Some(vec![3])).unwrap(), vec![3]);
    assert!(matches!(
        columnar_outcome(&Some(GuestTrap::OutOfFuel), b"", Some(vec![3])),
        Err(AfterburnerError::FuelExhausted)
    ));
    assert!(matches!(columnar_outcome(&None, b"", None), Err(AfterburnerError::Engine(_))));
}

#[test]
fn missing_columnar_reply_is_an_error() {
    assert_eq!(columnar_reply(Some(vec![1])).unwrap(), vec![1]);
    match columnar_reply(None) {
        Err(AfterburnerError::Engine(text)) => assert!(text.starts_with("columnar-invoke: ")),
        _ => panic!("nothing was replied"),
    }
}

#[test]
fn scripts_end_with_a_code() {
    let done = script_outcome(&None, b"o".to_vec(), b"e".to_vec()).unwrap();
    assert_eq!((done.exit_code, done.stdout, done.stderr), (0, b"o".to_vec(), b"e".to_vec()));
    let exit = script_outcome(&Some(GuestTrap::Exit(4)), vec![], vec![]).unwrap();
    assert_eq!(exit.exit_code, 4);
    assert!(matches!(
        script_outcome(&Some(GuestTrap::Interrupt), vec![], vec![]),
        Err(AfterburnerError::Timeout)
    ));
    let thrown = map_script_trap(b"o".to_vec(), b"TypeError".to_vec()).unwrap();
    assert_eq!((thrown.exit_code, thrown.stderr), (1, b"TypeError".to_vec()));
    match map_script_trap(vec![], b"compile_src (script): SyntaxError".to_vec()) {
        Err(AfterburnerError::CompileFailed(text)) => {
            assert_eq!(text, "compile_src (script): SyntaxError")
        }
        _ => panic!("the script did not compile"),
    }
}

#[test]
fn hashes_are_shown_in_short() {
    let mut hash = [0u8; 32];
    hash[0] = 0xab;
    hash[3] = 0x01;
    assert_eq!(hex8(&hash), "ab00000100000000");
}
