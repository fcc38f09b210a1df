use basm_rust_sdk::entrypoint::{run_entrypoint, AbortStage, EntryOutcome};
use basm_rust_sdk::example::{hello_world, InputJson, OutputJson, SecretJson};
use basm_rust_sdk::io::Context;
use basm_rust_sdk::memory::{leak_to_shared_memory, FatPointer, SharedMemory};
use serde_json::Value;

fn input_de(s: &str) -> Result<InputJson, String> {
    let v: Value = serde_json::from_str(s).map_err(|e| e.to_string())?;
    match v["data"].as_str() {
        Some(d) => Ok(InputJson { data: d.to_string() }),
        None => Err("missing data".to_string()),
    }
}

fn secret_de(s: &str) -> Result<SecretJson, String> {
    let v: Value = serde_json::from_str(s).map_err(|e| e.to_string())?;
    match v["password"].as_str() {
        Some(p) => Ok(SecretJson { password: p.to_string() }),
        None => Err("missing password".to_string()),
    }
}

fn output_ser(o: &OutputJson) -> Result<String, String> {
    Ok(format!("{{\"error\":{},\"data\":{}}}", serde_json::to_string(&o.error).unwrap(), o.data))
}

fn setup(input: &[u8], secret: &[u8]) -> (SharedMemory, FatPointer, FatPointer) {
    let mut mem = SharedMemory::new();
    let i = leak_to_shared_memory(&mut mem, input);
    let s = leak_to_shared_memory(&mut mem, secret);
    (mem, i, s)
}

#[test]
fn adapter_returns_serialized_output() {
    let (mut mem, i, s) = setup(br#"{"data":"x"}"#, br#"{"password":"p"}"#);
    let mut seen = None;
    let r = run_entrypoint(&mut mem, i, s, input_de, secret_de, output_ser, |ctx: Context<InputJson, SecretJson>| {
        seen = Some((ctx.input.data.clone(), ctx.secrets.password.clone()));
        OutputJson { error: String::new(), data: 7 }
    });
    assert_eq!(seen, Some(("x".to_string(), "p".to_string())));
    match r {
        EntryOutcome::Returned(p) => assert_eq!(p.copy_data(&mem), br#"{"error":"","data":7}"#.to_vec()),
        _ => panic!("aborted"),
    }
}

fn expect_abort(r: EntryOutcome, stage: AbortStage, mem: &SharedMemory, message: &str) {
    match r {
        EntryOutcome::Aborted { stage: s, report: Some(p) } => {
            assert_eq!(s, stage);
            assert_eq!(p.copy_data(mem), format!("{}\n", message).into_bytes());
            assert_eq!(p.offset() as usize + p.size() as usize, mem.len());
        }
        _ => panic!("expected an abort with a report"),
    }
}

#[test]
fn adapter_aborts_on_invalid_utf8_input() {
    let (mut mem, i, s) = setup(&[0x7b, 0xff, 0xfe, 0x7d], br#"{"password":"p"}"#);
    let before = mem.len();
    let mut called = false;
    let r = run_entrypoint(&mut mem, i, s, input_de, secret_de, output_ser, |_ctx: Context<InputJson, SecretJson>| {
        called = true;
        OutputJson { error: String::new(), data: 1 }
    });
    assert!(!called);
    let msg = "input is not valid UTF-8";
    assert_eq!(mem.len(), before + msg.len() + 1);
    expect_abort(r, AbortStage::InputText, &mem, msg);
}

#[test]
fn adapter_aborts_on_invalid_utf8_secret() {
    let (mut mem, i, s) = setup(br#"{"data":"x"}"#, &[0xc3]);
    let r = run_entrypoint(&mut mem, i, s, input_de, secret_de, output_ser, |_c: Context<InputJson, SecretJson>| OutputJson { error: String::new(), data: 1 });
    expect_abort(r, AbortStage::SecretText, &mem, "secrets are not valid UTF-8");
}

#[test]
fn adapter_aborts_on_pointer_out_of_bounds() {
    let (mut mem, _i, s) = setup(b"{}", b"{}");
    let r = run_entrypoint(&mut mem, FatPointer::new(2, 100), s, input_de, secret_de, output_ser, |_c: Context<InputJson, SecretJson>| OutputJson { error: String::new(), data: 1 });
    expect_abort(r, AbortStage::InputPointer, &mem, "input pointer is out of bounds");
    let (mut mem, i, _s) = setup(b"{}", b"{}");
    let r = run_entrypoint(&mut mem, i, FatPointer::new(100, 0), input_de, secret_de, output_ser, |_c: Context<InputJson, SecretJson>| OutputJson { error: String::new(), data: 1 });
    expect_abort(r, AbortStage::SecretPointer, &mem, "secret pointer is out of bounds");
}

#[test]
fn adapter_aborts_on_secret_decoding() {
    let (mut mem, i, s) = setup(br#"{"data":"x"}"#, br#"{"pw":"p"}"#);
    let r = run_entrypoint(&mut mem, i, s, input_de, secret_de, output_ser, |_c: Context<InputJson, SecretJson>| OutputJson { error: String::new(), data: 1 });
    expect_abort(r, AbortStage::SecretDecoding, &mem, "Failed to deserialize secrets: missing password");
}

#[test]
fn adapter_aborts_on_input_decoding() {
    let (mut mem, i, s) = setup(br#"{"value":1}"#, br#"{"password":"p"}"#);
    let r = run_entrypoint(&mut mem, i, s, input_de, secret_de, output_ser, |_c: Context<InputJson, SecretJson>| OutputJson { error: String::new(), data: 1 });
    expect_abort(r, AbortStage::InputDecoding, &mem, "Failed to deserialize input: missing data");
}

#[test]
fn adapter_aborts_on_output_encoding() {
    let (mut mem, i, s) = setup(br#"{"data":"x"}"#, br#"{"password":"p"}"#);
    let r = run_entrypoint(
        &mut mem,
        i,
        s,
        input_de,
        secret_de,
        |_o: &OutputJson| Err::<String, String>("no encoding".to_string()),
        |_c: Context<InputJson, SecretJson>| OutputJson { error: String::new(), data: 1 },
    );
    expect_abort(r, AbortStage::OutputEncoding, &mem, "Failed to serialize output: no encoding");
}

#[test]
fn hello_world_returns_random_number() {
    let ctx = Context { input: "x".to_string(), secrets: SecretJson { password: "p".to_string() } };
    let out = hello_world(ctx, 7);
    assert_eq!(out.error, "");
    assert_eq!(out.data, 7);
}
