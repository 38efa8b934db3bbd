use valida_verifier::config::{config_eq, init_config};
use valida_verifier::conclude_verification;
use valida_verifier::decoder::decode_proof;
use valida_verifier::loader::load_executable;
use valida_verifier::machine::{init_machine, DEFAULT_STACK_HEIGHT};
use valida_verifier::prepare_verification;
use valida_verifier::VerifyError;

/// Lays out an executable buffer: magic, entry point, word counts, then
/// the code and data words, all little-endian.
fn image_bytes(entry: u32, code: &[u32], data: &[u32]) -> Vec<u8> {
    let mut bytes = vec![0x56u8, 0x4c, 0x44, 0x41];
    bytes.extend_from_slice(&entry.to_le_bytes());
    bytes.extend_from_slice(&(code.len() as u32).to_le_bytes());
    bytes.extend_from_slice(&(data.len() as u32).to_le_bytes());
    for w in code {
        bytes.extend_from_slice(&w.to_le_bytes());
    }
    for w in data {
        bytes.extend_from_slice(&w.to_le_bytes());
    }
    bytes
}

#[test]
fn load_parses_every_field() {
    let bytes = image_bytes(1, &[10, 20, 30], &[7, 0xdeadbeef]);
    let img = load_executable(&bytes).unwrap();
    assert_eq!(img.entry_point, 1);
    assert_eq!(img.code, vec![10, 20, 30]);
    assert_eq!(img.data, vec![7, 0xdeadbeef]);
}

#[test]
fn load_is_deterministic() {
    let bytes = image_bytes(0, &[5, 6], &[]);
    let first = load_executable(&bytes).unwrap();
    let second = load_executable(&bytes).unwrap();
    assert_eq!(first, second);
}

#[test]
fn load_rejects_short_header() {
    let bytes = vec![0x56u8, 0x4c, 0x44];
    assert_eq!(load_executable(&bytes), Err(VerifyError::MalformedExecutable));
}

#[test]
fn load_rejects_bad_magic() {
    let mut bytes = image_bytes(0, &[1], &[]);
    bytes[0] = 0x57;
    assert_eq!(load_executable(&bytes), Err(VerifyError::MalformedExecutable));
}

#[test]
fn load_rejects_truncated_section() {
    let mut bytes = image_bytes(0, &[1, 2, 3], &[4]);
    bytes.pop();
    assert_eq!(load_executable(&bytes), Err(VerifyError::MalformedExecutable));
}

#[test]
fn load_rejects_trailing_bytes() {
    let mut bytes = image_bytes(0, &[1, 2], &[]);
    bytes.push(0);
    assert_eq!(load_executable(&bytes), Err(VerifyError::MalformedExecutable));
}

#[test]
fn load_rejects_entry_point_outside_code() {
    let bytes = image_bytes(3, &[1, 2, 3], &[]);
    assert_eq!(load_executable(&bytes), Err(VerifyError::MalformedExecutable));
}

#[test]
fn load_rejects_empty_code() {
    let bytes = image_bytes(0, &[], &[9]);
    assert_eq!(load_executable(&bytes), Err(VerifyError::MalformedExecutable));
}

#[test]
fn config_is_pure() {
    let first = init_config();
    let second = init_config();
    assert_eq!(first, second);
    assert!(config_eq(&first, &second));
}

#[test]
fn config_has_the_fixed_parameters() {
    let config = init_config();
    assert_eq!(config.field_order, 2013265921);
    assert_eq!(config.extension_degree, 5);
    assert_eq!(config.perm_width, 16);
    assert_eq!(config.perm_alpha, 5);
    assert_eq!(config.perm_half_full_rounds, 4);
    assert_eq!(config.perm_partial_rounds, 22);
    assert_eq!(config.compression_arity, 2);
    assert_eq!(config.digest_words, 8);
    assert_eq!(config.log_blowup, 1);
    assert_eq!(config.num_queries, 40);
    assert_eq!(config.proof_of_work_bits, 8);
}

#[test]
fn config_round_constants_are_drawn_from_the_seed() {
    let config = init_config();
    assert_eq!(config.round_constants.len(), 480);
    assert!(config.round_constants.iter().all(|&c| c < 2013265921));
    // A broken draw would hand back a degenerate stream; the seeded
    // generator yields a spread of distinct values.
    let first = config.round_constants[0];
    assert!(config.round_constants.iter().any(|&c| c != first));
    assert!(config.round_constants.iter().any(|&c| c != 0));
}

#[test]
fn machine_uses_default_stack_height() {
    let bytes = image_bytes(1, &[10, 20], &[3]);
    let machine = init_machine(&bytes, None, None).unwrap();
    assert_eq!(machine.registers.fp, DEFAULT_STACK_HEIGHT);
    assert_eq!(machine.registers.fp, 16777216);
    assert_eq!(machine.registers.pc, 1);
    assert_eq!(machine.program, vec![10, 20]);
    assert_eq!(machine.memory, vec![3]);
    assert_eq!(machine.advice, None);
    assert_eq!(machine.initial_registers, machine.registers);
}

#[test]
fn machine_uses_supplied_stack_height() {
    let bytes = image_bytes(0, &[10], &[]);
    let machine = init_machine(&bytes, Some(4096), Some(String::from("tape"))).unwrap();
    assert_eq!(machine.registers.fp, 4096);
    assert_eq!(machine.advice, Some(String::from("tape")));
    assert_eq!(machine.initial_registers, machine.registers);
}

#[test]
fn machine_rejects_malformed_executable() {
    let mut bytes = image_bytes(0, &[10], &[]);
    bytes.pop();
    let res = init_machine(&bytes, None, None);
    assert!(matches!(res, Err(VerifyError::MalformedExecutable)));
}

#[test]
fn decode_accepts_wellformed_proof_bytes() {
    // One encoded unsigned integer.
    let proof = decode_proof(&vec![0x00]).unwrap();
    assert!(matches!(proof.value, ciborium::Value::Integer(_)));
    // A two-element array.
    let proof = decode_proof(&vec![0x82, 0x01, 0x02]).unwrap();
    assert!(matches!(proof.value, ciborium::Value::Array(_)));
}

#[test]
fn decode_round_trips_a_serialized_value() {
    let value = ciborium::Value::Array(vec![
        ciborium::Value::from(40u64),
        ciborium::Value::Text(String::from("query")),
    ]);
    let mut bytes: Vec<u8> = Vec::new();
    ciborium::into_writer(&value, &mut bytes).unwrap();
    let proof = decode_proof(&bytes).unwrap();
    assert_eq!(proof.value, value);
}

#[test]
fn decode_rejects_malformed_proof_bytes() {
    let res = decode_proof(&vec![0xa1]);
    assert!(matches!(res, Err(VerifyError::ProofDecodeError)));
    let res = decode_proof(&Vec::new());
    assert!(matches!(res, Err(VerifyError::ProofDecodeError)));
}

#[test]
fn prepare_builds_the_whole_context() {
    let exec = image_bytes(0, &[1, 2, 3], &[9]);
    let proof_bytes = vec![0x82, 0x01, 0x02];
    let ctx = prepare_verification(&proof_bytes, &exec, Some(512), None).unwrap();
    assert_eq!(ctx.machine.registers.fp, 512);
    assert_eq!(ctx.machine.registers.pc, 0);
    assert_eq!(ctx.machine.program, vec![1, 2, 3]);
    assert_eq!(ctx.config, init_config());
}

#[test]
fn prepare_reports_the_executable_before_the_proof() {
    // Both inputs are malformed; the loader runs first, so its error is
    // the one reported.
    let exec = image_bytes(9, &[1], &[]);
    let res = prepare_verification(&vec![0xa1], &exec, None, None);
    assert!(matches!(res, Err(VerifyError::MalformedExecutable)));
}

#[test]
fn prepare_reports_a_malformed_proof() {
    let exec = image_bytes(0, &[1], &[]);
    let res = prepare_verification(&vec![0xa1], &exec, None, None);
    assert!(matches!(res, Err(VerifyError::ProofDecodeError)));
}

#[test]
fn conclude_maps_the_external_outcomes() {
    assert_eq!(conclude_verification(true, true), Err(VerifyError::ExecutionFault));
    assert_eq!(conclude_verification(true, false), Err(VerifyError::ExecutionFault));
    assert_eq!(conclude_verification(false, true), Ok(()));
    assert_eq!(
        conclude_verification(false, false),
        Err(VerifyError::VerificationRejected)
    );
}
