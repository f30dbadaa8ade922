use aes_bench::runner::RunKind;
use aes_bench::suite::{
    default_inputs, run, run_order, BenchInputs, DEFAULT_ITERATIONS, DEFAULT_IV_HEX,
    DEFAULT_KEY_HEX, DEFAULT_MESSAGE,
};

fn small_inputs(iterations: u32) -> BenchInputs {
    let mut inputs = default_inputs();
    inputs.iterations = iterations;
    inputs
}

#[test]
fn default_inputs_are_the_fixed_ones() {
    let inputs = default_inputs();
    assert_eq!(inputs.data, "Benchmarking AES encryption in Rust");
    assert_eq!(inputs.key, (0u8..16).collect::<Vec<u8>>());
    assert_eq!(inputs.iv, (0u8..16).rev().collect::<Vec<u8>>());
    assert_eq!(inputs.iterations, 10_000_000);
}

#[test]
fn default_texts_stand_for_the_inputs() {
    let inputs = default_inputs();
    assert_eq!(hex::decode(DEFAULT_KEY_HEX).unwrap(), inputs.key);
    assert_eq!(hex::decode(DEFAULT_IV_HEX).unwrap(), inputs.iv);
    assert_eq!(DEFAULT_MESSAGE, inputs.data);
    assert_eq!(DEFAULT_ITERATIONS, inputs.iterations);
    assert_eq!(inputs.key.len(), 16);
    assert_eq!(inputs.iv.len(), 16);
}

#[test]
fn runs_come_in_their_order() {
    assert_eq!(run_order(), [RunKind::Cbc, RunKind::Gcm, RunKind::GcmReuse]);
}

#[test]
fn run_gives_each_configuration_its_report() {
    let inputs = small_inputs(10);
    let cbc = run(RunKind::Cbc, &inputs).unwrap();
    assert_eq!((cbc.kind, cbc.iterations, cbc.total_len), (RunKind::Cbc, 10, 480));
    let gcm = run(RunKind::Gcm, &inputs).unwrap();
    assert_eq!((gcm.kind, gcm.iterations, gcm.total_len), (RunKind::Gcm, 10, 510));
    let reuse = run(RunKind::GcmReuse, &inputs).unwrap();
    assert_eq!((reuse.kind, reuse.iterations, reuse.total_len), (RunKind::GcmReuse, 10, 510));
    assert_eq!(inputs, small_inputs(10));
}

#[test]
fn suite_writes_three_lines() {
    let inputs = small_inputs(25);
    let mut lines: Vec<String> = Vec::new();
    for kind in run_order() {
        lines.push(run(kind, &inputs).unwrap().line());
    }
    assert_eq!(lines.len(), 3);
    assert!(lines[0].starts_with("AES128 CBC run 25 times took "));
    assert!(lines[0].ends_with(" seconds. total_len dummy value is 1200"));
    assert!(lines[1].starts_with("AES128 GSM run 25 times took "));
    assert!(lines[1].ends_with(" seconds. total_len dummy value is 1275"));
    assert!(lines[2].starts_with("AES128 GSM with reusable encryptor run 25 times took "));
    assert!(lines[2].ends_with(" seconds. total_len dummy value is 1275"));
}

#[test]
fn more_encryptions_sum_to_more() {
    for kind in run_order() {
        let few = run(kind, &small_inputs(10)).unwrap();
        let many = run(kind, &small_inputs(1000)).unwrap();
        assert_eq!(many.total_len, 100 * few.total_len);
    }
}

#[test]
fn default_inputs_fit_the_ciphers() {
    assert!(default_inputs().fit());
    assert!(small_inputs(0).fit());
}

#[test]
fn key_of_another_length_does_not_fit() {
    for len in [0usize, 1, 15, 17, 24, 32] {
        let mut inputs = small_inputs(3);
        inputs.key = vec![7u8; len];
        assert!(!inputs.fit(), "key of {} bytes", len);
    }
    let mut inputs = small_inputs(3);
    inputs.key = vec![7u8; 16];
    assert!(inputs.fit());
}

#[test]
fn iv_or_nonce_of_another_length_does_not_fit() {
    for len in [0usize, 1, 12, 15, 17, 32] {
        let mut inputs = small_inputs(3);
        inputs.iv = vec![7u8; len];
        assert!(!inputs.fit(), "initialisation vector of {} bytes", len);
    }
    let mut inputs = small_inputs(0);
    inputs.iv = vec![0u8; 12];
    assert!(!inputs.fit());
    inputs.iv = vec![0u8; 16];
    assert!(inputs.fit());
}
