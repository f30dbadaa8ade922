use aes_bench::report::{decimal, seconds};
use aes_bench::runner::{RunKind, RunReport};

fn report(kind: RunKind, iterations: u32, elapsed_millis: u128, total_len: u128) -> RunReport {
    RunReport { kind, iterations, elapsed_millis, total_len }
}

#[test]
fn cbc_line_reads_as_it_should() {
    assert_eq!(
        report(RunKind::Cbc, 10, 1234, 480).line(),
        "AES128 CBC run 10 times took 1.234 seconds. total_len dummy value is 480"
    );
}

#[test]
fn gcm_line_reads_as_it_should() {
    assert_eq!(
        report(RunKind::Gcm, 10, 2000, 530).line(),
        "AES128 GSM run 10 times took 2 seconds. total_len dummy value is 530"
    );
}

#[test]
fn gcm_reuse_line_reads_as_it_should() {
    assert_eq!(
        report(RunKind::GcmReuse, 10_000_000, 950, 510_000_000).line(),
        "AES128 GSM with reusable encryptor run 10000000 times took 0.95 seconds. total_len dummy value is 510000000"
    );
}

#[test]
fn line_of_nothing_measured() {
    assert_eq!(
        report(RunKind::Cbc, 0, 0, 0).line(),
        "AES128 CBC run 0 times took 0 seconds. total_len dummy value is 0"
    );
}

#[test]
fn line_is_one_line_and_holds_the_count() {
    for kind in [RunKind::Cbc, RunKind::Gcm, RunKind::GcmReuse] {
        for n in [1u32, 7, 10, 4096, 10_000_000, u32::MAX] {
            let line = report(kind, n, 31_007, n as u128 * 48).line();
            assert!(!line.contains('\n'));
            assert!(!line.contains('\r'));
            assert!(line.contains(&format!(" run {} times took ", n)));
            assert!(line.ends_with(&format!(" is {}", n as u128 * 48)));
            assert_eq!(line.matches(&n.to_string()).count() >= 1, true);
        }
    }
}

#[test]
fn labels_name_the_configurations() {
    assert_eq!(RunKind::Cbc.label(), "AES128 CBC");
    assert_eq!(RunKind::Gcm.label(), "AES128 GSM");
    assert_eq!(RunKind::GcmReuse.label(), "AES128 GSM with reusable encryptor");
}

#[test]
fn seconds_are_milliseconds_by_a_thousand() {
    assert_eq!(seconds(0), "0");
    assert_eq!(seconds(1), "0.001");
    assert_eq!(seconds(10), "0.01");
    assert_eq!(seconds(100), "0.1");
    assert_eq!(seconds(999), "0.999");
    assert_eq!(seconds(1000), "1");
    assert_eq!(seconds(1001), "1.001");
    assert_eq!(seconds(1010), "1.01");
    assert_eq!(seconds(1100), "1.1");
    assert_eq!(seconds(1500), "1.5");
    assert_eq!(seconds(12_345), "12.345");
    assert_eq!(seconds(60_000), "60");
    assert_eq!(seconds(3_600_050), "3600.05");
}

#[test]
fn seconds_read_as_the_quotient_does() {
    let mut samples: Vec<u128> = (0..3000).collect();
    samples.extend([9_999, 10_000, 65_535, 99_990, 123_456, 1_000_000, 86_400_000, 987_654_321]);
    samples.extend((0..200u128).map(|i| i * 7_919 + 13));
    for millis in samples {
        let quotient = millis as f64 / 1000.0;
        assert_eq!(seconds(millis), format!("{}", quotient), "{} ms", millis);
    }
}

#[test]
fn seconds_are_never_negative() {
    for millis in [0u128, 1, 999, 1000, u64::MAX as u128, u128::MAX] {
        let text = seconds(millis);
        assert!(!text.starts_with('-'));
        assert!(text.chars().all(|c| c.is_ascii_digit() || c == '.'));
    }
}

#[test]
fn decimal_writes_the_number() {
    assert_eq!(decimal(0), "0");
    assert_eq!(decimal(9), "9");
    assert_eq!(decimal(10), "10");
    assert_eq!(decimal(480), "480");
    assert_eq!(decimal(10_000_000), "10000000");
    assert_eq!(decimal(u128::MAX), u128::MAX.to_string());
    for n in 0..2000u128 {
        assert_eq!(decimal(n), n.to_string());
        assert_eq!(decimal(n).parse::<u128>(), Ok(n));
    }
}
