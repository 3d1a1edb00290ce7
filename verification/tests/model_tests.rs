use crypto_benchmark::error::{
    decapsulation_outcome, encapsulation_outcome, key_generation_outcome, signing_outcome,
    verification_outcome,
};
use crypto_benchmark::measurement::summarize;
use crypto_benchmark::models::{BenchmarkMetric, BenchmarkReport, ExtraInfo};
use crypto_benchmark::report::ReportCache;
use crypto_benchmark::text::{bit_count, byte_count, decimal, same_bytes, same_text};
use crypto_benchmark::{growth, BenchmarkError};

#[test]
fn error_messages_name_the_failure() {
    let cases = vec![
        (BenchmarkError::KeyGeneration("RSA: too few primes".to_string()),
         "Key generation failed: RSA: too few primes"),
        (BenchmarkError::SignatureOperation("a".to_string()), "Signature operation failed: a"),
        (BenchmarkError::VerificationFailed("b".to_string()), "Verification failed: b"),
        (BenchmarkError::EncapsulationFailed("c".to_string()), "Encapsulation failed: c"),
        (BenchmarkError::DecapsulationFailed("d".to_string()), "Decapsulation failed: d"),
        (BenchmarkError::MeasurementError("e".to_string()), "Measurement error: e"),
        (BenchmarkError::InvalidConfiguration("".to_string()), "Invalid configuration: "),
    ];
    for (error, expected) in cases {
        assert_eq!(error.message(), expected);
    }
}

#[test]
fn outcomes_keep_success_and_name_failure() {
    let fine: Result<u8, ()> = Ok(7);
    let bad: Result<u8, ()> = Err(());
    assert!(matches!(key_generation_outcome(fine, "x"), Ok(7)));
    assert!(matches!(signing_outcome(fine, "x"), Ok(7)));
    assert!(matches!(verification_outcome(fine, "x"), Ok(7)));
    assert!(matches!(encapsulation_outcome(fine, "x"), Ok(7)));
    assert!(matches!(decapsulation_outcome(fine, "x"), Ok(7)));
    match key_generation_outcome(bad, "no key") {
        Err(BenchmarkError::KeyGeneration(detail)) => assert_eq!(detail, "no key"),
        other => panic!("unexpected {:?}", other),
    }
    match signing_outcome(bad, "no signature") {
        Err(BenchmarkError::SignatureOperation(detail)) => assert_eq!(detail, "no signature"),
        other => panic!("unexpected {:?}", other),
    }
    match verification_outcome(bad, "refused") {
        Err(BenchmarkError::VerificationFailed(detail)) => assert_eq!(detail, "refused"),
        other => panic!("unexpected {:?}", other),
    }
    match encapsulation_outcome(bad, "not sealed") {
        Err(BenchmarkError::EncapsulationFailed(detail)) => assert_eq!(detail, "not sealed"),
        other => panic!("unexpected {:?}", other),
    }
    match decapsulation_outcome(bad, "not opened") {
        Err(BenchmarkError::DecapsulationFailed(detail)) => assert_eq!(detail, "not opened"),
        other => panic!("unexpected {:?}", other),
    }
}

#[test]
fn numbers_are_written_in_base_ten() {
    assert_eq!(decimal(0), "0");
    assert_eq!(decimal(7), "7");
    assert_eq!(decimal(10), "10");
    assert_eq!(decimal(2048), "2048");
    assert_eq!(decimal(1_234_567_890), "1234567890");
    assert_eq!(decimal(u64::MAX), "18446744073709551615");
    assert_eq!(byte_count(64), "64 bytes");
    assert_eq!(bit_count(2048), "2048 bits");
}

#[test]
fn texts_and_bytes_compare_by_content() {
    assert!(same_bytes(b"", b""));
    assert!(same_bytes(b"abc", b"abc"));
    assert!(!same_bytes(b"abc", b"abd"));
    assert!(!same_bytes(b"abc", b"ab"));
    assert!(!same_bytes(b"", b"a"));
    assert!(same_text("Key Size", "Key Size"));
    assert!(!same_text("Key Size", "Key size"));
    assert!(!same_text("Key Size", "Key Size "));
    assert!(same_text("größe", "größe"));
}

#[test]
fn extra_info_keeps_one_value_per_key() {
    let mut info = ExtraInfo::new();
    assert_eq!(info.len(), 0);
    assert!(info.get("Key Size").is_none());
    info.insert("Key Size".to_string(), "32 bytes".to_string());
    info.insert("Signature Size".to_string(), "64 bytes".to_string());
    assert_eq!(info.len(), 2);
    assert_eq!(info.get("Key Size").unwrap(), "32 bytes");
    assert_eq!(info.get("Signature Size").unwrap(), "64 bytes");
    assert!(info.get("Ciphertext Size").is_none());
    info.insert("Key Size".to_string(), "2048 bits".to_string());
    assert_eq!(info.len(), 2);
    assert_eq!(info.get("Key Size").unwrap(), "2048 bits");
    assert_eq!(info.get("Signature Size").unwrap(), "64 bytes");
    let listed: Vec<(String, String)> = info.entries().clone();
    assert_eq!(
        listed,
        vec![
            ("Key Size".to_string(), "2048 bits".to_string()),
            ("Signature Size".to_string(), "64 bytes".to_string()),
        ]
    );
}

#[test]
fn metric_reports_whole_microseconds() {
    let summary = summarize(&vec![1_999, 4_001, 30_500]).unwrap();
    let metric = BenchmarkMetric::from_result("Ed25519", "Sign", &summary);
    assert_eq!(metric.name, "Ed25519");
    assert_eq!(metric.operation, "Sign");
    assert_eq!(metric.mean_micros, 12);
    assert_eq!(metric.min_micros, 1);
    assert_eq!(metric.max_micros, 30);
    assert_eq!(metric.std_dev_micros, summary.std_deviation);
    assert_eq!(metric.iterations, 3);
    assert_eq!(metric.extra_info.len(), 0);
    let metric = metric
        .with_info("Key Size", "32 bytes".to_string())
        .with_info("Signature Size", "64 bytes".to_string())
        .with_info("Key Size", "256 bits".to_string());
    assert_eq!(metric.mean_micros, 12);
    assert_eq!(metric.iterations, 3);
    assert_eq!(metric.extra_info.len(), 2);
    assert_eq!(metric.extra_info.get("Key Size").unwrap(), "256 bits");
    let mut facts = ExtraInfo::new();
    facts.insert("Ciphertext Size".to_string(), "768 bytes".to_string());
    let metric = metric.with_facts(facts);
    assert_eq!(metric.name, "Ed25519");
    assert_eq!(metric.extra_info.len(), 1);
    assert!(metric.extra_info.get("Key Size").is_none());
    assert_eq!(metric.extra_info.get("Ciphertext Size").unwrap(), "768 bytes");
}

fn report_taking(total_time_micros: u128) -> BenchmarkReport {
    let summary = summarize(&vec![total_time_micros as u64 * 1000]).unwrap();
    BenchmarkReport {
        signatures: vec![BenchmarkMetric::from_result("Ed25519", "Sign", &summary)],
        kem: vec![BenchmarkMetric::from_result("X25519", "Key Exchange", &summary)],
        keygen_time_micros: 0,
        total_time_micros,
    }
}

fn is_whole(report: &BenchmarkReport) -> bool {
    report.signatures.len() == 1
        && report.kem.len() == 1
        && report.signatures[0].mean_micros as u128 == report.total_time_micros
        && report.kem[0].mean_micros as u128 == report.total_time_micros
}

#[test]
fn cache_holds_the_report_stored_last() {
    let mut cache = ReportCache::new();
    assert!(cache.latest().is_none());
    cache.store(report_taking(1));
    assert_eq!(cache.latest().unwrap().total_time_micros, 1);
    cache.store(report_taking(2));
    cache.store(report_taking(3));
    let held = cache.latest().unwrap();
    assert_eq!(held.total_time_micros, 3);
    assert!(is_whole(held));
}

#[test]
fn failed_pass_leaves_the_cache_as_it_was() {
    let mut cache = ReportCache::new();
    let failure = cache.commit(Err(BenchmarkError::VerificationFailed("refused".to_string())));
    assert!(matches!(failure, Some(BenchmarkError::VerificationFailed(_))));
    assert!(cache.latest().is_none());
    assert!(cache.commit(Ok(report_taking(4))).is_none());
    assert_eq!(cache.latest().unwrap().total_time_micros, 4);
    let failure = cache.commit(Err(BenchmarkError::MeasurementError("too long".to_string())));
    match failure {
        Some(BenchmarkError::MeasurementError(detail)) => assert_eq!(detail, "too long"),
        other => panic!("unexpected {:?}", other),
    }
    let held = cache.latest().unwrap();
    assert_eq!(held.total_time_micros, 4);
    assert!(is_whole(held));
}

#[test]
fn concurrent_passes_leave_a_whole_report() {
    let cache = std::sync::Arc::new(std::sync::Mutex::new(ReportCache::new()));
    cache.lock().unwrap().store(report_taking(1));
    let runtime = tokio::runtime::Builder::new_multi_thread().worker_threads(3).build().unwrap();
    runtime.block_on(async {
        let mut passes = Vec::new();
        for id in [2u128, 3u128] {
            let slot = cache.clone();
            passes.push(tokio::task::spawn_blocking(move || {
                let report = report_taking(id);
                let answer = (report.total_time_micros, is_whole(&report));
                slot.lock().unwrap().store(report);
                answer
            }));
        }
        let slot = cache.clone();
        let reader = tokio::task::spawn_blocking(move || {
            let guard = slot.lock().unwrap();
            let held = guard.latest().expect("a report was stored before");
            (held.total_time_micros, is_whole(held))
        });
        let mut answered = Vec::new();
        for pass in passes {
            let (id, whole) = pass.await.unwrap();
            assert!(whole);
            answered.push(id);
        }
        answered.sort();
        assert_eq!(answered, vec![2, 3]);
        let (seen, whole) = reader.await.unwrap();
        assert!(whole);
        assert!(seen == 1 || seen == 2 || seen == 3);
    });
    let guard = cache.lock().unwrap();
    let held = guard.latest().unwrap();
    assert!(is_whole(held));
    assert!(held.total_time_micros == 2 || held.total_time_micros == 3);
}

#[test]
fn growth_never_goes_below_zero() {
    assert_eq!(growth(10, 25), 15);
    assert_eq!(growth(25, 10), 0);
    assert_eq!(growth(7, 7), 0);
    assert_eq!(growth(0, u64::MAX), u64::MAX);
    assert_eq!(growth(u64::MAX, 0), 0);
}
