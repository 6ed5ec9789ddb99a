use claudometer::secret_manager::{
    classify_keyring_availability, classify_keyring_value, KeyringReadOutcome, SecretManager,
};
use claudometer::types::{IpcResult, UsageProvider, UsageSnapshot, UsageStatus, CodexUsageSnapshot};

#[test]
fn availability_counts_decoding_and_ambiguity_as_available() {
    assert!(classify_keyring_availability(&KeyringReadOutcome::Value(
        "v".to_string()
    )));
    assert!(classify_keyring_availability(&KeyringReadOutcome::NoEntry));
    assert!(classify_keyring_availability(&KeyringReadOutcome::BadEncoding));
    assert!(classify_keyring_availability(&KeyringReadOutcome::Ambiguous));
    assert!(!classify_keyring_availability(
        &KeyringReadOutcome::NoStorageAccess
    ));
    assert!(!classify_keyring_availability(
        &KeyringReadOutcome::PlatformFailure
    ));
    assert!(!classify_keyring_availability(&KeyringReadOutcome::EntryInvalid));
    assert!(!classify_keyring_availability(&KeyringReadOutcome::Other));
}

#[test]
fn read_classification_distinguishes_absence_from_unavailability() {
    assert_eq!(
        classify_keyring_value(KeyringReadOutcome::Value(" key ".to_string())),
        Ok(Some("key".to_string()))
    );
    assert_eq!(
        classify_keyring_value(KeyringReadOutcome::Value("   ".to_string())),
        Ok(None)
    );
    assert_eq!(classify_keyring_value(KeyringReadOutcome::NoEntry), Ok(None));
    assert_eq!(
        classify_keyring_value(KeyringReadOutcome::NoStorageAccess),
        Err(())
    );
    assert_eq!(
        classify_keyring_value(KeyringReadOutcome::PlatformFailure),
        Err(())
    );
    // Lesser error kinds degrade to absence rather than unavailability.
    assert_eq!(
        classify_keyring_value(KeyringReadOutcome::BadEncoding),
        Ok(None)
    );
}

#[test]
fn in_memory_tier_is_authoritative_and_trimmed() {
    let mut m = SecretManager::new("test_secret");
    m.set_in_memory(Some("  sk-key  ".to_string()));
    assert_eq!(m.get_current(false), Ok(Some("sk-key".to_string())));

    m.set_in_memory(Some("   ".to_string()));
    // A blank value clears the tier; without `remember` nothing else is read.
    assert_eq!(m.get_current(false), Ok(None));

    m.set_in_memory(Some("k2".to_string()));
    m.forget_all().unwrap();
    assert_eq!(m.get_current(false), Ok(None));
}

#[test]
fn ipc_results_carry_code_and_message() {
    let ok: IpcResult<u32> = IpcResult::ok(7);
    let IpcResult::Success { ok: flag, value } = ok else {
        panic!("expected success");
    };
    assert!(flag);
    assert_eq!(value, 7);

    let err: IpcResult<u32> = IpcResult::err("KEYRING", "unavailable");
    let IpcResult::Failure { ok: flag, error } = err else {
        panic!("expected failure");
    };
    assert!(!flag);
    assert_eq!(error.code, "KEYRING");
    assert_eq!(error.message, "unavailable");
}

#[test]
fn snapshot_getters_report_provider_and_status() {
    let snap = UsageSnapshot::Codex {
        snapshot: CodexUsageSnapshot::RateLimited {
            last_updated_at: "2026-01-01T00:00:00Z".to_string(),
            error_message: None,
        },
    };
    assert_eq!(snap.provider(), UsageProvider::Codex);
    assert_eq!(snap.status(), UsageStatus::RateLimited);
    assert_eq!(snap.last_updated_at(), "2026-01-01T00:00:00Z");
}
