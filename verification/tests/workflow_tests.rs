use seed_vault::args::RunConfig;
use seed_vault::errors::{IntegrityKind, RemoteOp, RunError};
use seed_vault::fake_kms::FakeKms;
use seed_vault::fake_store::FakeStore;
use seed_vault::seed::Seed;
use seed_vault::workflow::{object_name, run_with_fakes, Action, Phase, Workflow};

const KEY: &str = "projects/p/locations/global/keyRings/r/cryptoKeys/k";
const BUCKET: &str = "test-bucket";

fn config() -> RunConfig {
    RunConfig::new(KEY.to_string(), BUCKET.to_string())
}

#[test]
fn full_round_trip_scenario() {
    let kms = FakeKms::new(KEY.to_string());
    let mut store = FakeStore::new();
    let mut w = Workflow::new(config());
    assert_eq!(w.current_phase(), Phase::Start);

    let seed = Seed::generate();
    let seed_bytes = seed.bytes().clone();
    assert_eq!(seed_bytes.len(), 32);
    assert_eq!(w.seed_generated(seed), Action::Encrypt);

    let ciphertext = kms.encrypt(w.key_name(), w.seed().bytes()).unwrap();
    assert_ne!(ciphertext, seed_bytes);
    assert_eq!(w.encrypt_result(Some(ciphertext.clone())), Action::Decrypt);

    let plaintext = kms.decrypt(w.key_name(), w.ciphertext()).unwrap();
    assert_eq!(plaintext, seed_bytes);
    assert_eq!(w.decrypt_result(Some(plaintext)), Action::Upload);
    assert_eq!(w.current_phase(), Phase::DecryptedAndVerified);

    store.put(
        w.bucket_name().clone(),
        object_name().to_owned(),
        w.ciphertext().clone(),
    );
    assert_eq!(w.upload_result(true), Action::Download);

    let downloaded = store.get(w.bucket_name(), &object_name().to_owned()).unwrap();
    assert_eq!(downloaded, ciphertext);
    assert_eq!(w.download_result(Some(downloaded)), Action::Verify);

    assert_eq!(w.verify_round_trip(), Action::Finish);
    w.finish();
    assert_eq!(w.current_phase(), Phase::Done);
}

#[test]
fn decrypt_failure_aborts_before_any_upload() {
    let kms = FakeKms::new(KEY.to_string());
    let store = FakeStore::new();
    let mut w = Workflow::new(config());

    w.seed_generated(Seed::generate());
    let ciphertext = kms.encrypt(w.key_name(), w.seed().bytes()).unwrap();
    w.encrypt_result(Some(ciphertext));

    let action = w.decrypt_result(None);
    assert_eq!(action, Action::Abort(RunError::Remote(RemoteOp::Decrypt)));
    assert_eq!(w.current_phase(), Phase::Aborted);

    // The sequential design never reached the upload step: the store still
    // holds nothing under the fixed object name.
    assert_eq!(
        store.get(&BUCKET.to_string(), &object_name().to_owned()),
        None
    );
}

#[test]
fn decrypt_mismatch_is_an_integrity_error() {
    let kms = FakeKms::new(KEY.to_string());
    let mut w = Workflow::new(config());
    w.seed_generated(Seed::generate());
    let ciphertext = kms.encrypt(w.key_name(), w.seed().bytes()).unwrap();
    w.encrypt_result(Some(ciphertext));

    let action = w.decrypt_result(Some(vec![0u8; 32]));
    assert_eq!(
        action,
        Action::Abort(RunError::Integrity(IntegrityKind::DecryptMismatch))
    );
    assert_eq!(w.current_phase(), Phase::Aborted);
}

#[test]
fn encrypt_failure_aborts() {
    let mut w = Workflow::new(config());
    w.seed_generated(Seed::generate());
    let action = w.encrypt_result(None);
    assert_eq!(action, Action::Abort(RunError::Remote(RemoteOp::Encrypt)));
    assert_eq!(w.current_phase(), Phase::Aborted);
}

#[test]
fn upload_failure_aborts() {
    let kms = FakeKms::new(KEY.to_string());
    let mut w = Workflow::new(config());
    w.seed_generated(Seed::generate());
    let ciphertext = kms.encrypt(w.key_name(), w.seed().bytes()).unwrap();
    w.encrypt_result(Some(ciphertext));
    let plaintext = kms.decrypt(w.key_name(), w.ciphertext()).unwrap();
    w.decrypt_result(Some(plaintext));

    let action = w.upload_result(false);
    assert_eq!(action, Action::Abort(RunError::Remote(RemoteOp::Upload)));
    assert_eq!(w.current_phase(), Phase::Aborted);
}

#[test]
fn download_failure_aborts() {
    let kms = FakeKms::new(KEY.to_string());
    let mut w = Workflow::new(config());
    w.seed_generated(Seed::generate());
    let ciphertext = kms.encrypt(w.key_name(), w.seed().bytes()).unwrap();
    w.encrypt_result(Some(ciphertext));
    let plaintext = kms.decrypt(w.key_name(), w.ciphertext()).unwrap();
    w.decrypt_result(Some(plaintext));
    w.upload_result(true);

    let action = w.download_result(None);
    assert_eq!(action, Action::Abort(RunError::Remote(RemoteOp::Download)));
    assert_eq!(w.current_phase(), Phase::Aborted);
}

#[test]
fn download_mismatch_is_an_integrity_error() {
    let kms = FakeKms::new(KEY.to_string());
    let mut w = Workflow::new(config());
    w.seed_generated(Seed::generate());
    let ciphertext = kms.encrypt(w.key_name(), w.seed().bytes()).unwrap();
    w.encrypt_result(Some(ciphertext));
    let plaintext = kms.decrypt(w.key_name(), w.ciphertext()).unwrap();
    w.decrypt_result(Some(plaintext));
    w.upload_result(true);

    w.download_result(Some(vec![1u8, 2, 3]));
    let action = w.verify_round_trip();
    assert_eq!(
        action,
        Action::Abort(RunError::Integrity(IntegrityKind::DownloadMismatch))
    );
    assert_eq!(w.current_phase(), Phase::Aborted);
}

#[test]
fn run_with_fakes_completes_and_stores_ciphertext() {
    let kms = FakeKms::new(KEY.to_string());
    let mut store = FakeStore::new();
    let seed = Seed::from_bytes(vec![42u8; 32]).unwrap();
    let expected_ciphertext = kms
        .encrypt(&KEY.to_string(), &vec![42u8; 32])
        .unwrap();

    let r = run_with_fakes(config(), seed, &kms, &mut store);
    assert_eq!(r, Ok(()));
    assert_eq!(
        store.get(&BUCKET.to_string(), &object_name().to_owned()),
        Some(expected_ciphertext)
    );
}

#[test]
fn run_with_fakes_rejected_key_leaves_store_untouched() {
    let kms = FakeKms::new("projects/p/locations/global/keyRings/r/cryptoKeys/other".to_string());
    let mut store = FakeStore::new();
    let seed = Seed::from_bytes(vec![42u8; 32]).unwrap();

    let r = run_with_fakes(config(), seed, &kms, &mut store);
    assert_eq!(r, Err(RunError::Remote(RemoteOp::Encrypt)));
    assert_eq!(
        store.get(&BUCKET.to_string(), &object_name().to_owned()),
        None
    );
}
