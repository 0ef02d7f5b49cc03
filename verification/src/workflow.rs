use vstd::prelude::*;

use crate::args::RunConfig;
use crate::bytes::{bytes_equal, copy_bytes};
use crate::errors::{IntegrityKind, RemoteOp, RunError};
use crate::fake_kms::{lemma_kms_round_trip, FakeKms};
use crate::fake_store::FakeStore;
use crate::seed::Seed;

verus! {

/// The fixed object name the ciphertext is stored under within the target
/// bucket. Every run overwrites the previous run's object.
pub open spec fn spec_object_name() -> Seq<char> {
    "seed.bin"@
}

/// The fixed object name, for handing to a storage gateway.
pub fn object_name() -> (r: &'static str)
    ensures
        r@ == spec_object_name(),
{
    "seed.bin"
}

/// The milestones of one run, in the order they are reached. Any step's
/// failure moves directly to `Aborted`; there is no retry and no resume.
#[derive(Clone, Copy, Debug, PartialEq, Eq, Structural)]
pub enum Phase {
    Start,
    SeedGenerated,
    Encrypted,
    DecryptedAndVerified,
    Uploaded,
    Downloaded,
    VerifiedRoundTrip,
    Done,
    Aborted,
}

/// What the caller driving the workflow must do next. The workflow itself
/// never performs a remote call; it only decides.
#[derive(Clone, Copy, Debug, PartialEq, Eq, Structural)]
pub enum Action {
    /// Encrypt the seed bytes under the key reference.
    Encrypt,
    /// Decrypt the ciphertext under the key reference, as a sanity check.
    Decrypt,
    /// Store the ciphertext under the fixed object name in the bucket.
    Upload,
    /// Retrieve the object just stored.
    Download,
    /// Compare the downloaded bytes against the uploaded ciphertext.
    Verify,
    /// The round trip is complete; the run may end successfully.
    Finish,
    /// The run failed; stop at once with this error.
    Abort(RunError),
}

/// True of every phase a seed has been generated in.
pub open spec fn phase_has_seed(p: Phase) -> bool {
    match p {
        Phase::Start | Phase::Aborted => false,
        _ => true,
    }
}

/// True of every phase a ciphertext is held in.
pub open spec fn phase_has_ciphertext(p: Phase) -> bool {
    match p {
        Phase::Start | Phase::SeedGenerated | Phase::Aborted => false,
        _ => true,
    }
}

/// The sequential workflow of one run: generate a seed, encrypt it, decrypt
/// the ciphertext and check it equals the seed, upload the ciphertext,
/// download it again and check it equals what was uploaded. The workflow
/// holds the decisions and the two integrity gates; the remote calls are
/// performed by whoever drives it, who reports each outcome back.
pub struct Workflow {
    key_name: String,
    bucket_name: String,
    phase: Phase,
    seed: Option<Seed>,
    ciphertext: Option<Vec<u8>>,
    downloaded: Option<Vec<u8>>,
    failure: Option<RunError>,
}

impl Workflow {
    /// The milestone reached so far.
    pub closed spec fn phase(&self) -> Phase {
        self.phase
    }

    /// The caller-supplied key reference.
    pub closed spec fn key(&self) -> Seq<char> {
        self.key_name@
    }

    /// The caller-supplied bucket reference.
    pub closed spec fn bucket(&self) -> Seq<char> {
        self.bucket_name@
    }

    /// The bytes of the seed this run protects.
    pub closed spec fn seed_bytes(&self) -> Seq<u8> {
        match self.seed {
            Some(s) => s@,
            None => Seq::empty(),
        }
    }

    /// The bytes the encryption step returned.
    pub closed spec fn ciphertext_bytes(&self) -> Seq<u8> {
        match self.ciphertext {
            Some(c) => c@,
            None => Seq::empty(),
        }
    }

    /// The bytes the download step returned.
    pub closed spec fn downloaded_bytes(&self) -> Seq<u8> {
        match self.downloaded {
            Some(d) => d@,
            None => Seq::empty(),
        }
    }

    /// Why the run aborted, if it did.
    pub closed spec fn failure(&self) -> Option<RunError> {
        self.failure
    }

    /// Well-formedness: each phase holds the data its successors read, and
    /// exactly the aborted phase carries an error.
    pub closed spec fn inv(&self) -> bool {
        &&& phase_has_seed(self.phase) ==> (self.seed matches Some(s) && s.wf())
        &&& phase_has_ciphertext(self.phase) ==> self.ciphertext is Some
        &&& (self.phase is Downloaded || self.phase is VerifiedRoundTrip || self.phase is Done)
            ==> self.downloaded is Some
        &&& self.phase is Aborted <==> self.failure is Some
    }

    /// A fresh workflow for the given key and bucket; nothing has happened
    /// yet, and the first thing to do is to generate a seed.
    pub fn new(cfg: RunConfig) -> (w: Workflow)
        ensures
            w.inv(),
            w.phase() is Start,
            w.key() == cfg.key_name@,
            w.bucket() == cfg.bucket_name@,
    {
        Workflow {
            key_name: cfg.key_name,
            bucket_name: cfg.bucket_name,
            phase: Phase::Start,
            seed: None,
            ciphertext: None,
            downloaded: None,
            failure: None,
        }
    }

    /// Records the freshly generated seed. The next step is to encrypt it.
    pub fn seed_generated(&mut self, seed: Seed) -> (a: Action)
        requires
            old(self).inv(),
            old(self).phase() is Start,
            seed.wf(),
        ensures
            final(self).inv(),
            final(self).phase() is SeedGenerated,
            final(self).seed_bytes() == seed@,
            final(self).key() == old(self).key(),
            final(self).bucket() == old(self).bucket(),
            a == Action::Encrypt,
    {
        self.seed = Some(seed);
        self.phase = Phase::SeedGenerated;
        Action::Encrypt
    }

    /// Records the outcome of the encryption call: the ciphertext when it
    /// succeeded, nothing when it failed. On success the next step is the
    /// decryption sanity check; on failure the run aborts.
    pub fn encrypt_result(&mut self, ciphertext: Option<Vec<u8>>) -> (a: Action)
        requires
            old(self).inv(),
            old(self).phase() is SeedGenerated,
        ensures
            final(self).inv(),
            final(self).key() == old(self).key(),
            final(self).bucket() == old(self).bucket(),
            final(self).seed_bytes() == old(self).seed_bytes(),
            ciphertext matches Some(c) ==> (final(self).phase() is Encrypted
                && final(self).ciphertext_bytes() == c@ && a == Action::Decrypt),
            ciphertext is None ==> (final(self).phase() is Aborted && final(self).failure()
                == Some(RunError::Remote(RemoteOp::Encrypt)) && a == Action::Abort(
                RunError::Remote(RemoteOp::Encrypt),
            )),
    {
        match ciphertext {
            Some(c) => {
                self.ciphertext = Some(c);
                self.phase = Phase::Encrypted;
                Action::Decrypt
            },
            None => {
                self.phase = Phase::Aborted;
                self.failure = Some(RunError::Remote(RemoteOp::Encrypt));
                Action::Abort(RunError::Remote(RemoteOp::Encrypt))
            },
        }
    }

    /// Records the outcome of the decryption sanity check and applies the
    /// first integrity gate: the decrypted bytes must equal the seed. A
    /// failed call aborts as a remote error; a mismatch aborts as an
    /// integrity error; only an exact match lets the upload proceed.
    pub fn decrypt_result(&mut self, plaintext: Option<Vec<u8>>) -> (a: Action)
        requires
            old(self).inv(),
            old(self).phase() is Encrypted,
        ensures
            final(self).inv(),
            final(self).key() == old(self).key(),
            final(self).bucket() == old(self).bucket(),
            final(self).seed_bytes() == old(self).seed_bytes(),
            final(self).ciphertext_bytes() == old(self).ciphertext_bytes(),
            plaintext matches Some(p) && p@ == old(self).seed_bytes() ==> (final(self).phase()
                is DecryptedAndVerified && a == Action::Upload),
            plaintext matches Some(p) && p@ != old(self).seed_bytes() ==> (final(self).phase()
                is Aborted && final(self).failure() == Some(
                RunError::Integrity(IntegrityKind::DecryptMismatch),
            ) && a == Action::Abort(RunError::Integrity(IntegrityKind::DecryptMismatch))),
            plaintext is None ==> (final(self).phase() is Aborted && final(self).failure() == Some(
                RunError::Remote(RemoteOp::Decrypt),
            ) && a == Action::Abort(RunError::Remote(RemoteOp::Decrypt))),
    {
        match plaintext {
            Some(p) => {
                let matches_seed = match &self.seed {
                    Some(s) => bytes_equal(&p, s.bytes()),
                    None => false,
                };
                if matches_seed {
                    self.phase = Phase::DecryptedAndVerified;
                    Action::Upload
                } else {
                    self.phase = Phase::Aborted;
                    self.failure = Some(RunError::Integrity(IntegrityKind::DecryptMismatch));
                    Action::Abort(RunError::Integrity(IntegrityKind::DecryptMismatch))
                }
            },
            None => {
                self.phase = Phase::Aborted;
                self.failure = Some(RunError::Remote(RemoteOp::Decrypt));
                Action::Abort(RunError::Remote(RemoteOp::Decrypt))
            },
        }
    }

    /// Records the outcome of the upload call. On success the next step is
    /// to download the object again; on failure the run aborts.
    pub fn upload_result(&mut self, uploaded: bool) -> (a: Action)
        requires
            old(self).inv(),
            old(self).phase() is DecryptedAndVerified,
        ensures
            final(self).inv(),
            final(self).key() == old(self).key(),
            final(self).bucket() == old(self).bucket(),
            final(self).seed_bytes() == old(self).seed_bytes(),
            final(self).ciphertext_bytes() == old(self).ciphertext_bytes(),
            uploaded ==> (final(self).phase() is Uploaded && a == Action::Download),
            !uploaded ==> (final(self).phase() is Aborted && final(self).failure() == Some(
                RunError::Remote(RemoteOp::Upload),
            ) && a == Action::Abort(RunError::Remote(RemoteOp::Upload))),
    {
        if uploaded {
            self.phase = Phase::Uploaded;
            Action::Download
        } else {
            self.phase = Phase::Aborted;
            self.failure = Some(RunError::Remote(RemoteOp::Upload));
            Action::Abort(RunError::Remote(RemoteOp::Upload))
        }
    }

    /// Records the outcome of the download call: the object's bytes when it
    /// succeeded, nothing when it failed or the object was missing. On
    /// success the next step is the round-trip verification.
    pub fn download_result(&mut self, data: Option<Vec<u8>>) -> (a: Action)
        requires
            old(self).inv(),
            old(self).phase() is Uploaded,
        ensures
            final(self).inv(),
            final(self).key() == old(self).key(),
            final(self).bucket() == old(self).bucket(),
            final(self).seed_bytes() == old(self).seed_bytes(),
            final(self).ciphertext_bytes() == old(self).ciphertext_bytes(),
            data matches Some(d) ==> (final(self).phase() is Downloaded
                && final(self).downloaded_bytes() == d@ && a == Action::Verify),
            data is None ==> (final(self).phase() is Aborted && final(self).failure() == Some(
                RunError::Remote(RemoteOp::Download),
            ) && a == Action::Abort(RunError::Remote(RemoteOp::Download))),
    {
        match data {
            Some(d) => {
                self.downloaded = Some(d);
                self.phase = Phase::Downloaded;
                Action::Verify
            },
            None => {
                self.phase = Phase::Aborted;
                self.failure = Some(RunError::Remote(RemoteOp::Download));
                Action::Abort(RunError::Remote(RemoteOp::Download))
            },
        }
    }

    /// Applies the second integrity gate: the downloaded bytes must equal
    /// the uploaded ciphertext byte for byte. A mismatch aborts as an
    /// integrity error, distinct from any remote failure.
    pub fn verify_round_trip(&mut self) -> (a: Action)
        requires
            old(self).inv(),
            old(self).phase() is Downloaded,
        ensures
            final(self).inv(),
            final(self).key() == old(self).key(),
            final(self).bucket() == old(self).bucket(),
            final(self).seed_bytes() == old(self).seed_bytes(),
            final(self).ciphertext_bytes() == old(self).ciphertext_bytes(),
            old(self).downloaded_bytes() == old(self).ciphertext_bytes() ==> (final(self).phase()
                is VerifiedRoundTrip && a == Action::Finish),
            old(self).downloaded_bytes() != old(self).ciphertext_bytes() ==> (final(self).phase()
                is Aborted && final(self).failure() == Some(
                RunError::Integrity(IntegrityKind::DownloadMismatch),
            ) && a == Action::Abort(RunError::Integrity(IntegrityKind::DownloadMismatch))),
    {
        let matches_ciphertext = match (&self.downloaded, &self.ciphertext) {
            (Some(d), Some(c)) => bytes_equal(d, c),
            _ => false,
        };
        if matches_ciphertext {
            self.phase = Phase::VerifiedRoundTrip;
            Action::Finish
        } else {
            self.phase = Phase::Aborted;
            self.failure = Some(RunError::Integrity(IntegrityKind::DownloadMismatch));
            Action::Abort(RunError::Integrity(IntegrityKind::DownloadMismatch))
        }
    }

    /// Closes a fully verified run.
    pub fn finish(&mut self)
        requires
            old(self).inv(),
            old(self).phase() is VerifiedRoundTrip,
        ensures
            final(self).inv(),
            final(self).phase() is Done,
    {
        self.phase = Phase::Done;
    }

    /// The milestone reached so far, for the caller driving the run.
    pub fn current_phase(&self) -> (p: Phase)
        ensures
            p == self.phase(),
    {
        self.phase
    }

    /// The key reference, for handing to a key-management gateway.
    pub fn key_name(&self) -> (r: &String)
        ensures
            r@ == self.key(),
    {
        &self.key_name
    }

    /// The bucket reference, for handing to a storage gateway.
    pub fn bucket_name(&self) -> (r: &String)
        ensures
            r@ == self.bucket(),
    {
        &self.bucket_name
    }

    /// The seed, for handing its bytes to the encryption call.
    pub fn seed(&self) -> (r: &Seed)
        requires
            self.inv(),
            phase_has_seed(self.phase()),
        ensures
            r@ == self.seed_bytes(),
    {
        match &self.seed {
            Some(s) => s,
            None => vstd::pervasive::unreached(),
        }
    }

    /// The ciphertext, for handing to the decryption and upload calls.
    pub fn ciphertext(&self) -> (r: &Vec<u8>)
        requires
            self.inv(),
            phase_has_ciphertext(self.phase()),
        ensures
            r@ == self.ciphertext_bytes(),
    {
        match &self.ciphertext {
            Some(c) => c,
            None => vstd::pervasive::unreached(),
        }
    }
}

/// Runs the complete workflow against the in-memory gateways. With the
/// matching key the run always succeeds, and the store afterwards holds the
/// seed's ciphertext under the fixed object name in the bucket; with any
/// other key the encryption call is rejected, the run aborts, and the store
/// is untouched.
pub fn run_with_fakes(cfg: RunConfig, seed: Seed, kms: &FakeKms, store: &mut FakeStore) -> (r:
    Result<(), RunError>)
    requires
        seed.wf(),
    ensures
        cfg.key_name@ == kms.key() ==> (r == Ok::<(), RunError>(()) && final(store)@ == old(
            store,
        )@.insert(
            (cfg.bucket_name@, spec_object_name()),
            crate::fake_kms::fake_encrypt_spec(seed@),
        )),
        cfg.key_name@ != kms.key() ==> (r == Err::<(), RunError>(RunError::Remote(RemoteOp::Encrypt))
            && final(store)@ == old(store)@),
{
    let ghost seed_view = seed@;
    let mut w = Workflow::new(cfg);
    w.seed_generated(seed);

    let encrypted = kms.encrypt(w.key_name(), w.seed().bytes());
    match encrypted {
        Ok(c) => {
            w.encrypt_result(Some(c));
        },
        Err(e) => {
            w.encrypt_result(None);
            return Err(e);
        },
    }

    proof {
        lemma_kms_round_trip(seed_view);
    }
    let decrypted = kms.decrypt(w.key_name(), w.ciphertext());
    match decrypted {
        Ok(p) => {
            w.decrypt_result(Some(p));
        },
        Err(e) => {
            w.decrypt_result(None);
            return Err(e);
        },
    }

    let payload = copy_bytes(w.ciphertext());
    store.put(w.bucket_name().clone(), object_name().to_owned(), payload);
    w.upload_result(true);

    let fetched = store.get(w.bucket_name(), &object_name().to_owned());
    w.download_result(fetched);
    w.verify_round_trip();
    w.finish();
    Ok(())
}

} // verus!
