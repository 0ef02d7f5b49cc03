use vstd::prelude::*;

use crate::errors::{RemoteOp, RunError};

verus! {

/// Marker the in-memory gateway prepends to every ciphertext, so that a
/// blob that never came from `encrypt` is rejected by `decrypt`.
pub const FAKE_KMS_TAG: u8 = 0xC7;

/// Mask the in-memory gateway applies to every payload byte.
pub const FAKE_KMS_MASK: u8 = 0x5A;

/// Every payload byte with the gateway's mask applied. Applying it twice
/// returns the original bytes.
pub open spec fn mask_bytes(s: Seq<u8>) -> Seq<u8> {
    s.map_values(|b: u8| b ^ FAKE_KMS_MASK)
}

/// What the in-memory gateway's encrypt returns for a payload: the marker
/// byte, then the masked payload.
pub open spec fn fake_encrypt_spec(plain: Seq<u8>) -> Seq<u8> {
    seq![FAKE_KMS_TAG] + mask_bytes(plain)
}

/// What the in-memory gateway's decrypt returns for a blob: the unmasked
/// remainder when the blob starts with the marker byte, nothing otherwise.
pub open spec fn fake_decrypt_spec(blob: Seq<u8>) -> Option<Seq<u8>> {
    if blob.len() >= 1 && blob[0] == FAKE_KMS_TAG {
        Some(mask_bytes(blob.subrange(1, blob.len() as int)))
    } else {
        None
    }
}

/// Masking is an involution on one byte.
proof fn lemma_mask_involution(b: u8, m: u8)
    ensures
        (b ^ m) ^ m == b,
{
    assert((b ^ m) ^ m == b) by (bit_vector);
}

/// Round-trip identity through the key-management gateway: decrypting the
/// encryption of any payload yields exactly that payload.
pub proof fn lemma_kms_round_trip(plain: Seq<u8>)
    ensures
        fake_decrypt_spec(fake_encrypt_spec(plain)) == Some(plain),
{
    let blob = fake_encrypt_spec(plain);
    assert(blob[0] == FAKE_KMS_TAG);
    assert(blob.subrange(1, blob.len() as int) =~= mask_bytes(plain));
    let twice = mask_bytes(mask_bytes(plain));
    assert forall|i: int| 0 <= i < plain.len() implies twice[i] == plain[i] by {
        lemma_mask_involution(plain[i], FAKE_KMS_MASK);
    }
    assert(twice =~= plain);
}

/// A ciphertext is never byte-identical to the payload it encrypts: it is
/// exactly one byte longer.
pub proof fn lemma_ciphertext_differs(plain: Seq<u8>)
    ensures
        fake_encrypt_spec(plain).len() == plain.len() + 1,
        fake_encrypt_spec(plain) != plain,
{
}

/// An in-memory stand-in for the key-management service. It is configured
/// with the one key reference it serves; a call that names any other key is
/// rejected, as the remote service rejects an unknown key resource.
pub struct FakeKms {
    key_name: String,
}

impl FakeKms {
    /// The one key reference this gateway accepts.
    pub closed spec fn key(&self) -> Seq<char> {
        self.key_name@
    }

    /// Configures the gateway with the key reference it will serve.
    pub fn new(key_name: String) -> (k: FakeKms)
        ensures
            k.key() == key_name@,
    {
        FakeKms { key_name }
    }

    /// Encrypts a payload under the named key. Succeeds exactly when the
    /// key matches the configured one, and then returns precisely
    /// `fake_encrypt_spec` of the payload.
    pub fn encrypt(&self, key_name: &String, plaintext: &Vec<u8>) -> (r: Result<Vec<u8>, RunError>)
        ensures
            key_name@ == self.key() ==> (r matches Ok(c) && c@ == fake_encrypt_spec(plaintext@)),
            key_name@ != self.key() ==> r == Err::<Vec<u8>, RunError>(RunError::Remote(
                RemoteOp::Encrypt,
            )),
    {
        if !self.key_name.eq(key_name) {
            return Err(RunError::Remote(RemoteOp::Encrypt));
        }
        let mut out: Vec<u8> = Vec::new();
        out.push(FAKE_KMS_TAG);
        let mut i: usize = 0;
        while i < plaintext.len()
            invariant
                i <= plaintext@.len(),
                out@.len() == i + 1,
                out@[0] == FAKE_KMS_TAG,
                forall|j: int| 0 <= j < i ==> out@[j + 1] == (plaintext@[j] ^ FAKE_KMS_MASK),
            decreases plaintext@.len() - i,
        {
            out.push(plaintext[i] ^ FAKE_KMS_MASK);
            i = i + 1;
        }
        assert(out@ =~= fake_encrypt_spec(plaintext@));
        Ok(out)
    }

    /// Decrypts a blob under the named key. Succeeds exactly when the key
    /// matches and the blob is a well-formed ciphertext, and then returns
    /// precisely `fake_decrypt_spec` of the blob.
    pub fn decrypt(&self, key_name: &String, blob: &Vec<u8>) -> (r: Result<Vec<u8>, RunError>)
        ensures
            key_name@ == self.key() && fake_decrypt_spec(blob@) is Some ==> (r matches Ok(p)
                && Some(p@) == fake_decrypt_spec(blob@)),
            key_name@ == self.key() && fake_decrypt_spec(blob@) is None ==> r == Err::<
                Vec<u8>,
                RunError,
            >(RunError::Remote(RemoteOp::Decrypt)),
            key_name@ != self.key() ==> r == Err::<Vec<u8>, RunError>(RunError::Remote(
                RemoteOp::Decrypt,
            )),
    {
        if !self.key_name.eq(key_name) {
            return Err(RunError::Remote(RemoteOp::Decrypt));
        }
        if blob.len() == 0 {
            return Err(RunError::Remote(RemoteOp::Decrypt));
        }
        if blob[0] != FAKE_KMS_TAG {
            return Err(RunError::Remote(RemoteOp::Decrypt));
        }
        let mut out: Vec<u8> = Vec::new();
        let mut i: usize = 1;
        while i < blob.len()
            invariant
                1 <= i <= blob@.len(),
                out@.len() == i - 1,
                forall|j: int| 0 <= j < i - 1 ==> out@[j] == (blob@[j + 1] ^ FAKE_KMS_MASK),
            decreases blob@.len() - i,
        {
            out.push(blob[i] ^ FAKE_KMS_MASK);
            i = i + 1;
        }
        assert(out@ =~= mask_bytes(blob@.subrange(1, blob@.len() as int)));
        Ok(out)
    }
}

} // verus!
