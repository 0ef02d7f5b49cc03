use vstd::prelude::*;

verus! {

/// A seed is exactly this many bytes.
pub const SEED_LEN: usize = 32;

/// The secret a run protects: exactly `SEED_LEN` bytes of random data,
/// immutable after creation, held only in process memory. Only its
/// ciphertext form ever leaves the process.
pub struct Seed {
    bytes: Vec<u8>,
}

impl View for Seed {
    type V = Seq<u8>;

    closed spec fn view(&self) -> Seq<u8> {
        self.bytes@
    }
}

impl Seed {
    /// A seed is well formed exactly when it holds `SEED_LEN` bytes.
    pub open spec fn wf(&self) -> bool {
        self@.len() == SEED_LEN
    }

    /// Wraps caller-supplied bytes as a seed; accepts exactly the vectors
    /// of length `SEED_LEN` and rejects every other length.
    pub fn from_bytes(bytes: Vec<u8>) -> (r: Option<Seed>)
        ensures
            bytes@.len() == SEED_LEN ==> (r matches Some(s) && s@ == bytes@ && s.wf()),
            bytes@.len() != SEED_LEN ==> r is None,
    {
        if bytes.len() == SEED_LEN {
            Some(Seed { bytes })
        } else {
            None
        }
    }

    /// Draws a fresh seed from the cryptographically secure random source.
    /// Nothing relates two draws: only the length is promised.
    pub fn generate() -> (s: Seed)
        ensures
            s.wf(),
    {
        Seed { bytes: random_bytes() }
    }

    /// The seed's bytes, for handing to an encryption gateway.
    pub fn bytes(&self) -> (r: &Vec<u8>)
        ensures
            r@ == self@,
    {
        &self.bytes
    }
}

/// Relies on rand::thread_rng and rand::Rng::gen to fill an array of 32
/// bytes from the thread-local cryptographically secure generator. The
/// result is random: no two calls are related, so only the length is stated.
#[verifier::external_body]
fn random_bytes() -> (r: Vec<u8>)
    ensures
        r@.len() == SEED_LEN,
{
    let mut rng = rand::thread_rng();
    let arr: [u8; 32] = rand::Rng::gen(&mut rng);
    arr.to_vec()
}

} // verus!
