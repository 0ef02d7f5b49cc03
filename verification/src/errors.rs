use vstd::prelude::*;

verus! {

/// The remote operation whose call failed.
#[derive(Clone, Copy, Debug, PartialEq, Eq, Structural)]
pub enum RemoteOp {
    Encrypt,
    Decrypt,
    Upload,
    Download,
}

/// The integrity gate that observed a mismatch.
#[derive(Clone, Copy, Debug, PartialEq, Eq, Structural)]
pub enum IntegrityKind {
    /// The decrypted bytes did not equal the original seed.
    DecryptMismatch,
    /// The downloaded bytes did not equal the uploaded ciphertext.
    DownloadMismatch,
}

/// Everything that can stop a run: a bad invocation, a failed remote call,
/// or a round trip that did not return the original bytes.
#[derive(Clone, Copy, Debug, PartialEq, Eq, Structural)]
pub enum RunError {
    /// The caller did not pass exactly the two expected arguments.
    Usage,
    /// A remote call failed; the workflow aborts without retrying.
    Remote(RemoteOp),
    /// A verification gate failed: the data that came back is not the data
    /// that went in.
    Integrity(IntegrityKind),
}

} // verus!
