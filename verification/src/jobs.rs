//! The request/response data model shared by the dispatcher and its clients:
//! a closed, tagged set of job kinds, the matching success responses, and the
//! error taxonomy. Ghost mirrors of the two enums give the contracts a
//! mathematical view of a job's payloads.
use vstd::prelude::*;

verus! {

/// The error taxonomy surfaced to clients as `Response::Error`.
#[derive(Clone, Copy, Debug, PartialEq, Eq, Structural)]
pub enum ErrorKind {
    /// A key whose length is not the cipher suite's exact key size.
    InvalidKeySize,
    /// A nonce whose length is not the suite's exact nonce size.
    InvalidIvSize,
    /// A ciphertext too short to contain an authentication tag.
    InvalidBufferSize,
    /// Authentication-tag verification failed; no plaintext is exposed.
    DecryptionFailed,
    /// An unexpected internal failure of the encryption primitive.
    EncryptionFailed,
    /// The pool could not satisfy a buffer request, or a payload exceeds
    /// its configured maximum.
    AllocationFailed,
}

/// Failure of a channel's outbound half; fatal to the current dispatch,
/// since the response backing store is released before the send retries.
#[derive(Clone, Copy, Debug, PartialEq, Eq, Structural)]
pub enum ChannelError {
    /// The channel's outbound capacity is exhausted.
    QueueFull,
}

/// A job request. Each kind carries a bounded-size payload; requests whose
/// payload exceeds the configured maximum are answered with
/// `ErrorKind::AllocationFailed`, never dropped.
pub enum Request {
    /// Request `size` bytes of cryptographically secure randomness.
    GetRandom { size: usize },
    /// Authenticated encryption; the cipher suite is selected by the key length.
    Encrypt { key: Vec<u8>, nonce: Vec<u8>, aad: Vec<u8>, plaintext: Vec<u8> },
    /// Authenticated decryption of `ciphertext || tag`.
    Decrypt { key: Vec<u8>, nonce: Vec<u8>, aad: Vec<u8>, ciphertext: Vec<u8> },
}

/// A job response: exactly one per request, mirroring the request kind on
/// success or carrying an `ErrorKind` on failure.
pub enum Response {
    /// The requested random bytes.
    GetRandom { data: Vec<u8> },
    /// The produced `ciphertext || tag`.
    Encrypt { ciphertext: Vec<u8> },
    /// The recovered plaintext.
    Decrypt { plaintext: Vec<u8> },
    /// The job failed; the kind says why.
    Error(ErrorKind),
}

/// Mathematical view of a `Request`.
pub ghost enum ReqModel {
    GetRandom { size: nat },
    Encrypt { key: Seq<u8>, nonce: Seq<u8>, aad: Seq<u8>, plaintext: Seq<u8> },
    Decrypt { key: Seq<u8>, nonce: Seq<u8>, aad: Seq<u8>, ciphertext: Seq<u8> },
}

/// Mathematical view of a `Response`.
pub ghost enum RespModel {
    GetRandom { data: Seq<u8> },
    Encrypt { ciphertext: Seq<u8> },
    Decrypt { plaintext: Seq<u8> },
    Error(ErrorKind),
}

impl Request {
    /// The request's mathematical view.
    pub open spec fn model(&self) -> ReqModel {
        match self {
            Request::GetRandom { size } => ReqModel::GetRandom { size: *size as nat },
            Request::Encrypt { key, nonce, aad, plaintext } => ReqModel::Encrypt {
                key: key@,
                nonce: nonce@,
                aad: aad@,
                plaintext: plaintext@,
            },
            Request::Decrypt { key, nonce, aad, ciphertext } => ReqModel::Decrypt {
                key: key@,
                nonce: nonce@,
                aad: aad@,
                ciphertext: ciphertext@,
            },
        }
    }
}

impl Response {
    /// The response's mathematical view.
    pub open spec fn model(&self) -> RespModel {
        match self {
            Response::GetRandom { data } => RespModel::GetRandom { data: data@ },
            Response::Encrypt { ciphertext } => RespModel::Encrypt { ciphertext: ciphertext@ },
            Response::Decrypt { plaintext } => RespModel::Decrypt { plaintext: plaintext@ },
            Response::Error(kind) => RespModel::Error(*kind),
        }
    }
}

} // verus!
