use vstd::prelude::*;

verus! {

/// What was wrong with an input handed to the client.
#[derive(Debug, Clone, Copy, PartialEq, Eq, Structural)]
pub enum InputFault {
    /// The provisioning URI is not a URI at all.
    UnparsableUri,
    /// The provisioning URI has a scheme other than `jasticket`.
    WrongScheme,
    /// The provisioning URI has no host (the request identifier).
    MissingHost,
    /// The provisioning URI has no query string.
    MissingQuery,
    /// The query string could not be decoded, or lacks a required field.
    InvalidQuery,
    /// The session identifier handed to an approval is empty.
    EmptySessionId,
    /// A retry bound of zero attempts was configured.
    ZeroRetries,
    /// The timestamp cannot be represented as a calendar time.
    InvalidTime,
    /// Registration would yield a ticket with an empty field.
    IncompleteTicket,
}

/// What went wrong in a cryptographic step.
#[derive(Debug, Clone, Copy, PartialEq, Eq, Structural)]
pub enum CryptoFault {
    /// The enrollment bundle is not three dot-separated segments.
    MalformedBundle,
    /// The symmetric key is not 32 bytes long.
    KeyLength,
    /// The nonce segment is not 12 bytes long.
    NonceLength,
    /// AES-256-GCM rejected the ciphertext or its tag.
    Authentication,
    /// No one-time code could be produced from the ticket's TOTP URI.
    Totp,
}

/// The four kinds of failure that a protocol operation can end in.
#[derive(Debug, Clone, PartialEq, Eq)]
pub enum ClientError {
    /// Malformed input; never retried.
    InputFormat(InputFault),
    /// Connection, TLS or timeout failure after the last allowed attempt.
    Transport { message: String },
    /// A response outside 2xx, with the best message the server gave.
    Protocol { path: String, status: u16, message: Option<String> },
    /// A failure of decryption or one-time code generation.
    Crypto(CryptoFault),
}

} // verus!
