//! The error type shared by all decoders.

use vstd::prelude::*;

verus! {

/// The stage of decoding at which a frame was rejected.
#[derive(Clone, Copy, Debug, PartialEq, Eq, Structural)]
pub enum Phase {
    /// Fixed header and tag-length-value region of a login-family frame.
    LoginHeader,
    /// Login outcome: success.
    LoginSuccess,
    /// Login outcome: slider or captcha verification.
    Verification,
    /// Login outcome: SMS or device verification.
    Sms,
    /// Login outcome: device lock.
    DeviceLock,
    /// Login outcome: an error reported by the server.
    OtherError,
    /// Decryption and parsing of the encrypted account information.
    KeyDerivation,
    /// Fixed preamble of a QR-login frame.
    QrHeader,
    /// QR-login: image fetch.
    QrImage,
    /// QR-login: status poll.
    QrPoll,
    /// QR-login: confirmation.
    QrConfirm,
    /// Credential-exchange frame.
    Exchange,
    /// Group system-message frame.
    SystemMessage,
}

/// The part of a frame that is missing or malformed.
#[derive(Clone, Copy, Debug, PartialEq, Eq, Structural)]
pub enum Field {
    /// The fixed-layout bytes of the frame, or the frame as a whole.
    Frame,
    /// The region of tag-length-value records.
    Records,
    /// The record with this tag: absent, or present with a malformed payload.
    Tag(u16),
    /// The root secret handed to key derivation.
    RootSecret,
    /// The encrypted payload handed to key derivation.
    Ciphertext,
}

/// Why a frame could not be decoded.
#[derive(Clone, Copy, Debug, PartialEq, Eq, Structural)]
pub enum RQError {
    /// The frame is structurally invalid or incomplete.
    Decode { phase: Phase, field: Field },
    /// The outcome code and tags match none of the known outcomes.
    Protocol { code: u8 },
}

/// Shorthand for a decode error.
pub open spec fn decode_error(phase: Phase, field: Field) -> RQError {
    RQError::Decode { phase, field }
}

} // verus!
