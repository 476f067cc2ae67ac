//! Authentication and message-codec core of an instant-messaging client.
//!
//! The crate decodes the binary frames of the login, QR-login, credential
//! exchange and group system-message command families, and converts between
//! the wire's message segments and a smaller semantic element model. Nothing
//! here performs I/O: every decoder takes one whole payload and the session
//! records it may update, and returns an outcome or a typed error.
//!
//! Each decoder comes with a specification function that says, from the
//! bytes of a frame alone, what the frame yields and what the session holds
//! afterwards; the decoder is proved to return exactly that and to store
//! exactly that. What a frame hands over before its outcome is decided, the
//! display token of a login frame and the account number of a QR
//! confirmation, is kept also where the outcome is an error.
//!
//! - `binary`, `tlv`: the byte cursor and the tag-length-value records.
//! - `tea`, `keys`: the cipher and the derivation of session keys.
//! - `login`, `qr`, `exchange`, `flow`: the decoders of the login flows and
//!   the step that follows each outcome.
//! - `wire`, `elem`, `faces`: message segments, message elements and the
//!   codec between them.
//! - `sysmsg`: group system messages.
//! - `session`, `error`, `tags`: the records, the error and the tags that
//!   the decoders share.
//! - `crypto`, `buffer`: the digest and the shared buffers, which other
//!   crates provide.

pub mod binary;
pub mod buffer;
pub mod crypto;
pub mod elem;
pub mod error;
pub mod exchange;
pub mod faces;
pub mod flow;
pub mod keys;
pub mod login;
pub mod qr;
pub mod session;
pub mod sysmsg;
pub mod tags;
pub mod tea;
pub mod tlv;
pub mod wire;
