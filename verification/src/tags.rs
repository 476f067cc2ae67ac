//! The record tags that the decoders read.

use vstd::prelude::*;

verus! {

/// Signature blob that later requests of a login flow send back.
pub const T104: u16 = 0x104;

/// Captcha: signature and image.
pub const T105: u16 = 0x105;

/// Encrypted account information.
pub const T119: u16 = 0x119;

/// Error title and message, after a 4-byte lead.
pub const T146: u16 = 0x146;

/// Signature blob stored for the SMS flow.
pub const T147: u16 = 0x147;

/// Error title and message, after a 2-byte lead.
pub const T149: u16 = 0x149;

/// Blob that a successful login may carry.
pub const T150: u16 = 0x150;

/// Nested records that a successful login may carry.
pub const T161: u16 = 0x161;

/// Marks a captcha.
pub const T165: u16 = 0x165;

/// Rollback signature, inside the nested records of a successful login.
pub const T172: u16 = 0x172;

/// Marks the SMS flow.
pub const T174: u16 = 0x174;

/// Phone number of the SMS flow, behind a 4-byte length.
pub const T178: u16 = 0x178;

/// Marks an SMS flow without details.
pub const T17B: u16 = 0x17b;

/// Message of the SMS flow.
pub const T17E: u16 = 0x17e;

/// Slider verification URL.
pub const T192: u16 = 0x192;

/// Device verification URL.
pub const T204: u16 = 0x204;

/// Display token payload.
pub const T402: u16 = 0x402;

/// Random seed.
pub const T403: u16 = 0x403;

/// Session keys inside the account information.
pub const T10A: u16 = 0x10a;

pub const T10D: u16 = 0x10d;

pub const T10E: u16 = 0x10e;

pub const T120: u16 = 0x120;

pub const T143: u16 = 0x143;

pub const T305: u16 = 0x305;

/// Profile inside the account information.
pub const T11A: u16 = 0x11a;

/// QR login: the image.
pub const T17: u16 = 0x17;

/// QR login: temporary password.
pub const T18: u16 = 0x18;

/// QR login: temporary signature.
pub const T19: u16 = 0x19;

/// QR login: the device's new root secret.
pub const T1E: u16 = 0x1e;

/// QR login: temporary ticket.
pub const T65: u16 = 0x65;

} // verus!
