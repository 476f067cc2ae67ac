//! The decoder of login responses.
//!
//! A login frame is five bytes of sub-header, one byte of outcome code, two
//! reserved bytes, and records with 2-byte tags. The outcome code and the
//! tags that are present decide the outcome and what is stored in the
//! session for the next request of the flow.

use crate::binary::be16;
use crate::binary::be32;
use crate::binary::opt_bytes;
use crate::binary::put_slice;
use crate::binary::signed32;
use crate::binary::string_from_utf8;
use crate::binary::string_short_at;
use crate::binary::text_at;
use crate::binary::u16_bytes;
use crate::binary::Reader;
use crate::buffer::contents;
use crate::buffer::into_bytes;
use crate::crypto::md5_compute;
use crate::crypto::md5_digest;
use crate::keys::derive_keys;
use crate::keys::derived;
use crate::keys::with_derived;
use crate::keys::Derived;
use crate::keys::DerivedView;
use crate::error::decode_error;
use crate::error::Field;
use crate::error::Phase;
use crate::error::RQError;
use crate::session::DeviceIdentity;
use crate::session::DeviceIdentityView;
use crate::session::SessionCache;
use crate::session::SessionCacheView;
use crate::tags::T104;
use crate::tags::T105;
use crate::tags::T119;
use crate::tags::T146;
use crate::tags::T147;
use crate::tags::T149;
use crate::tags::T150;
use crate::tags::T161;
use crate::tags::T165;
use crate::tags::T172;
use crate::tags::T174;
use crate::tags::T178;
use crate::tags::T17B;
use crate::tags::T17E;
use crate::tags::T192;
use crate::tags::T204;
use crate::tags::T402;
use crate::tags::T403;
use crate::tlv::scan_from;
use crate::tlv::TagWidth;
use crate::tlv::TlvMap;
use bytes::Bytes;
use vstd::prelude::*;
use vstd::slice::slice_to_vec;
use vstd::utf8::decode_utf8;
use vstd::utf8::valid_utf8;

verus! {

/// The length of a login frame's fixed part.
pub const LOGIN_HEADER_LEN: usize = 8;

/// The offset of the outcome code.
pub const LOGIN_CODE_AT: usize = 5;

/// The message of a frozen account.
pub const FROZEN_MESSAGE: &'static str = "账号被冻结";

/// The outcome of one login frame.
#[derive(Debug, PartialEq, Eq)]
pub enum LoginResponse {
    /// Logged in; keys and profile are in the session.
    Success,
    /// A slider has to be solved at `verify_url`.
    SliderNeededError { verify_url: String },
    /// A captcha has to be solved.
    NeedCaptcha { captcha_sign: Bytes, captcha_image: Bytes },
    /// Verification is asked for in a way that is not known.
    UnknownLoginError { error_message: String },
    /// The account is frozen.
    AccountFrozen { error_message: String },
    /// Either an SMS code or a visit of `verify_url` is needed.
    SMSOrVerifyNeededError { verify_url: String, sms_phone: String, error_message: String },
    /// An SMS code is needed.
    SMSNeededError { sms_phone: String, error_message: String },
    /// The device has to be verified at `verify_url`.
    UnsafeDeviceError { verify_url: String },
    /// Too many SMS codes were asked for.
    TooManySMSRequestError,
    /// No outcome yet: the device-lock request has to be sent, and its
    /// answer decoded.
    NeedDeviceLockLogin,
    /// The server reported an error.
    OtherLoginError { error_message: String },
}

pub enum LoginResponseView {
    Success,
    SliderNeededError { verify_url: Seq<char> },
    NeedCaptcha { captcha_sign: Seq<u8>, captcha_image: Seq<u8> },
    UnknownLoginError { error_message: Seq<char> },
    AccountFrozen { error_message: Seq<char> },
    SMSOrVerifyNeededError {
        verify_url: Seq<char>,
        sms_phone: Seq<char>,
        error_message: Seq<char>,
    },
    SMSNeededError { sms_phone: Seq<char>, error_message: Seq<char> },
    UnsafeDeviceError { verify_url: Seq<char> },
    TooManySMSRequestError,
    NeedDeviceLockLogin,
    OtherLoginError { error_message: Seq<char> },
}

impl View for LoginResponse {
    type V = LoginResponseView;

    open spec fn view(&self) -> LoginResponseView {
        match self {
            LoginResponse::Success => LoginResponseView::Success,
            LoginResponse::SliderNeededError { verify_url } => {
                LoginResponseView::SliderNeededError { verify_url: verify_url@ }
            },
            LoginResponse::NeedCaptcha { captcha_sign, captcha_image } => {
                LoginResponseView::NeedCaptcha {
                    captcha_sign: contents(*captcha_sign),
                    captcha_image: contents(*captcha_image),
                }
            },
            LoginResponse::UnknownLoginError { error_message } => {
                LoginResponseView::UnknownLoginError { error_message: error_message@ }
            },
            LoginResponse::AccountFrozen { error_message } => {
                LoginResponseView::AccountFrozen { error_message: error_message@ }
            },
            LoginResponse::SMSOrVerifyNeededError { verify_url, sms_phone, error_message } => {
                LoginResponseView::SMSOrVerifyNeededError {
                    verify_url: verify_url@,
                    sms_phone: sms_phone@,
                    error_message: error_message@,
                }
            },
            LoginResponse::SMSNeededError { sms_phone, error_message } => {
                LoginResponseView::SMSNeededError {
                    sms_phone: sms_phone@,
                    error_message: error_message@,
                }
            },
            LoginResponse::UnsafeDeviceError { verify_url } => {
                LoginResponseView::UnsafeDeviceError { verify_url: verify_url@ }
            },
            LoginResponse::TooManySMSRequestError => LoginResponseView::TooManySMSRequestError,
            LoginResponse::NeedDeviceLockLogin => LoginResponseView::NeedDeviceLockLogin,
            LoginResponse::OtherLoginError { error_message } => {
                LoginResponseView::OtherLoginError { error_message: error_message@ }
            },
        }
    }
}

/// What a frame has the session store, each slot only where the frame fills
/// it.
#[derive(Clone, Debug, PartialEq, Eq)]
pub struct Stores {
    pub t104: Option<Vec<u8>>,
    pub t174: Option<Vec<u8>>,
    pub rand_seed: Option<Vec<u8>>,
    pub t150: Option<Vec<u8>>,
    pub rollback_sig: Option<Vec<u8>>,
    pub derived: Option<Derived>,
}

pub struct StoresView {
    pub t104: Option<Seq<u8>>,
    pub t174: Option<Seq<u8>>,
    pub rand_seed: Option<Seq<u8>>,
    pub t150: Option<Seq<u8>>,
    pub rollback_sig: Option<Seq<u8>>,
    pub derived: Option<DerivedView>,
}

impl View for Stores {
    type V = StoresView;

    open spec fn view(&self) -> StoresView {
        StoresView {
            t104: opt_bytes(self.t104),
            t174: opt_bytes(self.t174),
            rand_seed: opt_bytes(self.rand_seed),
            t150: opt_bytes(self.t150),
            rollback_sig: opt_bytes(self.rollback_sig),
            derived: match self.derived {
                Some(d) => Some(d@),
                None => None,
            },
        }
    }
}

impl StoresView {
    /// Nothing to store.
    pub open spec fn none() -> Self {
        StoresView {
            t104: None,
            t174: None,
            rand_seed: None,
            t150: None,
            rollback_sig: None,
            derived: None,
        }
    }
}

impl Stores {
    /// Nothing to store.
    pub fn none() -> (r: Self)
        ensures
            r@ == StoresView::none(),
    {
        Stores {
            t104: None,
            t174: None,
            rand_seed: None,
            t150: None,
            rollback_sig: None,
            derived: None,
        }
    }
}

/// A decision: the outcome and what to store, or an error.
pub type Decision = Result<(LoginResponseView, StoresView), RQError>;

/// `new` where there is one, else `old`.
pub open spec fn stored(old: Seq<u8>, new: Option<Seq<u8>>) -> Seq<u8> {
    match new {
        Some(b) => b,
        None => old,
    }
}

/// The session `c` after the stores `s`.
pub open spec fn with_stores(c: SessionCacheView, s: StoresView) -> SessionCacheView {
    let c1 = SessionCacheView {
        t104: stored(c.t104, s.t104),
        t174: stored(c.t174, s.t174),
        rand_seed: stored(c.rand_seed, s.rand_seed),
        t150: stored(c.t150, s.t150),
        rollback_sig: stored(c.rollback_sig, s.rollback_sig),
        ..c
    };
    match s.derived {
        Some(d) => with_derived(c1, d),
        None => c1,
    }
}

/// The session `c` after the display token of a frame with records `m` was
/// taken in: where the frame carries the token's record, the session keeps
/// the fresh `token`, the record's payload, and the digest over device
/// identifier, token and payload.
pub open spec fn with_display_token(
    c: SessionCacheView,
    guid: Seq<u8>,
    m: Map<u16, Seq<u8>>,
    token: Seq<u8>,
) -> SessionCacheView {
    if m.contains_key(T402) {
        SessionCacheView {
            dpwd: token,
            t402: m[T402],
            g: md5_digest(guid + token + m[T402]),
            ..c
        }
    } else {
        c
    }
}

/// The text of record `tag`; an error that names the tag where the record is
/// missing or is not valid UTF-8.
pub open spec fn required_text(m: Map<u16, Seq<u8>>, tag: u16, phase: Phase) -> Result<
    Seq<char>,
    RQError,
> {
    if m.contains_key(tag) && valid_utf8(m[tag]) {
        Ok(decode_utf8(m[tag]))
    } else {
        Err(decode_error(phase, Field::Tag(tag)))
    }
}

/// The rollback signature inside the nested records `b`: two bytes that are
/// passed over, then records with 2-byte tags. `None` where `b` is
/// malformed, `Some(None)` where it holds no rollback signature.
pub open spec fn rollback_in(b: Seq<u8>) -> Option<Option<Seq<u8>>> {
    if b.len() < 2 {
        None
    } else {
        match scan_from(b, 2, TagWidth::Two, Map::empty()) {
            None => None,
            Some(n) => Some(
                if n.contains_key(T172) {
                    Some(n[T172])
                } else {
                    None
                },
            ),
        }
    }
}

/// The value of `tag` where `m` has it.
pub open spec fn optional(m: Map<u16, Seq<u8>>, tag: u16) -> Option<Seq<u8>> {
    if m.contains_key(tag) {
        Some(m[tag])
    } else {
        None
    }
}

/// Outcome code 0: success. The encrypted account information is required
/// and is deciphered with the device's root secret.
pub open spec fn success(m: Map<u16, Seq<u8>>, root_secret: Seq<u8>) -> Decision {
    let phase = Phase::LoginSuccess;
    let rollback = if m.contains_key(T161) {
        rollback_in(m[T161])
    } else {
        Some(None)
    };
    if rollback is None {
        Err(decode_error(phase, Field::Tag(T161)))
    } else if !m.contains_key(T119) {
        Err(decode_error(phase, Field::Tag(T119)))
    } else {
        match derived(m[T119], root_secret) {
            Err(e) => Err(e),
            Ok(d) => Ok(
                (
                    LoginResponseView::Success,
                    StoresView {
                        t104: None,
                        t174: None,
                        rand_seed: optional(m, T403),
                        t150: optional(m, T150),
                        rollback_sig: rollback->0,
                        derived: Some(d),
                    },
                ),
            ),
        }
    }
}

/// Signature and image of a captcha record: a 2-byte length, two bytes that
/// are passed over, the signature of that length, and the image.
pub open spec fn captcha_at(b: Seq<u8>) -> Option<(Seq<u8>, Seq<u8>)> {
    if b.len() < 4 || 4 + be16(b, 0) > b.len() {
        None
    } else {
        Some((b.subrange(4, 4 + be16(b, 0)), b.subrange(4 + be16(b, 0), b.len() as int)))
    }
}

/// Outcome code 2: verification. The signature blob is required. The slider
/// URL goes before the captcha; the captcha is announced by one record and
/// read from another.
pub open spec fn verification(m: Map<u16, Seq<u8>>) -> Decision {
    let phase = Phase::Verification;
    let stores = StoresView { t104: optional(m, T104), ..StoresView::none() };
    if !m.contains_key(T104) {
        Err(decode_error(phase, Field::Tag(T104)))
    } else if m.contains_key(T192) {
        match required_text(m, T192, phase) {
            Err(e) => Err(e),
            Ok(url) => Ok((LoginResponseView::SliderNeededError { verify_url: url }, stores)),
        }
    } else if m.contains_key(T165) {
        if !m.contains_key(T105) || captcha_at(m[T105]) is None {
            Err(decode_error(phase, Field::Tag(T105)))
        } else {
            let (sign, image) = captcha_at(m[T105])->0;
            Ok(
                (
                    LoginResponseView::NeedCaptcha { captcha_sign: sign, captcha_image: image },
                    stores,
                ),
            )
        }
    } else {
        Ok((LoginResponseView::UnknownLoginError { error_message: Seq::empty() }, stores))
    }
}

/// The phone number of a phone record: a signed 4-byte length and that many
/// bytes of text.
pub open spec fn phone_at(b: Seq<u8>) -> Option<Seq<char>> {
    if b.len() < 4 || signed32(be32(b, 0)) < 0 {
        None
    } else {
        text_at(b, 4, signed32(be32(b, 0)))
    }
}

/// Outcome codes 160 and 239 with the record that marks the SMS flow: three
/// blobs, the phone number and the message are required.
pub open spec fn sms_flow(m: Map<u16, Seq<u8>>) -> Decision {
    let phase = Phase::Sms;
    if !m.contains_key(T147) {
        Err(decode_error(phase, Field::Tag(T147)))
    } else if !m.contains_key(T104) {
        Err(decode_error(phase, Field::Tag(T104)))
    } else if !m.contains_key(T403) {
        Err(decode_error(phase, Field::Tag(T403)))
    } else if !m.contains_key(T178) || phone_at(m[T178]) is None {
        Err(decode_error(phase, Field::Tag(T178)))
    } else {
        let phone = phone_at(m[T178])->0;
        let stores = StoresView {
            t104: Some(m[T104]),
            t174: Some(m[T147]),
            rand_seed: Some(m[T403]),
            ..StoresView::none()
        };
        if m.contains_key(T204) {
            match required_text(m, T204, phase) {
                Err(e) => Err(e),
                Ok(url) => match required_text(m, T17E, phase) {
                    Err(e) => Err(e),
                    Ok(message) => Ok(
                        (
                            LoginResponseView::SMSOrVerifyNeededError {
                                verify_url: url,
                                sms_phone: phone,
                                error_message: message,
                            },
                            stores,
                        ),
                    ),
                },
            }
        } else {
            match required_text(m, T17E, phase) {
                Err(e) => Err(e),
                Ok(message) => Ok(
                    (
                        LoginResponseView::SMSNeededError {
                            sms_phone: phone,
                            error_message: message,
                        },
                        stores,
                    ),
                ),
            }
        }
    }
}

/// Outcome codes 160 and 239. `None` where no record of this outcome is
/// present.
pub open spec fn sms(m: Map<u16, Seq<u8>>) -> Option<Decision> {
    let phase = Phase::Sms;
    if m.contains_key(T174) {
        Some(sms_flow(m))
    } else if m.contains_key(T17B) {
        if !m.contains_key(T104) {
            Some(Err(decode_error(phase, Field::Tag(T104))))
        } else {
            Some(
                Ok(
                    (
                        LoginResponseView::SMSNeededError {
                            sms_phone: Seq::empty(),
                            error_message: Seq::empty(),
                        },
                        StoresView { t104: Some(m[T104]), ..StoresView::none() },
                    ),
                ),
            )
        }
    } else if m.contains_key(T204) {
        match required_text(m, T204, phase) {
            Err(e) => Some(Err(e)),
            Ok(url) => Some(
                Ok((LoginResponseView::UnsafeDeviceError { verify_url: url }, StoresView::none())),
            ),
        }
    } else {
        None
    }
}

/// Outcome code 204: device lock. Two blobs are required.
pub open spec fn device_lock(m: Map<u16, Seq<u8>>) -> Decision {
    let phase = Phase::DeviceLock;
    if !m.contains_key(T104) {
        Err(decode_error(phase, Field::Tag(T104)))
    } else if !m.contains_key(T403) {
        Err(decode_error(phase, Field::Tag(T403)))
    } else {
        Ok(
            (
                LoginResponseView::NeedDeviceLockLogin,
                StoresView {
                    t104: Some(m[T104]),
                    rand_seed: Some(m[T403]),
                    ..StoresView::none()
                },
            ),
        )
    }
}

/// The second of two texts, each behind a 2-byte length, that stand after
/// `lead` bytes of `b`.
pub open spec fn second_text(b: Seq<u8>, lead: int) -> Option<Seq<char>> {
    if string_short_at(b, lead) is None {
        None
    } else {
        string_short_at(b, lead + 2 + be16(b, lead))
    }
}

/// The error that record `tag` reports: a title and a message after `lead`
/// bytes.
pub open spec fn reported(m: Map<u16, Seq<u8>>, tag: u16, lead: int) -> Decision {
    match second_text(m[tag], lead) {
        Some(message) => Ok(
            (LoginResponseView::OtherLoginError { error_message: message }, StoresView::none()),
        ),
        None => Err(decode_error(Phase::OtherError, Field::Tag(tag))),
    }
}

/// Any other outcome code, and codes 160 and 239 without a record of theirs:
/// an error that the server reports in one of two records, or a protocol
/// error that names the code.
pub open spec fn other_error(t: u8, m: Map<u16, Seq<u8>>) -> Decision {
    if m.contains_key(T149) {
        reported(m, T149, 2)
    } else if m.contains_key(T146) {
        reported(m, T146, 4)
    } else {
        Err(RQError::Protocol { code: t })
    }
}

/// What the outcome code `t` and the records `m` decide.
pub open spec fn decision(t: u8, m: Map<u16, Seq<u8>>, root_secret: Seq<u8>) -> Decision {
    if t == 0 {
        success(m, root_secret)
    } else if t == 2 {
        verification(m)
    } else if t == 40 {
        Ok(
            (
                LoginResponseView::AccountFrozen { error_message: FROZEN_MESSAGE@ },
                StoresView::none(),
            ),
        )
    } else if (t == 160 || t == 239) && sms(m) is Some {
        sms(m)->0
    } else if t == 162 {
        Ok((LoginResponseView::TooManySMSRequestError, StoresView::none()))
    } else if t == 204 {
        device_lock(m)
    } else {
        other_error(t, m)
    }
}

/// The outcome code and the records of a login frame.
pub open spec fn login_frame(payload: Seq<u8>) -> Result<(u8, Map<u16, Seq<u8>>), RQError> {
    if payload.len() < LOGIN_HEADER_LEN {
        Err(decode_error(Phase::LoginHeader, Field::Frame))
    } else {
        match scan_from(payload, LOGIN_HEADER_LEN as int, TagWidth::Two, Map::empty()) {
            None => Err(decode_error(Phase::LoginHeader, Field::Records)),
            Some(m) => Ok((payload[LOGIN_CODE_AT as int], m)),
        }
    }
}

/// What the frame `payload` yields for a session in state `c` on device `d`:
/// the outcome or an error, and the session's next state. `token` is the
/// fresh display token. A frame whose header or records are malformed
/// leaves the session as it was. Otherwise the display token is taken in
/// before the outcome code is looked at, so that it is kept whatever the
/// frame decides, an error too; what the outcome has the session store is
/// stored only where the frame decides an outcome.
pub open spec fn login_result(
    payload: Seq<u8>,
    c: SessionCacheView,
    d: DeviceIdentityView,
    token: Seq<u8>,
) -> (Result<LoginResponseView, RQError>, SessionCacheView) {
    match login_frame(payload) {
        Err(e) => (Err(e), c),
        Ok((t, m)) => {
            let taken = with_display_token(c, d.guid, m, token);
            match decision(t, m, d.tgtgt_key) {
                Err(e) => (Err(e), taken),
                Ok((response, stores)) => (Ok(response), with_stores(taken, stores)),
            }
        },
    }
}

/// Whether `r` is the decision `d`.
pub open spec fn decided(r: Result<(LoginResponse, Stores), RQError>, d: Decision) -> bool {
    match r {
        Ok((response, stores)) => d == Ok::<(LoginResponseView, StoresView), RQError>(
            (response@, stores@),
        ),
        Err(e) => d == Err::<(LoginResponseView, StoresView), RQError>(e),
    }
}

fn text_of(m: &TlvMap, tag: u16, phase: Phase) -> (r: Result<String, RQError>)
    ensures
        match r {
            Ok(s) => required_text(m@, tag, phase) == Ok::<Seq<char>, RQError>(s@),
            Err(e) => required_text(m@, tag, phase) == Err::<Seq<char>, RQError>(e),
        },
{
    let bytes = m.require(tag, phase)?;
    match string_from_utf8(bytes) {
        Some(s) => Ok(s),
        None => Err(RQError::Decode { phase, field: Field::Tag(tag) }),
    }
}

fn copy_of(m: &TlvMap, tag: u16) -> (r: Option<Vec<u8>>)
    ensures
        opt_bytes(r) == optional(m@, tag),
{
    match m.get(tag) {
        Some(v) => Some(v.clone()),
        None => None,
    }
}

fn read_rollback(b: &[u8]) -> (r: Option<Option<Vec<u8>>>)
    ensures
        match r {
            Some(v) => rollback_in(b@) == Some(opt_bytes(v)),
            None => rollback_in(b@) is None,
        },
{
    let mut reader = Reader::new(b);
    if !reader.advance(2) {
        return None;
    }
    let nested = reader.read_tlv_map(TagWidth::Two)?;
    Some(copy_of(&nested, T172))
}

fn decide_success(m: &TlvMap, root_secret: &[u8]) -> (r: Result<(LoginResponse, Stores), RQError>)
    ensures
        decided(r, success(m@, root_secret@)),
{
    let rollback_sig = match m.get(T161) {
        Some(b) => match read_rollback(b.as_slice()) {
            Some(v) => v,
            None => {
                return Err(
                    RQError::Decode { phase: Phase::LoginSuccess, field: Field::Tag(T161) },
                );
            },
        },
        None => None,
    };
    let data = m.require(T119, Phase::LoginSuccess)?;
    let d = derive_keys(data.as_slice(), root_secret)?;
    Ok(
        (
            LoginResponse::Success,
            Stores {
                t104: None,
                t174: None,
                rand_seed: copy_of(m, T403),
                t150: copy_of(m, T150),
                rollback_sig,
                derived: Some(d),
            },
        ),
    )
}

fn read_captcha(b: &[u8]) -> (r: Option<(Vec<u8>, Vec<u8>)>)
    ensures
        match r {
            Some((sign, image)) => captcha_at(b@) == Some((sign@, image@)),
            None => captcha_at(b@) is None,
        },
{
    let mut reader = Reader::new(b);
    let n = reader.get_u16()?;
    if !reader.advance(2) {
        return None;
    }
    let sign = reader.read_bytes(n as usize)?;
    let image = reader.read_rest();
    Some((sign, image))
}

fn decide_verification(m: &TlvMap) -> (r: Result<(LoginResponse, Stores), RQError>)
    ensures
        decided(r, verification(m@)),
{
    let t104 = m.require(T104, Phase::Verification)?;
    let mut stores = Stores::none();
    stores.t104 = Some(t104);
    if m.contains_key(T192) {
        let verify_url = text_of(m, T192, Phase::Verification)?;
        return Ok((LoginResponse::SliderNeededError { verify_url }, stores));
    }
    if m.contains_key(T165) {
        let b = m.require(T105, Phase::Verification)?;
        return match read_captcha(b.as_slice()) {
            Some((sign, image)) => Ok(
                (
                    LoginResponse::NeedCaptcha {
                        captcha_sign: into_bytes(sign),
                        captcha_image: into_bytes(image),
                    },
                    stores,
                ),
            ),
            None => Err(RQError::Decode { phase: Phase::Verification, field: Field::Tag(T105) }),
        };
    }
    Ok((LoginResponse::UnknownLoginError { error_message: String::new() }, stores))
}

fn read_phone(b: &[u8]) -> (r: Option<String>)
    ensures
        match r {
            Some(s) => phone_at(b@) == Some(s@),
            None => phone_at(b@) is None,
        },
{
    let mut reader = Reader::new(b);
    let n = reader.get_i32()?;
    if n < 0 {
        return None;
    }
    reader.read_string_limit(n as usize)
}

fn decide_sms_flow(m: &TlvMap) -> (r: Result<(LoginResponse, Stores), RQError>)
    ensures
        decided(r, sms_flow(m@)),
{
    let t174 = m.require(T147, Phase::Sms)?;
    let t104 = m.require(T104, Phase::Sms)?;
    let rand_seed = m.require(T403, Phase::Sms)?;
    let b = m.require(T178, Phase::Sms)?;
    let sms_phone = match read_phone(b.as_slice()) {
        Some(s) => s,
        None => {
            return Err(RQError::Decode { phase: Phase::Sms, field: Field::Tag(T178) });
        },
    };
    let mut stores = Stores::none();
    stores.t104 = Some(t104);
    stores.t174 = Some(t174);
    stores.rand_seed = Some(rand_seed);
    if m.contains_key(T204) {
        let verify_url = text_of(m, T204, Phase::Sms)?;
        let error_message = text_of(m, T17E, Phase::Sms)?;
        let response = LoginResponse::SMSOrVerifyNeededError {
            verify_url,
            sms_phone,
            error_message,
        };
        return Ok((response, stores));
    }
    let error_message = text_of(m, T17E, Phase::Sms)?;
    Ok((LoginResponse::SMSNeededError { sms_phone, error_message }, stores))
}

fn decide_sms(m: &TlvMap) -> (r: Option<Result<(LoginResponse, Stores), RQError>>)
    ensures
        match r {
            Some(x) => sms(m@) is Some && decided(x, sms(m@)->0),
            None => sms(m@) is None,
        },
{
    if m.contains_key(T174) {
        return Some(decide_sms_flow(m));
    }
    if m.contains_key(T17B) {
        return match m.require(T104, Phase::Sms) {
            Ok(t104) => {
                let mut stores = Stores::none();
                stores.t104 = Some(t104);
                Some(
                    Ok(
                        (
                            LoginResponse::SMSNeededError {
                                sms_phone: String::new(),
                                error_message: String::new(),
                            },
                            stores,
                        ),
                    ),
                )
            },
            Err(e) => Some(Err(e)),
        };
    }
    if m.contains_key(T204) {
        return match text_of(m, T204, Phase::Sms) {
            Ok(verify_url) => Some(
                Ok((LoginResponse::UnsafeDeviceError { verify_url }, Stores::none())),
            ),
            Err(e) => Some(Err(e)),
        };
    }
    None
}

fn decide_device_lock(m: &TlvMap) -> (r: Result<(LoginResponse, Stores), RQError>)
    ensures
        decided(r, device_lock(m@)),
{
    let t104 = m.require(T104, Phase::DeviceLock)?;
    let rand_seed = m.require(T403, Phase::DeviceLock)?;
    let mut stores = Stores::none();
    stores.t104 = Some(t104);
    stores.rand_seed = Some(rand_seed);
    Ok((LoginResponse::NeedDeviceLockLogin, stores))
}

fn read_second_text(b: &[u8], lead: usize) -> (r: Option<String>)
    ensures
        match r {
            Some(s) => second_text(b@, lead as int) == Some(s@),
            None => second_text(b@, lead as int) is None,
        },
{
    let mut reader = Reader::new(b);
    if !reader.advance(lead) {
        return None;
    }
    let _title = reader.read_string_short()?;
    reader.read_string_short()
}

fn decide_reported(m: &TlvMap, tag: u16, lead: usize) -> (r: Result<
    (LoginResponse, Stores),
    RQError,
>)
    requires
        m@.contains_key(tag),
    ensures
        decided(r, reported(m@, tag, lead as int)),
{
    let b = m.require(tag, Phase::OtherError)?;
    match read_second_text(b.as_slice(), lead) {
        Some(error_message) => Ok(
            (LoginResponse::OtherLoginError { error_message }, Stores::none()),
        ),
        None => Err(RQError::Decode { phase: Phase::OtherError, field: Field::Tag(tag) }),
    }
}

fn decide_other_error(t: u8, m: &TlvMap) -> (r: Result<(LoginResponse, Stores), RQError>)
    ensures
        decided(r, other_error(t, m@)),
{
    if m.contains_key(T149) {
        decide_reported(m, T149, 2)
    } else if m.contains_key(T146) {
        decide_reported(m, T146, 4)
    } else {
        Err(RQError::Protocol { code: t })
    }
}

/// Decides the outcome of a frame from its outcome code and its records:
/// which outcome it is and what the session has to store. `root_secret`
/// deciphers the account information of a successful login.
pub fn decide(t: u8, m: &TlvMap, root_secret: &[u8]) -> (r: Result<
    (LoginResponse, Stores),
    RQError,
>)
    ensures
        decided(r, decision(t, m@, root_secret@)),
{
    if t == 0 {
        return decide_success(m, root_secret);
    }
    if t == 2 {
        return decide_verification(m);
    }
    if t == 40 {
        return Ok(
            (
                LoginResponse::AccountFrozen { error_message: FROZEN_MESSAGE.to_owned() },
                Stores::none(),
            ),
        );
    }
    if t == 160 || t == 239 {
        match decide_sms(m) {
            Some(r) => {
                return r;
            },
            None => {},
        }
    }
    if t == 162 {
        return Ok((LoginResponse::TooManySMSRequestError, Stores::none()));
    }
    if t == 204 {
        return decide_device_lock(m);
    }
    decide_other_error(t, m)
}

fn store(slot: &mut Vec<u8>, new: Option<Vec<u8>>)
    ensures
        final(slot)@ == stored(old(slot)@, opt_bytes(new)),
{
    match new {
        Some(v) => {
            *slot = v;
        },
        None => {},
    }
}

impl SessionCache {
    /// Stores a display token, the payload that came with it, and the value
    /// derived from both.
    pub fn store_display_token(&mut self, token: Vec<u8>, t402: Vec<u8>, g: Vec<u8>)
        ensures
            final(self)@ == (SessionCacheView { dpwd: token@, t402: t402@, g: g@, ..old(self)@ }),
    {
        self.dpwd = token;
        self.t402 = t402;
        self.g = g;
    }

    /// Takes in the display token of a frame with records `m`.
    pub fn take_display_token(&mut self, guid: &[u8], m: &TlvMap, token: &[u8])
        ensures
            final(self)@ == with_display_token(old(self)@, guid@, m@, token@),
    {
        match m.get(T402) {
            Some(t402) => {
                let mut material: Vec<u8> = Vec::new();
                put_slice(&mut material, guid);
                put_slice(&mut material, token);
                put_slice(&mut material, t402.as_slice());
                assert(material@ =~= guid@ + token@ + t402@);
                let g = md5_compute(material.as_slice());
                self.store_display_token(slice_to_vec(token), t402.clone(), g);
            },
            None => {},
        }
    }

    /// Stores what a frame decided.
    pub fn apply(&mut self, stores: Stores)
        ensures
            final(self)@ == with_stores(old(self)@, stores@),
    {
        store(&mut self.t104, stores.t104);
        store(&mut self.t174, stores.t174);
        store(&mut self.rand_seed, stores.rand_seed);
        store(&mut self.t150, stores.t150);
        store(&mut self.rollback_sig, stores.rollback_sig);
        match stores.derived {
            Some(d) => {
                self.sig = d.sig;
                self.account.nickname = d.profile.nickname;
                self.account.age = d.profile.age;
                self.account.gender = d.profile.gender;
            },
            None => {},
        }
    }
}

fn read_login_frame(payload: &[u8]) -> (r: Result<(u8, TlvMap), RQError>)
    ensures
        match r {
            Ok((t, m)) => login_frame(payload@) == Ok::<(u8, Map<u16, Seq<u8>>), RQError>(
                (t, m@),
            ),
            Err(e) => login_frame(payload@) == Err::<(u8, Map<u16, Seq<u8>>), RQError>(e),
        },
{
    let mut reader = Reader::new(payload);
    if payload.len() < LOGIN_HEADER_LEN {
        return Err(RQError::Decode { phase: Phase::LoginHeader, field: Field::Frame });
    }
    let t = payload[LOGIN_CODE_AT];
    reader.advance(LOGIN_HEADER_LEN);
    match reader.read_tlv_map(TagWidth::Two) {
        Some(m) => Ok((t, m)),
        None => Err(RQError::Decode { phase: Phase::LoginHeader, field: Field::Records }),
    }
}

/// Decodes one login frame. `token` is a fresh random display token.
///
/// A frame whose header or records are malformed is an error and leaves the
/// session as it was. Otherwise the session first takes the display token
/// where the frame asks for one, and keeps it whatever follows. Then the
/// outcome is decided: on success it is returned and the session holds what
/// the frame had it store; on an error nothing more is stored.
pub fn decode_login_response(
    cache: &mut SessionCache,
    device: &DeviceIdentity,
    payload: &[u8],
    token: &[u8],
) -> (r: Result<LoginResponse, RQError>)
    ensures
        final(cache)@ == login_result(payload@, old(cache)@, device@, token@).1,
        match login_result(payload@, old(cache)@, device@, token@).0 {
            Ok(response) => r matches Ok(x) && x@ == response,
            Err(e) => r matches Err(x) && x == e,
        },
{
    let (t, m) = match read_login_frame(payload) {
        Ok(frame) => frame,
        Err(e) => {
            return Err(e);
        },
    };
    cache.take_display_token(device.guid.as_slice(), &m, token);
    match decide(t, &m, device.tgtgt_key.as_slice()) {
        Ok((response, stores)) => {
            cache.apply(stores);
            Ok(response)
        },
        Err(e) => Err(e),
    }
}

/// Whatever the outcome code of a frame is, and whether the frame decides an
/// outcome or an error, a frame whose records are read has the session keep
/// the display token where it carries the token's record: the fresh token,
/// the record's payload, and the digest over device identifier, token and
/// payload. Without that record the three are as they were.
pub proof fn lemma_display_token_is_kept(
    payload: Seq<u8>,
    c: SessionCacheView,
    d: DeviceIdentityView,
    token: Seq<u8>,
)
    requires
        login_frame(payload) is Ok,
    ensures
        ({
            let m = login_frame(payload)->Ok_0.1;
            let next = login_result(payload, c, d, token).1;
            if m.contains_key(T402) {
                &&& next.dpwd == token
                &&& next.t402 == m[T402]
                &&& next.g == md5_digest(d.guid + token + m[T402])
            } else {
                &&& next.dpwd == c.dpwd
                &&& next.t402 == c.t402
                &&& next.g == c.g
            }
        }),
{
}

/// Whatever a frame decides, each blob that it has the session store is the
/// value of a record of that frame, and keys are derived only from a frame
/// that carries the encrypted account information: nothing is stored that
/// the frame did not bring.
pub proof fn lemma_stores_come_from_the_frame(t: u8, m: Map<u16, Seq<u8>>, root_secret: Seq<u8>)
    requires
        decision(t, m, root_secret) is Ok,
    ensures
        ({
            let s = decision(t, m, root_secret)->Ok_0.1;
            &&& s.t104 matches Some(b) ==> m.contains_key(T104) && b == m[T104]
            &&& s.t174 matches Some(b) ==> m.contains_key(T147) && b == m[T147]
            &&& s.rand_seed matches Some(b) ==> m.contains_key(T403) && b == m[T403]
            &&& s.t150 matches Some(b) ==> m.contains_key(T150) && b == m[T150]
            &&& s.rollback_sig is Some ==> m.contains_key(T161)
            &&& s.derived matches Some(d) ==> m.contains_key(T119) && derived(
                m[T119],
                root_secret,
            ) == Ok::<DerivedView, RQError>(d)
        }),
{
}

/// A successful login whose frame carries the encrypted account information
/// and nothing else, under a root secret that deciphers it: the outcome is
/// success, and the session takes the keys and the profile derived.
pub proof fn lemma_success_populates_session(
    payload: Seq<u8>,
    data: Seq<u8>,
    c: SessionCacheView,
    d: DeviceIdentityView,
    token: Seq<u8>,
)
    requires
        login_frame(payload) == Ok::<(u8, Map<u16, Seq<u8>>), RQError>(
            (0u8, Map::<u16, Seq<u8>>::empty().insert(T119, data)),
        ),
        derived(data, d.tgtgt_key) is Ok,
    ensures
        login_result(payload, c, d, token) == (
            Ok::<LoginResponseView, RQError>(LoginResponseView::Success),
            with_derived(c, derived(data, d.tgtgt_key)->Ok_0),
        ),
{
    let m = Map::<u16, Seq<u8>>::empty().insert(T119, data);
    let k = derived(data, d.tgtgt_key)->Ok_0;
    assert(m[T119] == data);
    assert(!m.contains_key(T161) && !m.contains_key(T402) && !m.contains_key(T403)
        && !m.contains_key(T150));
    assert(with_stores(c, success(m, d.tgtgt_key)->Ok_0.1) == with_derived(c, k));
}

/// A successful login whose frame lacks the encrypted account information
/// is a decode error, whatever else the frame carries.
pub proof fn lemma_success_requires_account_info(
    payload: Seq<u8>,
    c: SessionCacheView,
    d: DeviceIdentityView,
    token: Seq<u8>,
)
    requires
        login_frame(payload) matches Ok((t, m)) && t == 0 && !m.contains_key(T119),
    ensures
        login_result(payload, c, d, token).0 matches Err(RQError::Decode { phase, field })
            && phase == Phase::LoginSuccess,
{
}

/// A verification frame with a slider URL asks for the slider at that URL,
/// and the session keeps the signature blob.
pub proof fn lemma_slider_url_yields_slider(m: Map<u16, Seq<u8>>, root_secret: Seq<u8>)
    requires
        m.contains_key(T104),
        m.contains_key(T192),
        valid_utf8(m[T192]),
    ensures
        decision(2, m, root_secret) == Ok::<(LoginResponseView, StoresView), RQError>(
            (
                LoginResponseView::SliderNeededError { verify_url: decode_utf8(m[T192]) },
                StoresView { t104: Some(m[T104]), ..StoresView::none() },
            ),
        ),
{
}

/// A verification frame without a slider URL, with the captcha flag and a
/// companion record of signature length, two more bytes, signature and
/// image, asks for that captcha.
pub proof fn lemma_captcha_flag_yields_captcha(
    m: Map<u16, Seq<u8>>,
    root_secret: Seq<u8>,
    sign: Seq<u8>,
    pad: Seq<u8>,
    image: Seq<u8>,
)
    requires
        m.contains_key(T104),
        !m.contains_key(T192),
        m.contains_key(T165),
        m.contains_key(T105),
        sign.len() <= 0xffff,
        pad.len() == 2,
        m[T105] == u16_bytes(sign.len() as u16) + pad + sign + image,
    ensures
        decision(2, m, root_secret) == Ok::<(LoginResponseView, StoresView), RQError>(
            (
                LoginResponseView::NeedCaptcha { captcha_sign: sign, captcha_image: image },
                StoresView { t104: Some(m[T104]), ..StoresView::none() },
            ),
        ),
{
    let b = m[T105];
    let n = sign.len() as u16;
    assert(b[0] == u16_bytes(n)[0]);
    assert(b[1] == u16_bytes(n)[1]);
    assert(be16(b, 0) == sign.len());
    assert(b.subrange(4, 4 + be16(b, 0)) =~= sign);
    assert(b.subrange(4 + be16(b, 0), b.len() as int) =~= image);
}

/// A frame of the SMS flow without a verification URL asks for the SMS
/// code, with the phone number and the message of the frame.
pub proof fn lemma_sms_context_yields_sms_needed(
    t: u8,
    m: Map<u16, Seq<u8>>,
    root_secret: Seq<u8>,
)
    requires
        t == 160 || t == 239,
        m.contains_key(T174),
        m.contains_key(T147),
        m.contains_key(T104),
        m.contains_key(T403),
        m.contains_key(T178),
        phone_at(m[T178]) is Some,
        m.contains_key(T17E),
        valid_utf8(m[T17E]),
        !m.contains_key(T204),
    ensures
        decision(t, m, root_secret) == Ok::<(LoginResponseView, StoresView), RQError>(
            (
                LoginResponseView::SMSNeededError {
                    sms_phone: phone_at(m[T178])->0,
                    error_message: decode_utf8(m[T17E]),
                },
                StoresView {
                    t104: Some(m[T104]),
                    t174: Some(m[T147]),
                    rand_seed: Some(m[T403]),
                    ..StoresView::none()
                },
            ),
        ),
{
}

} // verus!
