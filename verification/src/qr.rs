//! The decoder of QR-login frames.
//!
//! A QR frame has a fixed preamble of 48 bytes, which holds the inner
//! command at offset 8, then the body, then one trailing byte.

use crate::binary::be16;
use crate::binary::be64;
use crate::binary::bytes_short_at;
use crate::binary::signed64;
use crate::binary::Reader;
use crate::buffer::contents;
use crate::buffer::into_bytes;
use crate::error::decode_error;
use crate::error::Field;
use crate::error::Phase;
use crate::error::RQError;
use crate::session::AccountInfoView;
use crate::session::DeviceIdentity;
use crate::session::DeviceIdentityView;
use crate::session::SessionCache;
use crate::session::SessionCacheView;
use crate::tags::T17;
use crate::tags::T18;
use crate::tags::T19;
use crate::tags::T1E;
use crate::tags::T65;
use crate::tlv::scan_from;
use crate::tlv::TagWidth;
use bytes::Bytes;
use vstd::prelude::*;
use vstd::slice::slice_subrange;

verus! {

/// The length of the preamble.
pub const QR_HEADER_LEN: usize = 48;

/// The offset of the inner command.
pub const QR_COMMAND_AT: usize = 8;

/// Inner command: fetch the image.
pub const CMD_IMAGE: u16 = 0x31;

/// Inner command: poll the state.
pub const CMD_POLL: u16 = 0x12;

/// The marker after which an account number stands in a poll body.
pub const UIN_MARKER: u8 = 2;

/// Status bytes of a poll.
pub const STATUS_WAITING_FOR_SCAN: u8 = 0x30;

pub const STATUS_WAITING_FOR_CONFIRM: u8 = 0x35;

pub const STATUS_CANCELED: u8 = 0x36;

pub const STATUS_TIMEOUT: u8 = 0x11;

/// The state of a QR login.
#[derive(Debug, PartialEq, Eq)]
pub enum QRCodeState {
    QRCodeImageFetch { image_data: Bytes, sig: Bytes },
    QRCodeWaitingForScan,
    QRCodeWaitingForConfirm,
    QRCodeTimeout,
    QRCodeConfirmed { tmp_pwd: Bytes, tmp_no_pic_sig: Bytes, tgt_qr: Bytes },
    QRCodeCanceled,
}

pub enum QRCodeStateView {
    QRCodeImageFetch { image_data: Seq<u8>, sig: Seq<u8> },
    QRCodeWaitingForScan,
    QRCodeWaitingForConfirm,
    QRCodeTimeout,
    QRCodeConfirmed { tmp_pwd: Seq<u8>, tmp_no_pic_sig: Seq<u8>, tgt_qr: Seq<u8> },
    QRCodeCanceled,
}

impl View for QRCodeState {
    type V = QRCodeStateView;

    open spec fn view(&self) -> QRCodeStateView {
        match self {
            QRCodeState::QRCodeImageFetch { image_data, sig } => QRCodeStateView::QRCodeImageFetch {
                image_data: contents(*image_data),
                sig: contents(*sig),
            },
            QRCodeState::QRCodeWaitingForScan => QRCodeStateView::QRCodeWaitingForScan,
            QRCodeState::QRCodeWaitingForConfirm => QRCodeStateView::QRCodeWaitingForConfirm,
            QRCodeState::QRCodeTimeout => QRCodeStateView::QRCodeTimeout,
            QRCodeState::QRCodeConfirmed {
                tmp_pwd,
                tmp_no_pic_sig,
                tgt_qr,
            } => QRCodeStateView::QRCodeConfirmed {
                tmp_pwd: contents(*tmp_pwd),
                tmp_no_pic_sig: contents(*tmp_no_pic_sig),
                tgt_qr: contents(*tgt_qr),
            },
            QRCodeState::QRCodeCanceled => QRCodeStateView::QRCodeCanceled,
        }
    }
}

/// What a confirmation has the session and the device keep.
#[derive(Clone, Debug, PartialEq, Eq)]
pub struct Confirmation {
    /// The account that confirmed.
    pub uin: i64,
    /// The device's new root secret.
    pub root_secret: Vec<u8>,
}

pub struct ConfirmationView {
    pub uin: i64,
    pub root_secret: Seq<u8>,
}

impl View for Confirmation {
    type V = ConfirmationView;

    open spec fn view(&self) -> ConfirmationView {
        ConfirmationView { uin: self.uin, root_secret: self.root_secret@ }
    }
}

/// A state and, with a confirmed state, what to keep.
pub type QrDecision = Result<Option<(QRCodeStateView, Option<ConfirmationView>)>, RQError>;

/// The body of an image fetch: six bytes that are passed over, a status
/// byte, the signature behind a 2-byte length, two bytes that are passed
/// over, and records with 1-byte tags. No state where the status is not
/// zero or no image is among the records.
pub open spec fn image_fetch(b: Seq<u8>) -> QrDecision {
    let phase = Phase::QrImage;
    if b.len() < 7 {
        Err(decode_error(phase, Field::Frame))
    } else if b[6] != 0 {
        Ok(None)
    } else if bytes_short_at(b, 7) is None {
        Err(decode_error(phase, Field::Frame))
    } else {
        let sig = bytes_short_at(b, 7)->0;
        let at = 9 + sig.len() as int + 2;
        if at > b.len() {
            Err(decode_error(phase, Field::Frame))
        } else {
            match scan_from(b, at, TagWidth::One, Map::empty()) {
                None => Err(decode_error(phase, Field::Records)),
                Some(m) => if m.contains_key(T17) {
                    Ok(
                        Some(
                            (QRCodeStateView::QRCodeImageFetch { image_data: m[T17], sig }, None),
                        ),
                    )
                } else {
                    Ok(None)
                },
            }
        }
    }
}

/// The offset of the status byte in a poll body. The body starts with a
/// 2-byte variable length. Where that is zero, nothing stands before the
/// four bytes that go before the status. Otherwise it counts one more than
/// what follows the marker byte after it; and where the marker announces an
/// account number, eight of the bytes counted are that number. `None` where
/// the body ends before the marker or the account number, or the length is
/// too small for the account number.
pub open spec fn status_at(b: Seq<u8>) -> Option<int> {
    if b.len() < 2 {
        None
    } else {
        let v = be16(b, 0);
        if v == 0 {
            Some(6int)
        } else if b.len() < 3 {
            None
        } else if b[2] != UIN_MARKER {
            Some(3 + (v - 1) + 4)
        } else if b.len() < 11 || v - 1 < 8 {
            None
        } else {
            Some(11 + (v - 1 - 8) + 4)
        }
    }
}

/// The state that a status byte other than zero stands for.
pub open spec fn state_of(code: u8) -> Option<QRCodeStateView> {
    if code == STATUS_WAITING_FOR_SCAN {
        Some(QRCodeStateView::QRCodeWaitingForScan)
    } else if code == STATUS_WAITING_FOR_CONFIRM {
        Some(QRCodeStateView::QRCodeWaitingForConfirm)
    } else if code == STATUS_CANCELED {
        Some(QRCodeStateView::QRCodeCanceled)
    } else if code == STATUS_TIMEOUT {
        Some(QRCodeStateView::QRCodeTimeout)
    } else {
        None
    }
}

/// The confirmation that stands at offset `at` of a poll body: the account
/// number in eight bytes, six bytes that are passed over, and records with
/// 2-byte tags, of which four are required.
pub open spec fn confirmed(b: Seq<u8>, at: int) -> QrDecision {
    let phase = Phase::QrConfirm;
    if at + 14 > b.len() {
        Err(decode_error(phase, Field::Frame))
    } else {
        match scan_from(b, at + 14, TagWidth::Two, Map::empty()) {
            None => Err(decode_error(phase, Field::Records)),
            Some(m) => if !m.contains_key(T18) {
                Err(decode_error(phase, Field::Tag(T18)))
            } else if !m.contains_key(T1E) {
                Err(decode_error(phase, Field::Tag(T1E)))
            } else if !m.contains_key(T19) {
                Err(decode_error(phase, Field::Tag(T19)))
            } else if !m.contains_key(T65) {
                Err(decode_error(phase, Field::Tag(T65)))
            } else {
                Ok(
                    Some(
                        (
                            QRCodeStateView::QRCodeConfirmed {
                                tmp_pwd: m[T18],
                                tmp_no_pic_sig: m[T19],
                                tgt_qr: m[T65],
                            },
                            Some(
                                ConfirmationView {
                                    uin: signed64(be64(b, at)) as i64,
                                    root_secret: m[T1E],
                                },
                            ),
                        ),
                    ),
                )
            },
        }
    }
}

/// The account number that a poll body hands over: the eight bytes behind a
/// status byte that is zero, where the body holds them. It is read before
/// anything else of the confirmation, so that a body which ends after it,
/// or lacks a tag, hands it over all the same.
pub open spec fn poll_account(b: Seq<u8>) -> Option<i64> {
    if status_at(b) is None || status_at(b)->0 >= b.len() {
        None
    } else {
        let at = status_at(b)->0;
        if b[at] != 0 || at + 9 > b.len() {
            None
        } else {
            Some(signed64(be64(b, at + 1)) as i64)
        }
    }
}

/// The body of a poll: the state that its status byte stands for, or, where
/// that byte is zero, the confirmation behind it.
pub open spec fn poll(b: Seq<u8>) -> QrDecision {
    if status_at(b) is None || status_at(b)->0 >= b.len() {
        Err(decode_error(Phase::QrPoll, Field::Frame))
    } else {
        let at = status_at(b)->0;
        if b[at] != 0 {
            match state_of(b[at]) {
                Some(s) => Ok(Some((s, None))),
                None => Ok(None),
            }
        } else {
            confirmed(b, at + 1)
        }
    }
}

/// What a QR frame decides. A frame shorter than the preamble holds no
/// state; one that ends with the preamble is malformed, since the trailing
/// byte is missing.
pub open spec fn qr_decision(payload: Seq<u8>) -> QrDecision {
    if payload.len() < QR_HEADER_LEN {
        Ok(None)
    } else if payload.len() == QR_HEADER_LEN {
        Err(decode_error(Phase::QrHeader, Field::Frame))
    } else {
        let cmd = be16(payload, QR_COMMAND_AT as int);
        let body = payload.subrange(QR_HEADER_LEN as int, payload.len() - 1);
        if cmd == CMD_IMAGE {
            image_fetch(body)
        } else if cmd == CMD_POLL {
            poll(body)
        } else {
            Ok(None)
        }
    }
}

/// The account number that a QR frame hands over: that of the body of a
/// poll.
pub open spec fn qr_account(payload: Seq<u8>) -> Option<i64> {
    if payload.len() <= QR_HEADER_LEN || be16(payload, QR_COMMAND_AT as int) != CMD_POLL {
        None
    } else {
        poll_account(payload.subrange(QR_HEADER_LEN as int, payload.len() - 1))
    }
}

/// Whether `r` is the decision `d`.
pub open spec fn qr_decided(
    r: Result<Option<(QRCodeState, Option<Confirmation>)>, RQError>,
    d: QrDecision,
) -> bool {
    match r {
        Ok(Some((state, Some(c)))) => d == Ok::<
            Option<(QRCodeStateView, Option<ConfirmationView>)>,
            RQError,
        >(Some((state@, Some(c@)))),
        Ok(Some((state, None))) => d == Ok::<
            Option<(QRCodeStateView, Option<ConfirmationView>)>,
            RQError,
        >(Some((state@, None))),
        Ok(None) => d == Ok::<Option<(QRCodeStateView, Option<ConfirmationView>)>, RQError>(None),
        Err(e) => d == Err::<Option<(QRCodeStateView, Option<ConfirmationView>)>, RQError>(e),
    }
}

fn decide_image_fetch(body: &[u8]) -> (r: Result<
    Option<(QRCodeState, Option<Confirmation>)>,
    RQError,
>)
    ensures
        qr_decided(r, image_fetch(body@)),
{
    let malformed = RQError::Decode { phase: Phase::QrImage, field: Field::Frame };
    let mut reader = Reader::new(body);
    if !reader.advance(6) {
        return Err(malformed);
    }
    let code = match reader.get_u8() {
        Some(c) => c,
        None => {
            return Err(malformed);
        },
    };
    if code != 0 {
        return Ok(None);
    }
    let sig = match reader.read_bytes_short() {
        Some(s) => s,
        None => {
            return Err(malformed);
        },
    };
    if !reader.advance(2) {
        return Err(malformed);
    }
    let m = match reader.read_tlv_map(TagWidth::One) {
        Some(m) => m,
        None => {
            return Err(RQError::Decode { phase: Phase::QrImage, field: Field::Records });
        },
    };
    match m.get(T17) {
        Some(image) => Ok(
            Some(
                (
                    QRCodeState::QRCodeImageFetch {
                        image_data: into_bytes(image.clone()),
                        sig: into_bytes(sig),
                    },
                    None,
                ),
            ),
        ),
        None => Ok(None),
    }
}

fn state_for(code: u8) -> (r: Option<QRCodeState>)
    ensures
        match r {
            Some(s) => state_of(code) == Some(s@),
            None => state_of(code) is None,
        },
{
    if code == STATUS_WAITING_FOR_SCAN {
        Some(QRCodeState::QRCodeWaitingForScan)
    } else if code == STATUS_WAITING_FOR_CONFIRM {
        Some(QRCodeState::QRCodeWaitingForConfirm)
    } else if code == STATUS_CANCELED {
        Some(QRCodeState::QRCodeCanceled)
    } else if code == STATUS_TIMEOUT {
        Some(QRCodeState::QRCodeTimeout)
    } else {
        None
    }
}

fn decide_confirmed(reader: &mut Reader, uin: i64) -> (r: Result<
    Option<(QRCodeState, Option<Confirmation>)>,
    RQError,
>)
    requires
        8 <= old(reader).pos(),
        uin == signed64(be64(old(reader).data(), old(reader).pos() - 8)),
    ensures
        qr_decided(r, confirmed(old(reader).data(), old(reader).pos() - 8)),
{
    if !reader.advance(6) {
        return Err(RQError::Decode { phase: Phase::QrConfirm, field: Field::Frame });
    }
    let m = match reader.read_tlv_map(TagWidth::Two) {
        Some(m) => m,
        None => {
            return Err(RQError::Decode { phase: Phase::QrConfirm, field: Field::Records });
        },
    };
    let tmp_pwd = m.require(T18, Phase::QrConfirm)?;
    let root_secret = m.require(T1E, Phase::QrConfirm)?;
    let tmp_no_pic_sig = m.require(T19, Phase::QrConfirm)?;
    let tgt_qr = m.require(T65, Phase::QrConfirm)?;
    Ok(
        Some(
            (
                QRCodeState::QRCodeConfirmed {
                    tmp_pwd: into_bytes(tmp_pwd),
                    tmp_no_pic_sig: into_bytes(tmp_no_pic_sig),
                    tgt_qr: into_bytes(tgt_qr),
                },
                Some(Confirmation { uin, root_secret }),
            ),
        ),
    )
}

fn decide_poll(body: &[u8]) -> (out: (
    Option<i64>,
    Result<Option<(QRCodeState, Option<Confirmation>)>, RQError>,
))
    ensures
        out.0 == poll_account(body@),
        qr_decided(out.1, poll(body@)),
{
    let malformed = RQError::Decode { phase: Phase::QrPoll, field: Field::Frame };
    let mut reader = Reader::new(body);
    let mut var_len: u16 = match reader.get_u16() {
        Some(v) => v,
        None => {
            return (None, Err(malformed));
        },
    };
    if var_len != 0 {
        var_len = var_len - 1;
        let marker = match reader.get_u8() {
            Some(b) => b,
            None => {
                return (None, Err(malformed));
            },
        };
        if marker == UIN_MARKER {
            if reader.get_i64().is_none() || var_len < 8 {
                return (None, Err(malformed));
            }
            var_len = var_len - 8;
        }
    }
    if !reader.advance(var_len as usize) {
        return (None, Err(malformed));
    }
    if reader.get_i32().is_none() {
        return (None, Err(malformed));
    }
    let code = match reader.get_u8() {
        Some(c) => c,
        None => {
            return (None, Err(malformed));
        },
    };
    if code != 0 {
        return match state_for(code) {
            Some(s) => (None, Ok(Some((s, None)))),
            None => (None, Ok(None)),
        };
    }
    let uin = match reader.get_i64() {
        Some(u) => u,
        None => {
            return (None, Err(RQError::Decode { phase: Phase::QrConfirm, field: Field::Frame }));
        },
    };
    (Some(uin), decide_confirmed(&mut reader, uin))
}

/// Decides what a QR frame holds: no state, a state, or a confirmed state
/// together with what the session and the device have to keep. Beside it
/// stands the account number that the frame hands over, which the session
/// keeps whether or not the confirmation behind it is whole.
pub fn decide_qr(payload: &[u8]) -> (out: (
    Option<i64>,
    Result<Option<(QRCodeState, Option<Confirmation>)>, RQError>,
))
    ensures
        out.0 == qr_account(payload@),
        qr_decided(out.1, qr_decision(payload@)),
{
    let len = payload.len();
    if len < QR_HEADER_LEN {
        return (None, Ok(None));
    }
    if len == QR_HEADER_LEN {
        return (None, Err(RQError::Decode { phase: Phase::QrHeader, field: Field::Frame }));
    }
    let hi: u16 = payload[QR_COMMAND_AT] as u16;
    let lo: u16 = payload[QR_COMMAND_AT + 1] as u16;
    let cmd: u16 = hi * 0x100 + lo;
    let body = slice_subrange(payload, QR_HEADER_LEN, len - 1);
    if cmd == CMD_IMAGE {
        (None, decide_image_fetch(body))
    } else if cmd == CMD_POLL {
        decide_poll(body)
    } else {
        (None, Ok(None))
    }
}

/// The session `c` with the account number of a confirmation.
pub open spec fn with_uin(c: SessionCacheView, uin: i64) -> SessionCacheView {
    SessionCacheView { account: AccountInfoView { uin, ..c.account }, ..c }
}

/// The session `c` after a frame that hands over `account`.
pub open spec fn with_account(c: SessionCacheView, account: Option<i64>) -> SessionCacheView {
    match account {
        Some(uin) => with_uin(c, uin),
        None => c,
    }
}

/// Decodes one QR-login frame. The session keeps the account number that
/// the frame hands over as soon as it is read, also where the confirmation
/// behind it is cut short or lacks a tag. The device keeps the new root
/// secret of a confirmed login, and is left as it was by every other frame
/// and every error.
pub fn decode_trans_emp_response(
    cache: &mut SessionCache,
    device: &mut DeviceIdentity,
    payload: &[u8],
) -> (r: Result<Option<QRCodeState>, RQError>)
    ensures
        final(cache)@ == with_account(old(cache)@, qr_account(payload@)),
        match qr_decision(payload@) {
            Ok(Some((state, Some(c)))) => {
                &&& r matches Ok(Some(s)) && s@ == state
                &&& qr_account(payload@) == Some(c.uin)
                &&& final(device)@ == (DeviceIdentityView {
                    tgtgt_key: c.root_secret,
                    ..old(device)@
                })
            },
            Ok(Some((state, None))) => {
                &&& r matches Ok(Some(s)) && s@ == state
                &&& final(device)@ == old(device)@
            },
            Ok(None) => {
                &&& r matches Ok(None)
                &&& final(device)@ == old(device)@
            },
            Err(e) => {
                &&& r matches Err(x) && x == e
                &&& final(device)@ == old(device)@
            },
        },
{
    let (account, decision) = decide_qr(payload);
    match account {
        Some(uin) => {
            cache.account.uin = uin;
        },
        None => {},
    }
    match decision {
        Ok(Some((state, Some(c)))) => {
            device.tgtgt_key = c.root_secret;
            Ok(Some(state))
        },
        Ok(Some((state, None))) => Ok(Some(state)),
        Ok(None) => Ok(None),
        Err(e) => Err(e),
    }
}

/// The account number is handed over by the poll frames with status zero
/// that hold its eight bytes, and by no other frame: a frame of another
/// command, or with another status, leaves the session as it was. A
/// confirmed login hands over the number that its confirmation names.
pub proof fn lemma_account_handed_over(payload: Seq<u8>)
    ensures
        qr_account(payload) is Some ==> payload.len() > QR_HEADER_LEN && be16(
            payload,
            QR_COMMAND_AT as int,
        ) == CMD_POLL,
        qr_decision(payload) matches Ok(Some((state, Some(c)))) ==> qr_account(payload) == Some(
            c.uin,
        ),
        qr_decision(payload) matches Ok(Some((state, None))) ==> qr_account(payload) is None,
        qr_decision(payload) matches Ok(None) ==> qr_account(payload) is None,
{
}

/// A poll whose status byte is not zero yields the state that the byte
/// stands for, and no state where it stands for none; the byte of a scan
/// awaited yields that state.
pub proof fn lemma_poll_status(b: Seq<u8>)
    requires
        status_at(b) is Some,
        status_at(b)->0 < b.len(),
        b[status_at(b)->0] != 0,
    ensures
        poll(b) == Ok::<Option<(QRCodeStateView, Option<ConfirmationView>)>, RQError>(
            match state_of(b[status_at(b)->0]) {
                Some(s) => Some((s, None)),
                None => None,
            },
        ),
        b[status_at(b)->0] == STATUS_WAITING_FOR_SCAN ==> poll(b) == Ok::<
            Option<(QRCodeStateView, Option<ConfirmationView>)>,
            RQError,
        >(Some((QRCodeStateView::QRCodeWaitingForScan, None))),
{
}

/// A poll with status zero whose records hold all four tags of a
/// confirmation yields the confirmed state with the values of three of
/// them, and has the fourth kept as the device's new root secret.
pub proof fn lemma_poll_confirmed(b: Seq<u8>, m: Map<u16, Seq<u8>>)
    requires
        status_at(b) is Some,
        status_at(b)->0 < b.len(),
        b[status_at(b)->0] == 0,
        status_at(b)->0 + 15 <= b.len(),
        scan_from(b, status_at(b)->0 + 15, TagWidth::Two, Map::empty()) == Some(m),
        m.contains_key(T18),
        m.contains_key(T19),
        m.contains_key(T1E),
        m.contains_key(T65),
    ensures
        poll(b) matches Ok(Some((state, Some(keep)))) && state == (
        QRCodeStateView::QRCodeConfirmed {
            tmp_pwd: m[T18],
            tmp_no_pic_sig: m[T19],
            tgt_qr: m[T65],
        }) && keep.root_secret == m[T1E],
{
}

} // verus!
