//! The decoder of credential-exchange responses, by which a session renews
//! its keys.
//!
//! An exchange frame is two bytes of command, one byte of outcome code, two
//! reserved bytes, and records with 2-byte tags.

use crate::binary::be16;
use crate::binary::Reader;
use crate::crypto::md5_compute;
use crate::crypto::md5_digest;
use crate::error::decode_error;
use crate::error::Field;
use crate::error::Phase;
use crate::error::RQError;
use crate::keys::decode_t119;
use crate::keys::derived;
use crate::keys::with_derived;
use crate::session::DeviceIdentity;
use crate::session::DeviceIdentityView;
use crate::session::SessionCache;
use crate::session::SessionCacheView;
use crate::tags::T119;
use crate::tlv::scan_from;
use crate::tlv::TagWidth;
use crate::tlv::TlvMap;
use vstd::prelude::*;

verus! {

/// The length of an exchange frame's fixed part.
pub const EXCHANGE_HEADER_LEN: usize = 5;

/// Command: the account information is under the device's root secret.
pub const CMD_BY_ROOT_SECRET: u16 = 15;

/// Command: the account information is under the digest of the session's
/// own key.
pub const CMD_BY_SESSION_KEY: u16 = 11;

/// Command, outcome code and records of an exchange frame.
pub open spec fn exchange_frame(payload: Seq<u8>) -> Result<
    (u16, u8, Map<u16, Seq<u8>>),
    RQError,
> {
    if payload.len() < EXCHANGE_HEADER_LEN {
        Err(decode_error(Phase::Exchange, Field::Frame))
    } else {
        match scan_from(payload, EXCHANGE_HEADER_LEN as int, TagWidth::Two, Map::empty()) {
            None => Err(decode_error(Phase::Exchange, Field::Records)),
            Some(m) => Ok((be16(payload, 0) as u16, payload[2], m)),
        }
    }
}

/// The root secret under which the account information of a frame with
/// command `cmd` stands, where the command is one that renews keys.
pub open spec fn exchange_secret(cmd: u16, c: SessionCacheView, d: DeviceIdentityView) -> Option<
    Seq<u8>,
> {
    if cmd == CMD_BY_ROOT_SECRET {
        Some(d.tgtgt_key)
    } else if cmd == CMD_BY_SESSION_KEY {
        Some(md5_digest(c.sig.d2key))
    } else {
        None
    }
}

/// What the exchange frame `payload` yields for a session in state `c`:
/// the renewed session, or `None` where the frame renews nothing, because
/// its outcome code is not zero or its command is not one that renews keys.
pub open spec fn exchange_result(
    payload: Seq<u8>,
    c: SessionCacheView,
    d: DeviceIdentityView,
) -> Result<Option<SessionCacheView>, RQError> {
    match exchange_frame(payload) {
        Err(e) => Err(e),
        Ok((cmd, t, m)) => if t != 0 || exchange_secret(cmd, c, d) is None {
            Ok(None)
        } else if !m.contains_key(T119) {
            Err(decode_error(Phase::Exchange, Field::Tag(T119)))
        } else {
            match derived(m[T119], exchange_secret(cmd, c, d)->0) {
                Err(e) => Err(e),
                Ok(k) => Ok(Some(with_derived(c, k))),
            }
        },
    }
}

fn read_exchange_frame(payload: &[u8]) -> (r: Result<(u16, u8, TlvMap), RQError>)
    ensures
        match r {
            Ok((cmd, t, m)) => exchange_frame(payload@) == Ok::<
                (u16, u8, Map<u16, Seq<u8>>),
                RQError,
            >((cmd, t, m@)),
            Err(e) => exchange_frame(payload@) == Err::<(u16, u8, Map<u16, Seq<u8>>), RQError>(e),
        },
{
    let malformed = RQError::Decode { phase: Phase::Exchange, field: Field::Frame };
    let mut reader = Reader::new(payload);
    if reader.remaining() < EXCHANGE_HEADER_LEN {
        return Err(malformed);
    }
    let cmd = reader.get_u16().unwrap();
    let t = reader.get_u8().unwrap();
    reader.advance(2);
    match reader.read_tlv_map(TagWidth::Two) {
        Some(m) => Ok((cmd, t, m)),
        None => Err(RQError::Decode { phase: Phase::Exchange, field: Field::Records }),
    }
}

/// Decodes one exchange frame. Returns whether the session's keys were
/// renewed; on `false` and on an error the session is left as it was.
pub fn decode_exchange_emp_response(
    cache: &mut SessionCache,
    device: &DeviceIdentity,
    payload: &[u8],
) -> (r: Result<bool, RQError>)
    ensures
        match exchange_result(payload@, old(cache)@, device@) {
            Ok(Some(next)) => r matches Ok(true) && final(cache)@ == next,
            Ok(None) => r matches Ok(false) && final(cache)@ == old(cache)@,
            Err(e) => r matches Err(x) && x == e && final(cache)@ == old(cache)@,
        },
{
    let (cmd, t, m) = read_exchange_frame(payload)?;
    if t != 0 {
        return Ok(false);
    }
    if cmd == CMD_BY_ROOT_SECRET {
        let data = m.require(T119, Phase::Exchange)?;
        decode_t119(data.as_slice(), device.tgtgt_key.as_slice(), cache)?;
        Ok(true)
    } else if cmd == CMD_BY_SESSION_KEY {
        let data = m.require(T119, Phase::Exchange)?;
        let secret = md5_compute(cache.sig.d2key.as_slice());
        decode_t119(data.as_slice(), secret.as_slice(), cache)?;
        Ok(true)
    } else {
        Ok(false)
    }
}

} // verus!
