//! Key derivation: from the encrypted account information of a frame and a
//! root secret to the session keys and the profile of the account.

use crate::binary::text_at;
use crate::binary::Reader;
use crate::error::decode_error;
use crate::error::Field;
use crate::error::Phase;
use crate::error::RQError;
use crate::session::AccountInfoView;
use crate::session::SessionCache;
use crate::session::SessionCacheView;
use crate::session::SigInfo;
use crate::session::SigInfoView;
use crate::tags::T10A;
use crate::tags::T10D;
use crate::tags::T10E;
use crate::tags::T11A;
use crate::tags::T120;
use crate::tags::T143;
use crate::tags::T305;
use crate::tea::decrypt;
use crate::tea::decrypt_spec;
use crate::tea::key_from_bytes;
use crate::tea::key_of;
use crate::tea::KEY_LEN;
use crate::tlv::required;
use crate::tlv::scan_from;
use crate::tlv::TagWidth;
use crate::tlv::TlvMap;
use vstd::prelude::*;

verus! {

/// What the account information holds about the account's owner.
#[derive(Clone, Debug, PartialEq, Eq)]
pub struct Profile {
    pub nickname: String,
    pub age: u8,
    pub gender: u8,
}

pub struct ProfileView {
    pub nickname: Seq<char>,
    pub age: u8,
    pub gender: u8,
}

impl View for Profile {
    type V = ProfileView;

    open spec fn view(&self) -> ProfileView {
        ProfileView { nickname: self.nickname@, age: self.age, gender: self.gender }
    }
}

/// What key derivation yields.
#[derive(Clone, Debug, PartialEq, Eq)]
pub struct Derived {
    pub sig: SigInfo,
    pub profile: Profile,
}

pub struct DerivedView {
    pub sig: SigInfoView,
    pub profile: ProfileView,
}

impl View for Derived {
    type V = DerivedView;

    open spec fn view(&self) -> DerivedView {
        DerivedView { sig: self.sig@, profile: self.profile@ }
    }
}

/// The session keys among the records `m`. Each of the six is required; the
/// error names the first that is missing.
pub open spec fn keys_of(m: Map<u16, Seq<u8>>) -> Result<SigInfoView, RQError> {
    let phase = Phase::KeyDerivation;
    if !m.contains_key(T10A) {
        Err(decode_error(phase, Field::Tag(T10A)))
    } else if !m.contains_key(T10D) {
        Err(decode_error(phase, Field::Tag(T10D)))
    } else if !m.contains_key(T10E) {
        Err(decode_error(phase, Field::Tag(T10E)))
    } else if !m.contains_key(T120) {
        Err(decode_error(phase, Field::Tag(T120)))
    } else if !m.contains_key(T143) {
        Err(decode_error(phase, Field::Tag(T143)))
    } else if !m.contains_key(T305) {
        Err(decode_error(phase, Field::Tag(T305)))
    } else {
        Ok(
            SigInfoView {
                tgt: m[T10A],
                tgt_key: m[T10D],
                user_st_key: m[T10E],
                s_key: m[T120],
                d2: m[T143],
                d2key: m[T305],
            },
        )
    }
}

/// The profile that the bytes of a profile record hold: two bytes that are
/// passed over, age, gender, the length of the nickname and the nickname.
pub open spec fn profile_at(b: Seq<u8>) -> Option<ProfileView> {
    if b.len() < 5 {
        None
    } else {
        match text_at(b, 5, b[4] as int) {
            Some(t) => Some(ProfileView { nickname: t, age: b[2], gender: b[3] }),
            None => None,
        }
    }
}

/// The profile among the records `m`: empty where there is no profile
/// record, an error where the record is malformed.
pub open spec fn profile_of(m: Map<u16, Seq<u8>>) -> Result<ProfileView, RQError> {
    if !m.contains_key(T11A) {
        Ok(ProfileView { nickname: Seq::empty(), age: 0, gender: 0 })
    } else {
        match profile_at(m[T11A]) {
            Some(p) => Ok(p),
            None => Err(decode_error(Phase::KeyDerivation, Field::Tag(T11A))),
        }
    }
}

/// What `data` yields under the root secret `ek`. The secret has sixteen
/// bytes; the plain text is two bytes that are passed over, then records
/// with 2-byte tags.
pub open spec fn derived(data: Seq<u8>, ek: Seq<u8>) -> Result<DerivedView, RQError> {
    let phase = Phase::KeyDerivation;
    if ek.len() != KEY_LEN {
        Err(decode_error(phase, Field::RootSecret))
    } else {
        match decrypt_spec(data, key_of(ek)) {
            None => Err(decode_error(phase, Field::Ciphertext)),
            Some(plain) => if plain.len() < 2 {
                Err(decode_error(phase, Field::Frame))
            } else {
                match scan_from(plain, 2, TagWidth::Two, Map::empty()) {
                    None => Err(decode_error(phase, Field::Records)),
                    Some(m) => match keys_of(m) {
                        Err(e) => Err(e),
                        Ok(sig) => match profile_of(m) {
                            Err(e) => Err(e),
                            Ok(profile) => Ok(DerivedView { sig, profile }),
                        },
                    },
                }
            },
        }
    }
}

/// The session `c` with the keys and the profile of `d` taken in. The
/// account number stays.
pub open spec fn with_derived(c: SessionCacheView, d: DerivedView) -> SessionCacheView {
    SessionCacheView {
        sig: d.sig,
        account: AccountInfoView {
            uin: c.account.uin,
            nickname: d.profile.nickname,
            age: d.profile.age,
            gender: d.profile.gender,
        },
        ..c
    }
}

fn read_keys(m: &TlvMap) -> (r: Result<SigInfo, RQError>)
    ensures
        match r {
            Ok(s) => keys_of(m@) == Ok::<SigInfoView, RQError>(s@),
            Err(e) => keys_of(m@) == Err::<SigInfoView, RQError>(e),
        },
{
    let tgt = m.require(T10A, Phase::KeyDerivation)?;
    let tgt_key = m.require(T10D, Phase::KeyDerivation)?;
    let user_st_key = m.require(T10E, Phase::KeyDerivation)?;
    let s_key = m.require(T120, Phase::KeyDerivation)?;
    let d2 = m.require(T143, Phase::KeyDerivation)?;
    let d2key = m.require(T305, Phase::KeyDerivation)?;
    Ok(SigInfo { tgt, tgt_key, user_st_key, s_key, d2, d2key })
}

fn read_profile_record(b: &[u8]) -> (r: Option<Profile>)
    ensures
        match r {
            Some(p) => profile_at(b@) == Some(p@),
            None => profile_at(b@) is None,
        },
{
    let mut r = Reader::new(b);
    if !r.advance(2) {
        return None;
    }
    let age = r.get_u8()?;
    let gender = r.get_u8()?;
    let limit = r.get_u8()?;
    let nickname = r.read_string_limit(limit as usize)?;
    Some(Profile { nickname, age, gender })
}

fn read_profile(m: &TlvMap) -> (r: Result<Profile, RQError>)
    ensures
        match r {
            Ok(p) => profile_of(m@) == Ok::<ProfileView, RQError>(p@),
            Err(e) => profile_of(m@) == Err::<ProfileView, RQError>(e),
        },
{
    match m.get(T11A) {
        None => Ok(Profile { nickname: String::new(), age: 0, gender: 0 }),
        Some(b) => match read_profile_record(b.as_slice()) {
            Some(p) => Ok(p),
            None => Err(RQError::Decode { phase: Phase::KeyDerivation, field: Field::Tag(T11A) }),
        },
    }
}

/// Deciphers the account information `data` with the root secret `ek` and
/// reads the session keys and the profile from it.
pub fn derive_keys(data: &[u8], ek: &[u8]) -> (r: Result<Derived, RQError>)
    ensures
        match r {
            Ok(d) => derived(data@, ek@) == Ok::<DerivedView, RQError>(d@),
            Err(e) => derived(data@, ek@) == Err::<DerivedView, RQError>(e),
        },
{
    let key = match key_from_bytes(ek) {
        Some(k) => k,
        None => {
            return Err(
                RQError::Decode { phase: Phase::KeyDerivation, field: Field::RootSecret },
            );
        },
    };
    let plain = match decrypt(data, &key) {
        Some(p) => p,
        None => {
            return Err(
                RQError::Decode { phase: Phase::KeyDerivation, field: Field::Ciphertext },
            );
        },
    };
    let mut reader = Reader::new(plain.as_slice());
    if !reader.advance(2) {
        return Err(RQError::Decode { phase: Phase::KeyDerivation, field: Field::Frame });
    }
    let m = match reader.read_tlv_map(TagWidth::Two) {
        Some(m) => m,
        None => {
            return Err(RQError::Decode { phase: Phase::KeyDerivation, field: Field::Records });
        },
    };
    let sig = read_keys(&m)?;
    let profile = read_profile(&m)?;
    Ok(Derived { sig, profile })
}

/// Derives keys and profile from `data` under `ek` and stores them in the
/// session. On an error the session is left as it was.
pub fn decode_t119(data: &[u8], ek: &[u8], cache: &mut SessionCache) -> (r: Result<(), RQError>)
    ensures
        match derived(data@, ek@) {
            Ok(d) => r is Ok && final(cache)@ == with_derived(old(cache)@, d),
            Err(e) => r == Err::<(), RQError>(e) && final(cache)@ == old(cache)@,
        },
{
    let d = derive_keys(data, ek)?;
    cache.sig = d.sig;
    cache.account.nickname = d.profile.nickname;
    cache.account.age = d.profile.age;
    cache.account.gender = d.profile.gender;
    Ok(())
}

} // verus!
