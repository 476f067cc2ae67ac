//! The records that a login flow reads and updates.

use vstd::prelude::*;

verus! {

/// The identity of one installation.
#[derive(Clone, Debug, PartialEq, Eq)]
pub struct DeviceIdentity {
    /// Stable identifier of the installation.
    pub guid: Vec<u8>,
    /// Root secret, by which account information is deciphered.
    pub tgtgt_key: Vec<u8>,
}

pub struct DeviceIdentityView {
    pub guid: Seq<u8>,
    pub tgtgt_key: Seq<u8>,
}

impl View for DeviceIdentity {
    type V = DeviceIdentityView;

    open spec fn view(&self) -> DeviceIdentityView {
        DeviceIdentityView { guid: self.guid@, tgtgt_key: self.tgtgt_key@ }
    }
}

/// The long-term keys of a session.
#[derive(Clone, Debug, PartialEq, Eq)]
pub struct SigInfo {
    pub tgt: Vec<u8>,
    pub tgt_key: Vec<u8>,
    pub user_st_key: Vec<u8>,
    pub s_key: Vec<u8>,
    pub d2: Vec<u8>,
    pub d2key: Vec<u8>,
}

pub struct SigInfoView {
    pub tgt: Seq<u8>,
    pub tgt_key: Seq<u8>,
    pub user_st_key: Seq<u8>,
    pub s_key: Seq<u8>,
    pub d2: Seq<u8>,
    pub d2key: Seq<u8>,
}

impl View for SigInfo {
    type V = SigInfoView;

    open spec fn view(&self) -> SigInfoView {
        SigInfoView {
            tgt: self.tgt@,
            tgt_key: self.tgt_key@,
            user_st_key: self.user_st_key@,
            s_key: self.s_key@,
            d2: self.d2@,
            d2key: self.d2key@,
        }
    }
}

/// The account that a session belongs to.
#[derive(Clone, Debug, PartialEq, Eq)]
pub struct AccountInfo {
    pub uin: i64,
    pub nickname: String,
    pub age: u8,
    pub gender: u8,
}

pub struct AccountInfoView {
    pub uin: i64,
    pub nickname: Seq<char>,
    pub age: u8,
    pub gender: u8,
}

impl View for AccountInfo {
    type V = AccountInfoView;

    open spec fn view(&self) -> AccountInfoView {
        AccountInfoView {
            uin: self.uin,
            nickname: self.nickname@,
            age: self.age,
            gender: self.gender,
        }
    }
}

/// The state of one session, kept across the frames of a login flow.
#[derive(Clone, Debug, PartialEq, Eq)]
pub struct SessionCache {
    /// Random display token of the session.
    pub dpwd: Vec<u8>,
    /// Payload that came with the display token.
    pub t402: Vec<u8>,
    /// Digest over device identifier, display token and its payload.
    pub g: Vec<u8>,
    /// Signature blobs, each kept for the next request of the flow.
    pub t104: Vec<u8>,
    pub t174: Vec<u8>,
    pub rand_seed: Vec<u8>,
    pub t150: Vec<u8>,
    pub rollback_sig: Vec<u8>,
    /// Session keys, once login has succeeded.
    pub sig: SigInfo,
    /// Account identity.
    pub account: AccountInfo,
}

pub struct SessionCacheView {
    pub dpwd: Seq<u8>,
    pub t402: Seq<u8>,
    pub g: Seq<u8>,
    pub t104: Seq<u8>,
    pub t174: Seq<u8>,
    pub rand_seed: Seq<u8>,
    pub t150: Seq<u8>,
    pub rollback_sig: Seq<u8>,
    pub sig: SigInfoView,
    pub account: AccountInfoView,
}

impl View for SessionCache {
    type V = SessionCacheView;

    open spec fn view(&self) -> SessionCacheView {
        SessionCacheView {
            dpwd: self.dpwd@,
            t402: self.t402@,
            g: self.g@,
            t104: self.t104@,
            t174: self.t174@,
            rand_seed: self.rand_seed@,
            t150: self.t150@,
            rollback_sig: self.rollback_sig@,
            sig: self.sig@,
            account: self.account@,
        }
    }
}

/// The protocol state of one connection: the session and the identity of
/// the device, in one record that a login flow holds exclusively.
#[derive(Clone, Debug, PartialEq, Eq)]
pub struct Engine {
    pub session: SessionCache,
    pub device: DeviceIdentity,
}

impl SigInfoView {
    /// No keys.
    pub open spec fn empty() -> Self {
        SigInfoView {
            tgt: Seq::empty(),
            tgt_key: Seq::empty(),
            user_st_key: Seq::empty(),
            s_key: Seq::empty(),
            d2: Seq::empty(),
            d2key: Seq::empty(),
        }
    }
}

impl SessionCacheView {
    /// Nothing stored, no keys, no identity.
    pub open spec fn empty() -> Self {
        SessionCacheView {
            dpwd: Seq::empty(),
            t402: Seq::empty(),
            g: Seq::empty(),
            t104: Seq::empty(),
            t174: Seq::empty(),
            rand_seed: Seq::empty(),
            t150: Seq::empty(),
            rollback_sig: Seq::empty(),
            sig: SigInfoView::empty(),
            account: AccountInfoView { uin: 0, nickname: Seq::empty(), age: 0, gender: 0 },
        }
    }
}

impl SigInfo {
    /// No keys.
    pub fn new() -> (r: Self)
        ensures
            r@ == SigInfoView::empty(),
    {
        SigInfo {
            tgt: Vec::new(),
            tgt_key: Vec::new(),
            user_st_key: Vec::new(),
            s_key: Vec::new(),
            d2: Vec::new(),
            d2key: Vec::new(),
        }
    }
}

impl SessionCache {
    /// The state of a session before its first frame.
    pub fn new() -> (r: Self)
        ensures
            r@ == SessionCacheView::empty(),
    {
        SessionCache {
            dpwd: Vec::new(),
            t402: Vec::new(),
            g: Vec::new(),
            t104: Vec::new(),
            t174: Vec::new(),
            rand_seed: Vec::new(),
            t150: Vec::new(),
            rollback_sig: Vec::new(),
            sig: SigInfo::new(),
            account: AccountInfo { uin: 0, nickname: String::new(), age: 0, gender: 0 },
        }
    }
}

} // verus!
