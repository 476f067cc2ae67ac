//! The decoder of group system messages: requests to join a group and
//! invitations of the account itself.

use crate::error::decode_error;
use crate::error::Field;
use crate::error::Phase;
use crate::error::RQError;
use crate::session::Engine;
use vstd::prelude::*;

verus! {

/// Sub-type of a system message: someone asks to join a group.
pub const SUB_TYPE_JOIN: i32 = 1;

/// Group message type: a request to join.
pub const GROUP_MSG_JOIN_REQUEST: i32 = 1;

/// Group message type: the account itself was invited.
pub const GROUP_MSG_SELF_INVITED: i32 = 2;

/// Group message type: a request to join that follows an invitation.
pub const GROUP_MSG_INVITED_JOIN: i32 = 22;

/// The body of an entry of a system-message frame.
#[derive(Clone, Debug, PartialEq, Eq)]
pub struct SystemMsg {
    pub sub_type: i32,
    pub group_msg_type: i32,
    pub msg_additional: String,
    pub req_uin_nick: String,
    pub group_code: i64,
    pub group_name: String,
    pub actor_uin: i64,
    pub actor_uin_nick: String,
    pub warning_tips: Vec<u8>,
    pub action_uin: i64,
    pub action_uin_nick: String,
    pub action_uin_qq_nick: String,
}

pub struct SystemMsgView {
    pub sub_type: i32,
    pub group_msg_type: i32,
    pub msg_additional: Seq<char>,
    pub req_uin_nick: Seq<char>,
    pub group_code: i64,
    pub group_name: Seq<char>,
    pub actor_uin: i64,
    pub actor_uin_nick: Seq<char>,
    pub warning_tips: Seq<u8>,
    pub action_uin: i64,
    pub action_uin_nick: Seq<char>,
    pub action_uin_qq_nick: Seq<char>,
}

impl View for SystemMsg {
    type V = SystemMsgView;

    open spec fn view(&self) -> SystemMsgView {
        SystemMsgView {
            sub_type: self.sub_type,
            group_msg_type: self.group_msg_type,
            msg_additional: self.msg_additional@,
            req_uin_nick: self.req_uin_nick@,
            group_code: self.group_code,
            group_name: self.group_name@,
            actor_uin: self.actor_uin,
            actor_uin_nick: self.actor_uin_nick@,
            warning_tips: self.warning_tips@,
            action_uin: self.action_uin,
            action_uin_nick: self.action_uin_nick@,
            action_uin_qq_nick: self.action_uin_qq_nick@,
        }
    }
}

/// An entry of a system-message frame.
#[derive(Clone, Debug, PartialEq, Eq)]
pub struct StructMsg {
    pub msg_seq: i64,
    pub req_uin: i64,
    pub msg: Option<SystemMsg>,
}

pub struct StructMsgView {
    pub msg_seq: i64,
    pub req_uin: i64,
    pub msg: Option<SystemMsgView>,
}

impl View for StructMsg {
    type V = StructMsgView;

    open spec fn view(&self) -> StructMsgView {
        StructMsgView {
            msg_seq: self.msg_seq,
            req_uin: self.req_uin,
            msg: match self.msg {
                Some(m) => Some(m@),
                None => None,
            },
        }
    }
}

/// A system-message frame, decoded.
#[derive(Clone, Debug, PartialEq, Eq)]
pub struct RspSystemMsgNew {
    pub groupmsgs: Vec<StructMsg>,
}

impl View for RspSystemMsgNew {
    type V = Seq<StructMsgView>;

    open spec fn view(&self) -> Seq<StructMsgView> {
        Seq::new(self.groupmsgs@.len(), |i: int| self.groupmsgs@[i]@)
    }
}

/// Someone asks to join a group.
#[derive(Clone, Debug, PartialEq, Eq)]
pub struct JoinGroupRequest {
    pub msg_seq: i64,
    pub message: String,
    pub req_uin: i64,
    pub req_nick: String,
    pub group_code: i64,
    pub group_name: String,
    pub actor_uin: i64,
    /// Whether the server warns of the requester.
    pub suspicious: bool,
    pub invitor_uin: Option<i64>,
    pub invitor_nick: Option<String>,
}

pub struct JoinGroupRequestView {
    pub msg_seq: i64,
    pub message: Seq<char>,
    pub req_uin: i64,
    pub req_nick: Seq<char>,
    pub group_code: i64,
    pub group_name: Seq<char>,
    pub actor_uin: i64,
    pub suspicious: bool,
    pub invitor_uin: Option<i64>,
    pub invitor_nick: Option<Seq<char>>,
}

impl View for JoinGroupRequest {
    type V = JoinGroupRequestView;

    open spec fn view(&self) -> JoinGroupRequestView {
        JoinGroupRequestView {
            msg_seq: self.msg_seq,
            message: self.message@,
            req_uin: self.req_uin,
            req_nick: self.req_nick@,
            group_code: self.group_code,
            group_name: self.group_name@,
            actor_uin: self.actor_uin,
            suspicious: self.suspicious,
            invitor_uin: self.invitor_uin,
            invitor_nick: match self.invitor_nick {
                Some(s) => Some(s@),
                None => None,
            },
        }
    }
}

/// The account itself was invited to a group.
#[derive(Clone, Debug, PartialEq, Eq)]
pub struct SelfInvited {
    pub msg_seq: i64,
    pub invitor_uin: i64,
    pub invitor_nick: String,
    pub group_code: i64,
    pub group_name: String,
    pub actor_uin: i64,
    pub actor_nick: String,
}

pub struct SelfInvitedView {
    pub msg_seq: i64,
    pub invitor_uin: i64,
    pub invitor_nick: Seq<char>,
    pub group_code: i64,
    pub group_name: Seq<char>,
    pub actor_uin: i64,
    pub actor_nick: Seq<char>,
}

impl View for SelfInvited {
    type V = SelfInvitedView;

    open spec fn view(&self) -> SelfInvitedView {
        SelfInvitedView {
            msg_seq: self.msg_seq,
            invitor_uin: self.invitor_uin,
            invitor_nick: self.invitor_nick@,
            group_code: self.group_code,
            group_name: self.group_name@,
            actor_uin: self.actor_uin,
            actor_nick: self.actor_nick@,
        }
    }
}

/// What a system-message frame holds.
#[derive(Clone, Debug, PartialEq, Eq)]
pub struct GroupSystemMessages {
    pub self_invited: Vec<SelfInvited>,
    pub join_group_requests: Vec<JoinGroupRequest>,
}

pub struct GroupSystemMessagesView {
    pub self_invited: Seq<SelfInvitedView>,
    pub join_group_requests: Seq<JoinGroupRequestView>,
}

impl View for GroupSystemMessages {
    type V = GroupSystemMessagesView;

    open spec fn view(&self) -> GroupSystemMessagesView {
        GroupSystemMessagesView {
            self_invited: Seq::new(self.self_invited@.len(), |i: int| self.self_invited@[i]@),
            join_group_requests: Seq::new(
                self.join_group_requests@.len(),
                |i: int| self.join_group_requests@[i]@,
            ),
        }
    }
}

/// The request to join that an entry holds: its body has the sub-type of a
/// join and the message type of a request, with or without an invitor. The
/// request is suspicious exactly where the body carries a warning.
pub open spec fn join_request(st: StructMsgView) -> Option<JoinGroupRequestView> {
    match st.msg {
        Some(m) => if m.sub_type == SUB_TYPE_JOIN && (m.group_msg_type == GROUP_MSG_JOIN_REQUEST
            || m.group_msg_type == GROUP_MSG_INVITED_JOIN) {
            let invited = m.group_msg_type == GROUP_MSG_INVITED_JOIN;
            Some(
                JoinGroupRequestView {
                    msg_seq: st.msg_seq,
                    message: m.msg_additional,
                    req_uin: st.req_uin,
                    req_nick: m.req_uin_nick,
                    group_code: m.group_code,
                    group_name: m.group_name,
                    actor_uin: m.actor_uin,
                    suspicious: m.warning_tips.len() > 0,
                    invitor_uin: if invited {
                        Some(m.action_uin)
                    } else {
                        None
                    },
                    invitor_nick: if invited {
                        Some(m.action_uin_qq_nick)
                    } else {
                        None
                    },
                },
            )
        } else {
            None
        },
        None => None,
    }
}

/// The invitation of the account that an entry holds.
pub open spec fn self_invite(st: StructMsgView) -> Option<SelfInvitedView> {
    match st.msg {
        Some(m) => if m.sub_type == SUB_TYPE_JOIN && m.group_msg_type == GROUP_MSG_SELF_INVITED {
            Some(
                SelfInvitedView {
                    msg_seq: st.msg_seq,
                    invitor_uin: m.action_uin,
                    invitor_nick: m.action_uin_nick,
                    group_code: m.group_code,
                    group_name: m.group_name,
                    actor_uin: m.actor_uin,
                    actor_nick: m.actor_uin_nick,
                },
            )
        } else {
            None
        },
        None => None,
    }
}

/// The requests to join among the first `n` entries, in their order.
pub open spec fn join_requests(msgs: Seq<StructMsgView>, n: nat) -> Seq<JoinGroupRequestView>
    decreases n,
{
    if n == 0 {
        Seq::empty()
    } else {
        let before = join_requests(msgs, (n - 1) as nat);
        match join_request(msgs[n - 1]) {
            Some(r) => before.push(r),
            None => before,
        }
    }
}

/// The invitations of the account among the first `n` entries, in their
/// order.
pub open spec fn self_invites(msgs: Seq<StructMsgView>, n: nat) -> Seq<SelfInvitedView>
    decreases n,
{
    if n == 0 {
        Seq::empty()
    } else {
        let before = self_invites(msgs, (n - 1) as nat);
        match self_invite(msgs[n - 1]) {
            Some(r) => before.push(r),
            None => before,
        }
    }
}

/// What a frame holds that decoded to `rsp`; an error where it did not
/// decode.
pub open spec fn system_messages(rsp: Option<Seq<StructMsgView>>) -> Result<
    GroupSystemMessagesView,
    RQError,
> {
    match rsp {
        Some(msgs) => Ok(
            GroupSystemMessagesView {
                self_invited: self_invites(msgs, msgs.len()),
                join_group_requests: join_requests(msgs, msgs.len()),
            },
        ),
        None => Err(decode_error(Phase::SystemMessage, Field::Frame)),
    }
}

/// The entries of a frame that decoded.
pub open spec fn frame_view(rsp: Option<RspSystemMsgNew>) -> Option<Seq<StructMsgView>> {
    match rsp {
        Some(x) => Some(x@),
        None => None,
    }
}

fn join_request_of(st: &StructMsg) -> (r: Option<JoinGroupRequest>)
    ensures
        match r {
            Some(x) => join_request(st@) == Some(x@),
            None => join_request(st@) is None,
        },
{
    match &st.msg {
        Some(m) => {
            if m.sub_type != SUB_TYPE_JOIN {
                return None;
            }
            let invited = m.group_msg_type == GROUP_MSG_INVITED_JOIN;
            if !invited && m.group_msg_type != GROUP_MSG_JOIN_REQUEST {
                return None;
            }
            Some(
                JoinGroupRequest {
                    msg_seq: st.msg_seq,
                    message: m.msg_additional.clone(),
                    req_uin: st.req_uin,
                    req_nick: m.req_uin_nick.clone(),
                    group_code: m.group_code,
                    group_name: m.group_name.clone(),
                    actor_uin: m.actor_uin,
                    suspicious: m.warning_tips.len() > 0,
                    invitor_uin: if invited {
                        Some(m.action_uin)
                    } else {
                        None
                    },
                    invitor_nick: if invited {
                        Some(m.action_uin_qq_nick.clone())
                    } else {
                        None
                    },
                },
            )
        },
        None => None,
    }
}

fn self_invite_of(st: &StructMsg) -> (r: Option<SelfInvited>)
    ensures
        match r {
            Some(x) => self_invite(st@) == Some(x@),
            None => self_invite(st@) is None,
        },
{
    match &st.msg {
        Some(m) => {
            if m.sub_type != SUB_TYPE_JOIN || m.group_msg_type != GROUP_MSG_SELF_INVITED {
                return None;
            }
            Some(
                SelfInvited {
                    msg_seq: st.msg_seq,
                    invitor_uin: m.action_uin,
                    invitor_nick: m.action_uin_nick.clone(),
                    group_code: m.group_code,
                    group_name: m.group_name.clone(),
                    actor_uin: m.actor_uin,
                    actor_nick: m.actor_uin_nick.clone(),
                },
            )
        },
        None => None,
    }
}

impl Engine {
    /// Reads the requests and invitations out of a system-message frame.
    /// `rsp` is the frame as it decoded, `None` where it did not. Entries
    /// without a body, and bodies of any other type, are passed over.
    pub fn decode_system_msg_group_packet(&self, rsp: Option<RspSystemMsgNew>) -> (r: Result<
        GroupSystemMessages,
        RQError,
    >)
        ensures
            match system_messages(frame_view(rsp)) {
                Ok(g) => r matches Ok(x) && x@ == g,
                Err(e) => r matches Err(x) && x == e,
            },
    {
        let rsp = match rsp {
            Some(x) => x,
            None => {
                return Err(
                    RQError::Decode { phase: Phase::SystemMessage, field: Field::Frame },
                );
            },
        };
        let mut join_group_requests: Vec<JoinGroupRequest> = Vec::new();
        let mut self_invited: Vec<SelfInvited> = Vec::new();
        let n = rsp.groupmsgs.len();
        let mut i: usize = 0;
        while i < n
            invariant
                i <= n,
                n == rsp.groupmsgs@.len(),
                rsp@.len() == n,
                Seq::new(join_group_requests@.len(), |k: int| join_group_requests@[k]@)
                    == join_requests(rsp@, i as nat),
                Seq::new(self_invited@.len(), |k: int| self_invited@[k]@) == self_invites(
                    rsp@,
                    i as nat,
                ),
            decreases n - i,
        {
            let st = &rsp.groupmsgs[i];
            assert(st@ == rsp@[i as int]);
            let ghost joins = Seq::new(
                join_group_requests@.len(),
                |k: int| join_group_requests@[k]@,
            );
            let ghost invites = Seq::new(self_invited@.len(), |k: int| self_invited@[k]@);
            match join_request_of(st) {
                Some(r) => {
                    join_group_requests.push(r);
                    assert(Seq::new(join_group_requests@.len(), |k: int| join_group_requests@[k]@)
                        =~= joins.push(r@));
                },
                None => {},
            }
            match self_invite_of(st) {
                Some(r) => {
                    self_invited.push(r);
                    assert(Seq::new(self_invited@.len(), |k: int| self_invited@[k]@)
                        =~= invites.push(r@));
                },
                None => {},
            }
            i = i + 1;
        }
        Ok(GroupSystemMessages { self_invited, join_group_requests })
    }
}

/// A request to join is suspicious exactly where its body carries a
/// warning.
pub proof fn lemma_suspicious_iff_warning(st: StructMsgView)
    requires
        join_request(st) is Some,
    ensures
        join_request(st)->0.suspicious <==> st.msg->0.warning_tips.len() > 0,
{
}

/// A frame of one entry that asks to join yields that one request and no
/// invitation.
pub proof fn lemma_one_join_request(st: StructMsgView)
    requires
        st.msg matches Some(m) && m.sub_type == SUB_TYPE_JOIN && m.group_msg_type
            == GROUP_MSG_JOIN_REQUEST,
    ensures
        system_messages(Some(seq![st])) == Ok::<GroupSystemMessagesView, RQError>(
            GroupSystemMessagesView {
                self_invited: Seq::empty(),
                join_group_requests: seq![join_request(st)->0],
            },
        ),
{
    let msgs = seq![st];
    assert(join_requests(msgs, 0) == Seq::<JoinGroupRequestView>::empty());
    assert(self_invites(msgs, 0) == Seq::<SelfInvitedView>::empty());
    assert(msgs[0] == st);
    assert(join_requests(msgs, 1) =~= seq![join_request(st)->0]);
    assert(self_invites(msgs, 1) =~= Seq::<SelfInvitedView>::empty());
}

/// Entries of any sub-type but that of a join yield nothing, however many
/// they are.
pub proof fn lemma_other_sub_types_yield_nothing(msgs: Seq<StructMsgView>, n: nat)
    requires
        n <= msgs.len(),
        forall|i: int|
            0 <= i < msgs.len() && (#[trigger] msgs[i]).msg is Some ==> msgs[i].msg->0.sub_type
                != SUB_TYPE_JOIN,
    ensures
        join_requests(msgs, n) == Seq::<JoinGroupRequestView>::empty(),
        self_invites(msgs, n) == Seq::<SelfInvitedView>::empty(),
    decreases n,
{
    if n > 0 {
        lemma_other_sub_types_yield_nothing(msgs, (n - 1) as nat);
        assert(join_request(msgs[n - 1]) is None);
        assert(self_invite(msgs[n - 1]) is None);
    }
}

} // verus!
