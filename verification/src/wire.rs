//! The message segments of the wire.
//!
//! A message on the wire is a sequence of segments, each of one kind. The
//! kinds that the element codec reads are held field by field; every other
//! kind is held as its encoded bytes. Two payloads that are themselves
//! encoded structures, the reserved attribute of a text and the payload of
//! a common segment, stand here beside what they decode to.

use crate::binary::opt_bytes;
use vstd::prelude::*;

verus! {

/// The text of an optional string.
pub open spec fn opt_text(v: Option<String>) -> Option<Seq<char>> {
    match v {
        Some(s) => Some(s@),
        None => None,
    }
}

/// Where an at-mention of a guild channel points.
#[derive(Clone, Copy, Debug, PartialEq, Eq, Structural)]
pub struct AtChannelInfo {
    pub channel_id: Option<u64>,
}

/// What the reserved attribute of a text segment decodes to.
#[derive(Clone, Copy, Debug, PartialEq, Eq, Structural)]
pub struct TextResvAttr {
    pub at_type: Option<u32>,
    pub at_member_tinyid: Option<u64>,
    pub at_channel_info: Option<AtChannelInfo>,
}

/// A text segment.
#[derive(Clone, Debug, PartialEq, Eq)]
pub struct Text {
    pub str: Option<String>,
    pub link: Option<String>,
    /// Positional attribute of an at-mention.
    pub attr6_buf: Option<Vec<u8>>,
    pub attr7_buf: Option<Vec<u8>>,
    pub buf: Option<Vec<u8>>,
    /// Reserved attribute, encoded.
    pub pb_reserve: Option<Vec<u8>>,
    /// What `pb_reserve` decodes to, where it decodes.
    pub resv_attr: Option<TextResvAttr>,
}

pub struct TextView {
    pub str: Option<Seq<char>>,
    pub link: Option<Seq<char>>,
    pub attr6_buf: Option<Seq<u8>>,
    pub attr7_buf: Option<Seq<u8>>,
    pub buf: Option<Seq<u8>>,
    pub pb_reserve: Option<Seq<u8>>,
    pub resv_attr: Option<TextResvAttr>,
}

impl View for Text {
    type V = TextView;

    open spec fn view(&self) -> TextView {
        TextView {
            str: opt_text(self.str),
            link: opt_text(self.link),
            attr6_buf: opt_bytes(self.attr6_buf),
            attr7_buf: opt_bytes(self.attr7_buf),
            buf: opt_bytes(self.buf),
            pb_reserve: opt_bytes(self.pb_reserve),
            resv_attr: self.resv_attr,
        }
    }
}

/// A classic emoji segment.
#[derive(Clone, Debug, PartialEq, Eq)]
pub struct Face {
    pub index: Option<i32>,
    pub old: Option<Vec<u8>>,
    pub buf: Option<Vec<u8>>,
}

pub struct FaceView {
    pub index: Option<i32>,
    pub old: Option<Seq<u8>>,
    pub buf: Option<Seq<u8>>,
}

impl View for Face {
    type V = FaceView;

    open spec fn view(&self) -> FaceView {
        FaceView { index: self.index, old: opt_bytes(self.old), buf: opt_bytes(self.buf) }
    }
}

/// The structured emoji that the payload of a common segment may hold.
#[derive(Clone, Debug, PartialEq, Eq)]
pub struct MsgElemInfoServtype33 {
    pub index: Option<u32>,
    pub text: Option<Vec<u8>>,
    pub compat: Option<Vec<u8>>,
    pub buf: Option<Vec<u8>>,
}

pub struct MsgElemInfoServtype33View {
    pub index: Option<u32>,
    pub text: Option<Seq<u8>>,
    pub compat: Option<Seq<u8>>,
    pub buf: Option<Seq<u8>>,
}

impl View for MsgElemInfoServtype33 {
    type V = MsgElemInfoServtype33View;

    open spec fn view(&self) -> MsgElemInfoServtype33View {
        MsgElemInfoServtype33View {
            index: self.index,
            text: opt_bytes(self.text),
            compat: opt_bytes(self.compat),
            buf: opt_bytes(self.buf),
        }
    }
}

/// A common segment: a service type and a payload in that service's own
/// encoding.
#[derive(Clone, Debug, PartialEq, Eq)]
pub struct CommonElem {
    pub service_type: Option<i32>,
    /// The payload as it came from the wire; `None` in a segment that was
    /// made here and has not been encoded yet.
    pub pb_elem: Option<Vec<u8>>,
    pub business_type: Option<i32>,
    /// The structured emoji that the payload holds, where it holds one.
    pub new_face: Option<MsgElemInfoServtype33>,
}

pub struct CommonElemView {
    pub service_type: Option<i32>,
    pub pb_elem: Option<Seq<u8>>,
    pub business_type: Option<i32>,
    pub new_face: Option<MsgElemInfoServtype33View>,
}

impl View for CommonElem {
    type V = CommonElemView;

    open spec fn view(&self) -> CommonElemView {
        CommonElemView {
            service_type: self.service_type,
            pb_elem: opt_bytes(self.pb_elem),
            business_type: self.business_type,
            new_face: match self.new_face {
                Some(f) => Some(f@),
                None => None,
            },
        }
    }
}

/// A quote of an earlier message.
#[derive(Debug, PartialEq, Eq)]
pub struct SourceMsg {
    /// Sequence numbers of the quoted message.
    pub orig_seqs: Vec<i32>,
    pub sender_uin: Option<i64>,
    pub time: Option<i32>,
    pub flag: Option<i32>,
    /// Segments of the quoted message.
    pub elems: Vec<Elem>,
    pub msg_type: Option<i32>,
    pub rich_msg: Option<Vec<u8>>,
    pub pb_reserve: Option<Vec<u8>>,
    pub src_msg: Option<Vec<u8>>,
    pub to_uin: Option<i64>,
    pub troop_name: Option<Vec<u8>>,
}

pub struct SourceMsgView {
    pub orig_seqs: Seq<i32>,
    pub sender_uin: Option<i64>,
    pub time: Option<i32>,
    pub flag: Option<i32>,
    pub elems: Seq<ElemView>,
    pub msg_type: Option<i32>,
    pub rich_msg: Option<Seq<u8>>,
    pub pb_reserve: Option<Seq<u8>>,
    pub src_msg: Option<Seq<u8>>,
    pub to_uin: Option<i64>,
    pub troop_name: Option<Seq<u8>>,
}

/// The kinds of segment that are held as encoded bytes.
#[derive(Clone, Copy, Debug, PartialEq, Eq, Structural)]
pub enum OtherKind {
    OnlineImage,
    NotOnlineImage,
    TransElemInfo,
    MarketFace,
    CustomFace,
    ElemFlags2,
    RichMsg,
    GroupFile,
    ExtraInfo,
    VideoFile,
    AnonGroupMsg,
    QqWalletMsg,
    CustomElem,
    GeneralFlags,
    LightApp,
}

/// The content of a segment.
#[derive(Debug, PartialEq, Eq)]
pub enum ElemKind {
    Text(Text),
    Face(Face),
    SrcMsg(SourceMsg),
    CommonElem(CommonElem),
    /// A segment of another kind, as its encoded bytes.
    Other { kind: OtherKind, body: Vec<u8> },
}

pub enum ElemKindView {
    Text(TextView),
    Face(FaceView),
    SrcMsg(SourceMsgView),
    CommonElem(CommonElemView),
    Other { kind: OtherKind, body: Seq<u8> },
}

/// One segment of a message; empty where the wire held a segment without
/// content.
#[derive(Debug, PartialEq, Eq)]
pub struct Elem {
    pub elem: Option<ElemKind>,
}

pub struct ElemView {
    pub elem: Option<ElemKindView>,
}

/// The view of a quote.
pub open spec fn source_msg_view(s: SourceMsg) -> SourceMsgView
    decreases s,
{
    SourceMsgView {
        orig_seqs: s.orig_seqs@,
        sender_uin: s.sender_uin,
        time: s.time,
        flag: s.flag,
        elems: Seq::new(
            s.elems@.len(),
            |i: int|
                if 0 <= i < s.elems@.len() {
                    elem_view(s.elems@[i])
                } else {
                    ElemView { elem: None }
                },
        ),
        msg_type: s.msg_type,
        rich_msg: opt_bytes(s.rich_msg),
        pb_reserve: opt_bytes(s.pb_reserve),
        src_msg: opt_bytes(s.src_msg),
        to_uin: s.to_uin,
        troop_name: opt_bytes(s.troop_name),
    }
}

/// The view of a segment's content.
pub open spec fn elem_kind_view(k: ElemKind) -> ElemKindView
    decreases k,
{
    match k {
        ElemKind::Text(t) => ElemKindView::Text(t@),
        ElemKind::Face(f) => ElemKindView::Face(f@),
        ElemKind::SrcMsg(s) => ElemKindView::SrcMsg(source_msg_view(s)),
        ElemKind::CommonElem(c) => ElemKindView::CommonElem(c@),
        ElemKind::Other { kind, body } => ElemKindView::Other { kind, body: body@ },
    }
}

/// The view of a segment.
pub open spec fn elem_view(e: Elem) -> ElemView
    decreases e,
{
    ElemView {
        elem: match e.elem {
            Some(k) => Some(elem_kind_view(k)),
            None => None,
        },
    }
}

impl View for SourceMsg {
    type V = SourceMsgView;

    open spec fn view(&self) -> SourceMsgView {
        source_msg_view(*self)
    }
}

impl View for ElemKind {
    type V = ElemKindView;

    open spec fn view(&self) -> ElemKindView {
        elem_kind_view(*self)
    }
}

impl View for Elem {
    type V = ElemView;

    open spec fn view(&self) -> ElemView {
        elem_view(*self)
    }
}

/// The segments of a quote's view are the views of its segments.
pub proof fn lemma_quoted_views(s: SourceMsg)
    ensures
        s@.elems == views(s.elems@),
        s@.orig_seqs == s.orig_seqs@,
        s@.sender_uin == s.sender_uin,
        s@.to_uin == s.to_uin,
        s@.time == s.time,
{
    assert(s@.elems =~= views(s.elems@));
}

/// The views of a sequence of segments.
pub open spec fn views(elems: Seq<Elem>) -> Seq<ElemView> {
    Seq::new(elems.len(), |i: int| elems[i]@)
}

} // verus!
