//! The elements of a message, and the codec between them and the segments
//! of the wire.
//!
//! Decoding is total: every segment is some element, and a segment of a kind
//! that has no element of its own is kept as it is. Encoding is partial: a
//! quote and the at-mentions of guilds have no encoding.

use crate::binary::be32;
use crate::binary::opt_bytes;
use crate::binary::put_slice;
use crate::binary::put_u16;
use crate::binary::put_u32;
use crate::binary::put_u8;
use crate::binary::signed32;
use crate::binary::u16_bytes;
use crate::binary::u32_bytes;
use crate::binary::Reader;
use crate::faces::display_name;
use crate::faces::face_name;
use crate::wire::CommonElem;
use crate::wire::CommonElemView;
use crate::wire::Elem;
use crate::wire::ElemKind;
use crate::wire::ElemKindView;
use crate::wire::ElemView;
use crate::wire::Face;
use crate::wire::FaceView;
use crate::wire::MsgElemInfoServtype33;
use crate::wire::MsgElemInfoServtype33View;
use crate::wire::SourceMsg;
use crate::wire::SourceMsgView;
use crate::wire::lemma_quoted_views;
use crate::wire::views;
use crate::wire::Text;
use crate::wire::TextResvAttr;
use crate::wire::TextView;
use vstd::prelude::*;
use vstd::string::StrSliceExecFns;
use vstd::utf8::encode_utf8;

verus! {

/// The offset of the target in the positional attribute of an at-mention.
pub const ATTR6_TARGET_AT: usize = 7;

/// The least length of a positional attribute that holds a target.
pub const ATTR6_MIN_LEN: usize = 11;

/// Reserved attribute: the mention is of a guild member.
pub const AT_TYPE_GUILD_MEMBER: u32 = 2;

/// Reserved attribute: the mention is of a guild channel.
pub const AT_TYPE_GUILD_CHANNEL: u32 = 4;

/// The first index of the emoji that are sent as structured emoji.
pub const NEW_FACE_FROM: i32 = 260;

/// What is added to the index of a classic emoji to give its legacy number.
pub const FACE_OLD_BASE: i32 = 0x1445 - 4;

/// The service type of a structured emoji.
pub const SERVICE_NEW_FACE: i32 = 33;

/// The business type of a structured emoji.
pub const BUSINESS_NEW_FACE: i32 = 1;

/// Whom an at-mention names.
#[derive(Clone, Copy, Debug, PartialEq, Eq, Structural)]
pub enum AtSubType {
    AtGroupMember,
    AtGuildMember,
    AtGuildChannel,
}

/// Plain text.
#[derive(Clone, Debug, PartialEq, Eq)]
pub struct TextElem {
    pub content: String,
}

pub struct TextElemView {
    pub content: Seq<char>,
}

impl View for TextElem {
    type V = TextElemView;

    open spec fn view(&self) -> TextElemView {
        TextElemView { content: self.content@ }
    }
}

/// An at-mention. Target zero names everyone.
#[derive(Clone, Debug, PartialEq, Eq)]
pub struct AtElem {
    pub target: i64,
    pub display: String,
    pub sub_type: AtSubType,
}

pub struct AtElemView {
    pub target: i64,
    pub display: Seq<char>,
    pub sub_type: AtSubType,
}

impl View for AtElem {
    type V = AtElemView;

    open spec fn view(&self) -> AtElemView {
        AtElemView { target: self.target, display: self.display@, sub_type: self.sub_type }
    }
}

/// An emoji.
#[derive(Clone, Debug, PartialEq, Eq)]
pub struct FaceElem {
    pub index: i32,
    pub name: String,
}

pub struct FaceElemView {
    pub index: i32,
    pub name: Seq<char>,
}

impl View for FaceElem {
    type V = FaceElemView;

    open spec fn view(&self) -> FaceElemView {
        FaceElemView { index: self.index, name: self.name@ }
    }
}

/// A quote of an earlier message.
#[derive(Debug, PartialEq)]
pub struct ReplyElem {
    pub reply_seq: i32,
    pub sender: i64,
    pub group_id: i64,
    pub time: i32,
    pub elements: Vec<MsgElem>,
}

pub struct ReplyElemView {
    pub reply_seq: i32,
    pub sender: i64,
    pub group_id: i64,
    pub time: i32,
    pub elements: Seq<MsgElemView>,
}

/// One element of a message.
#[derive(Debug, PartialEq)]
pub enum MsgElem {
    Text(TextElem),
    At(AtElem),
    Reply(ReplyElem),
    Face(FaceElem),
    /// A segment that has no element of its own, as it came.
    Other(ElemKind),
    /// A segment without content.
    Empty,
}

pub enum MsgElemView {
    Text(TextElemView),
    At(AtElemView),
    Reply(ReplyElemView),
    Face(FaceElemView),
    Other(ElemKindView),
    Empty,
}

/// The view of a quote.
pub open spec fn reply_view(r: ReplyElem) -> ReplyElemView
    decreases r,
{
    ReplyElemView {
        reply_seq: r.reply_seq,
        sender: r.sender,
        group_id: r.group_id,
        time: r.time,
        elements: Seq::new(
            r.elements@.len(),
            |i: int|
                if 0 <= i < r.elements@.len() {
                    msg_elem_view(r.elements@[i])
                } else {
                    MsgElemView::Empty
                },
        ),
    }
}

/// The view of an element.
pub open spec fn msg_elem_view(m: MsgElem) -> MsgElemView
    decreases m,
{
    match m {
        MsgElem::Text(t) => MsgElemView::Text(t@),
        MsgElem::At(a) => MsgElemView::At(a@),
        MsgElem::Reply(r) => MsgElemView::Reply(reply_view(r)),
        MsgElem::Face(f) => MsgElemView::Face(f@),
        MsgElem::Other(k) => MsgElemView::Other(k@),
        MsgElem::Empty => MsgElemView::Empty,
    }
}

impl View for ReplyElem {
    type V = ReplyElemView;

    open spec fn view(&self) -> ReplyElemView {
        reply_view(*self)
    }
}

impl View for MsgElem {
    type V = MsgElemView;

    open spec fn view(&self) -> MsgElemView {
        msg_elem_view(*self)
    }
}

/// The text of a text segment, empty where it has none.
pub open spec fn text_of(t: TextView) -> Seq<char> {
    match t.str {
        Some(s) => s,
        None => Seq::empty(),
    }
}

/// The bytes of an optional buffer, none where there is no buffer.
pub open spec fn bytes_of(b: Option<Seq<u8>>) -> Seq<u8> {
    match b {
        Some(s) => s,
        None => Seq::empty(),
    }
}

/// The number of an optional field, zero where it is not set.
pub open spec fn u32_of(v: Option<u32>) -> u32 {
    match v {
        Some(x) => x,
        None => 0,
    }
}

pub open spec fn u64_of(v: Option<u64>) -> u64 {
    match v {
        Some(x) => x,
        None => 0,
    }
}

pub open spec fn i32_of(v: Option<i32>) -> i32 {
    match v {
        Some(x) => x,
        None => 0,
    }
}

pub open spec fn i64_of(v: Option<i64>) -> i64 {
    match v {
        Some(x) => x,
        None => 0,
    }
}

/// The element of a plain text segment.
pub open spec fn text_elem(t: TextView) -> TextElemView {
    TextElemView { content: text_of(t) }
}

/// The mention that the reserved attribute `r` of a text `t` makes.
pub open spec fn guild_mention(t: TextView, r: TextResvAttr) -> Option<AtElemView> {
    if u32_of(r.at_type) == AT_TYPE_GUILD_MEMBER {
        Some(
            AtElemView {
                target: u64_of(r.at_member_tinyid) as i64,
                display: text_of(t),
                sub_type: AtSubType::AtGuildMember,
            },
        )
    } else if u32_of(r.at_type) == AT_TYPE_GUILD_CHANNEL {
        Some(
            AtElemView {
                target: u64_of(
                    match r.at_channel_info {
                        Some(c) => c.channel_id,
                        None => None,
                    },
                ) as i64,
                display: text_of(t),
                sub_type: AtSubType::AtGuildChannel,
            },
        )
    } else {
        None
    }
}

/// The mention that a text segment makes, where it makes one. A positional
/// attribute that is not empty decides alone: it names a group member where
/// it is long enough to hold the target, and makes the segment plain text
/// where it is not. Without it, a reserved attribute that is not empty and
/// decodes may name a guild member or a guild channel.
pub open spec fn mention(t: TextView) -> Option<AtElemView> {
    let attr6 = bytes_of(t.attr6_buf);
    if attr6.len() > 0 {
        if attr6.len() >= ATTR6_MIN_LEN {
            Some(
                AtElemView {
                    target: signed32(be32(attr6, ATTR6_TARGET_AT as int)) as i64,
                    display: text_of(t),
                    sub_type: AtSubType::AtGroupMember,
                },
            )
        } else {
            None
        }
    } else if bytes_of(t.pb_reserve).len() > 0 {
        match t.resv_attr {
            Some(r) => guild_mention(t, r),
            None => None,
        }
    } else {
        None
    }
}

/// The emoji with this index, named by the table.
pub open spec fn face_elem(index: i32) -> FaceElemView {
    FaceElemView { index, name: face_name(index) }
}

/// The element of a segment's content.
pub open spec fn decode_kind(k: ElemKindView) -> MsgElemView
    decreases k,
{
    match k {
        ElemKindView::Text(t) => match mention(t) {
            Some(at) => MsgElemView::At(at),
            None => MsgElemView::Text(text_elem(t)),
        },
        ElemKindView::SrcMsg(s) => if s.orig_seqs.len() > 0 {
            MsgElemView::Reply(
                ReplyElemView {
                    reply_seq: s.orig_seqs[0],
                    sender: i64_of(s.sender_uin),
                    group_id: i64_of(s.to_uin),
                    time: i32_of(s.time),
                    elements: Seq::new(
                        s.elems.len(),
                        |i: int|
                            if 0 <= i < s.elems.len() {
                                match s.elems[i].elem {
                                    Some(inner) => decode_kind(inner),
                                    None => MsgElemView::Empty,
                                }
                            } else {
                                MsgElemView::Empty
                            },
                    ),
                },
            )
        } else {
            MsgElemView::Other(k)
        },
        ElemKindView::Face(f) => MsgElemView::Face(face_elem(i32_of(f.index))),
        ElemKindView::CommonElem(c) => match c.new_face {
            Some(f) => MsgElemView::Face(face_elem(u32_of(f.index) as i32)),
            None => MsgElemView::Other(k),
        },
        ElemKindView::Other { kind, body } => MsgElemView::Other(k),
    }
}

/// The element of a segment.
pub open spec fn decode(e: ElemView) -> MsgElemView {
    match e.elem {
        Some(k) => decode_kind(k),
        None => MsgElemView::Empty,
    }
}

/// A text segment that holds `content` and nothing else.
pub open spec fn text_segment(content: Seq<char>) -> ElemView {
    ElemView {
        elem: Some(
            ElemKindView::Text(
                TextView {
                    str: Some(content),
                    link: None,
                    attr6_buf: None,
                    attr7_buf: None,
                    buf: None,
                    pb_reserve: None,
                    resv_attr: None,
                },
            ),
        ),
    }
}

/// The positional attribute of a mention of a group member: a marker, a
/// reserved number, the length of the display text, whether the mention is
/// of everyone, the target, and a reserved number.
pub open spec fn attr6_of(a: AtElemView) -> Seq<u8> {
    u16_bytes(1) + u16_bytes(0) + u16_bytes(a.display.len() as u16) + seq![
        if a.target == 0 {
            1u8
        } else {
            0u8
        },
    ] + u32_bytes(a.target as u32) + u16_bytes(0)
}

/// The text segment that carries a mention of a group member.
pub open spec fn at_segment(a: AtElemView) -> ElemView {
    ElemView {
        elem: Some(
            ElemKindView::Text(
                TextView {
                    str: Some(a.display),
                    link: None,
                    attr6_buf: Some(attr6_of(a)),
                    attr7_buf: None,
                    buf: None,
                    pb_reserve: None,
                    resv_attr: None,
                },
            ),
        ),
    }
}

/// The separator that follows a mention.
pub open spec fn separator() -> Seq<char> {
    " "@
}

/// The trailing marker of a classic emoji segment.
pub open spec fn face_marker() -> Seq<u8> {
    seq![0x00u8, 0x01u8, 0x00u8, 0x04u8, 0x52u8, 0xccu8, 0xf5u8, 0xd0u8]
}

/// The text that a structured emoji carries: a slash and the name.
pub open spec fn face_text(name: Seq<char>) -> Seq<u8> {
    seq![0x2fu8] + encode_utf8(name)
}

/// The segment of an emoji. From index 260 on it is a common segment with a
/// structured emoji, whose payload has yet to be encoded; below, a classic
/// emoji segment.
pub open spec fn face_segment(f: FaceElemView) -> ElemView {
    if f.index >= NEW_FACE_FROM {
        ElemView {
            elem: Some(
                ElemKindView::CommonElem(
                    CommonElemView {
                        service_type: Some(SERVICE_NEW_FACE),
                        pb_elem: None,
                        business_type: Some(BUSINESS_NEW_FACE),
                        new_face: Some(
                            MsgElemInfoServtype33View {
                                index: Some(f.index as u32),
                                text: Some(face_text(f.name)),
                                compat: Some(face_text(f.name)),
                                buf: None,
                            },
                        ),
                    },
                ),
            ),
        }
    } else {
        ElemView {
            elem: Some(
                ElemKindView::Face(
                    FaceView {
                        index: Some(f.index),
                        old: Some(u16_bytes((FACE_OLD_BASE + f.index) as u16)),
                        buf: Some(face_marker()),
                    },
                ),
            ),
        }
    }
}

/// Whether an element has an encoding.
pub open spec fn encodable(m: MsgElemView) -> bool {
    match m {
        MsgElemView::At(a) => a.sub_type == AtSubType::AtGroupMember,
        MsgElemView::Reply(_) => false,
        _ => true,
    }
}

/// The segments of an element that has an encoding.
pub open spec fn encode(m: MsgElemView) -> Seq<ElemView> {
    match m {
        MsgElemView::Text(t) => seq![text_segment(t.content)],
        MsgElemView::At(a) => seq![at_segment(a), text_segment(separator())],
        MsgElemView::Reply(_) => Seq::empty(),
        MsgElemView::Face(f) => seq![face_segment(f)],
        MsgElemView::Other(k) => seq![ElemView { elem: Some(k) }],
        MsgElemView::Empty => Seq::empty(),
    }
}

/// The elements of a sequence of segments.
pub open spec fn decode_all(s: Seq<ElemView>) -> Seq<MsgElemView> {
    Seq::new(s.len(), |i: int| decode(s[i]))
}

/// Plain text comes back from its segment as the same text.
pub proof fn lemma_text_round_trip(t: TextElemView)
    ensures
        decode_all(encode(MsgElemView::Text(t))) == seq![MsgElemView::Text(t)],
{
    assert(decode_all(encode(MsgElemView::Text(t))) =~= seq![MsgElemView::Text(t)]);
}

proof fn lemma_low32(t: i64)
    requires
        i32::MIN <= t <= i32::MAX,
    ensures
        signed32((t as u32) as int) == t,
{
    assert(t >= 0 ==> (t as u32) == t) by (bit_vector)
        requires
            -0x8000_0000i64 <= t <= 0x7fff_ffffi64,
    ;
    assert(t < 0 ==> (t as u32) == t + 0x1_0000_0000) by (bit_vector)
        requires
            -0x8000_0000i64 <= t <= 0x7fff_ffffi64,
    ;
}

/// A mention of a group member whose target fits 32 bits comes back from
/// its segments as the same mention, followed by the separating space.
pub proof fn lemma_at_round_trip(a: AtElemView)
    requires
        a.sub_type == AtSubType::AtGroupMember,
        i32::MIN <= a.target <= i32::MAX,
    ensures
        decode_all(encode(MsgElemView::At(a))) == seq![
            MsgElemView::At(a),
            MsgElemView::Text(TextElemView { content: separator() }),
        ],
{
    let attr6 = attr6_of(a);
    let v = a.target as u32;
    assert(attr6.len() == 13);
    assert(attr6[7] == u32_bytes(v)[0]);
    assert(attr6[8] == u32_bytes(v)[1]);
    assert(attr6[9] == u32_bytes(v)[2]);
    assert(attr6[10] == u32_bytes(v)[3]);
    assert(be32(attr6, 7) == v);
    lemma_low32(a.target);
    assert(decode(at_segment(a)) == MsgElemView::At(a));
    assert(decode_all(encode(MsgElemView::At(a))) =~= seq![
        MsgElemView::At(a),
        MsgElemView::Text(TextElemView { content: separator() }),
    ]);
}

/// An emoji comes back from its segment with the same index, whichever of
/// the two segments it was sent as, and with the name that the table gives
/// that index.
pub proof fn lemma_face_round_trip(f: FaceElemView)
    ensures
        decode_all(encode(MsgElemView::Face(f))) == seq![MsgElemView::Face(face_elem(f.index))],
        f.name == face_name(f.index) ==> decode_all(encode(MsgElemView::Face(f))) == seq![
            MsgElemView::Face(f),
        ],
{
    let index = f.index;
    assert((index as u32) as i32 == index) by (bit_vector);
    assert(decode(face_segment(f)) == MsgElemView::Face(face_elem(f.index)));
    assert(decode_all(encode(MsgElemView::Face(f))) =~= seq![
        MsgElemView::Face(face_elem(f.index)),
    ]);
}

/// A segment that has no element of its own is kept whole: encoding what
/// it decodes to gives the segment back.
pub proof fn lemma_other_round_trip(e: ElemView)
    requires
        decode(e) is Other,
    ensures
        encodable(decode(e)),
        encode(decode(e)) == seq![e],
{
    assert(e.elem is Some);
    let k = e.elem->0;
    assert(decode_kind(k) == MsgElemView::Other(k));
    assert(encode(decode(e)) =~= seq![e]);
}

fn plain_text(content: String) -> (r: Elem)
    ensures
        r@ == text_segment(content@),
{
    Elem {
        elem: Some(
            ElemKind::Text(
                Text {
                    str: Some(content),
                    link: None,
                    attr6_buf: None,
                    attr7_buf: None,
                    buf: None,
                    pb_reserve: None,
                    resv_attr: None,
                },
            ),
        ),
    }
}

fn buf_len(b: &Option<Vec<u8>>) -> (n: usize)
    ensures
        n == bytes_of(opt_bytes(*b)).len(),
{
    match b {
        Some(v) => v.len(),
        None => 0,
    }
}

fn take_text(s: Option<String>) -> (r: String)
    ensures
        r@ == (match s {
            Some(t) => t@,
            None => Seq::empty(),
        }),
{
    match s {
        Some(t) => t,
        None => String::new(),
    }
}

impl TextElem {
    /// The element of a plain text segment.
    pub fn from(text: Text) -> (r: TextElem)
        ensures
            r@ == text_elem(text@),
    {
        TextElem { content: take_text(text.str) }
    }

    /// The segment of plain text.
    pub fn into_elems(self) -> (r: Vec<Elem>)
        ensures
            views(r@) == encode(MsgElemView::Text(self@)),
    {
        let mut r: Vec<Elem> = Vec::new();
        r.push(plain_text(self.content));
        assert(views(r@) =~= encode(MsgElemView::Text(self@)));
        r
    }
}

fn guild_mention_of(r: &TextResvAttr) -> (m: Option<(i64, AtSubType)>)
    ensures
        forall|t: TextView|
            #![trigger guild_mention(t, *r)]
            match m {
                Some((target, sub_type)) => guild_mention(t, *r) == Some(
                    AtElemView { target, display: text_of(t), sub_type },
                ),
                None => guild_mention(t, *r) is None,
            },
{
    let at_type: u32 = match r.at_type {
        Some(x) => x,
        None => 0,
    };
    if at_type == AT_TYPE_GUILD_MEMBER {
        let id: u64 = match r.at_member_tinyid {
            Some(x) => x,
            None => 0,
        };
        Some((id as i64, AtSubType::AtGuildMember))
    } else if at_type == AT_TYPE_GUILD_CHANNEL {
        let id: u64 = match r.at_channel_info {
            Some(c) => match c.channel_id {
                Some(x) => x,
                None => 0,
            },
            None => 0,
        };
        Some((id as i64, AtSubType::AtGuildChannel))
    } else {
        None
    }
}

fn mention_of(text: &Text) -> (m: Option<(i64, AtSubType)>)
    ensures
        match m {
            Some((target, sub_type)) => mention(text@) == Some(
                AtElemView { target, display: text_of(text@), sub_type },
            ),
            None => mention(text@) is None,
        },
{
    let n = buf_len(&text.attr6_buf);
    if n > 0 {
        if n < ATTR6_MIN_LEN {
            return None;
        }
        match &text.attr6_buf {
            Some(b) => {
                let mut reader = Reader::new(b.as_slice());
                reader.advance(ATTR6_TARGET_AT);
                let target: i32 = reader.get_i32().unwrap();
                Some((target as i64, AtSubType::AtGroupMember))
            },
            None => None,
        }
    } else if buf_len(&text.pb_reserve) > 0 {
        match &text.resv_attr {
            Some(r) => guild_mention_of(r),
            None => None,
        }
    } else {
        None
    }
}

impl AtElem {
    /// The mention that a text segment makes; the segment itself where it
    /// makes none.
    pub fn try_from(text: Text) -> (r: Result<AtElem, Text>)
        ensures
            match mention(text@) {
                Some(a) => r matches Ok(x) && x@ == a,
                None => r == Err::<AtElem, Text>(text),
            },
    {
        match mention_of(&text) {
            Some((target, sub_type)) => Ok(
                AtElem { target, display: take_text(text.str), sub_type },
            ),
            None => Err(text),
        }
    }

    /// The segments of a mention of a group member: the text with its
    /// positional attribute, and a separating space.
    pub fn into_elems(self) -> (r: Vec<Elem>)
        requires
            self.sub_type == AtSubType::AtGroupMember,
        ensures
            views(r@) == encode(MsgElemView::At(self@)),
    {
        let mut w: Vec<u8> = Vec::new();
        put_u16(&mut w, 1);
        put_u16(&mut w, 0);
        put_u16(&mut w, self.display.as_str().unicode_len() as u16);
        put_u8(
            &mut w,
            if self.target == 0 {
                1
            } else {
                0
            },
        );
        put_u32(&mut w, self.target as u32);
        put_u16(&mut w, 0);
        assert(w@ =~= attr6_of(self@));
        let mut r: Vec<Elem> = Vec::new();
        r.push(
            Elem {
                elem: Some(
                    ElemKind::Text(
                        Text {
                            str: Some(self.display),
                            link: None,
                            attr6_buf: Some(w),
                            attr7_buf: None,
                            buf: None,
                            pb_reserve: None,
                            resv_attr: None,
                        },
                    ),
                ),
            },
        );
        r.push(plain_text(" ".to_owned()));
        assert(views(r@) =~= encode(MsgElemView::At(self@)));
        r
    }
}

impl FaceElem {
    /// The emoji of a classic emoji segment.
    pub fn from(face: Face) -> (r: FaceElem)
        ensures
            r@ == face_elem(i32_of(face@.index)),
    {
        let index: i32 = match face.index {
            Some(x) => x,
            None => 0,
        };
        FaceElem { index, name: display_name(index) }
    }

    /// The emoji of a common segment whose payload holds a structured
    /// emoji; the segment itself where it holds none.
    pub fn try_from(elem: CommonElem) -> (r: Result<FaceElem, CommonElem>)
        ensures
            match elem@.new_face {
                Some(f) => r matches Ok(x) && x@ == face_elem(u32_of(f.index) as i32),
                None => r == Err::<FaceElem, CommonElem>(elem),
            },
    {
        match &elem.new_face {
            Some(f) => {
                let index: u32 = match f.index {
                    Some(x) => x,
                    None => 0,
                };
                Ok(FaceElem { index: index as i32, name: display_name(index as i32) })
            },
            None => Err(elem),
        }
    }

    /// The segment of an emoji.
    pub fn into_elems(self) -> (r: Vec<Elem>)
        ensures
            views(r@) == encode(MsgElemView::Face(self@)),
    {
        let mut r: Vec<Elem> = Vec::new();
        if self.index >= NEW_FACE_FROM {
            let mut text: Vec<u8> = Vec::new();
            put_u8(&mut text, 0x2f);
            put_slice(&mut text, self.name.as_str().as_bytes());
            assert(text@ =~= face_text(self@.name));
            let compat = text.clone();
            r.push(
                Elem {
                    elem: Some(
                        ElemKind::CommonElem(
                            CommonElem {
                                service_type: Some(SERVICE_NEW_FACE),
                                pb_elem: None,
                                business_type: Some(BUSINESS_NEW_FACE),
                                new_face: Some(
                                    MsgElemInfoServtype33 {
                                        index: Some(self.index as u32),
                                        text: Some(text),
                                        compat: Some(compat),
                                        buf: None,
                                    },
                                ),
                            },
                        ),
                    ),
                },
            );
        } else {
            let mut old: Vec<u8> = Vec::new();
            put_u16(&mut old, (FACE_OLD_BASE + self.index) as u16);
            let mut buf: Vec<u8> = Vec::new();
            put_u32(&mut buf, 0x0001_0004);
            put_u32(&mut buf, 0x52cc_f5d0);
            assert(buf@ =~= face_marker());
            assert(old@ =~= u16_bytes((FACE_OLD_BASE + self.index) as u16));
            let face = Face { index: Some(self.index), old: Some(old), buf: Some(buf) };
            r.push(Elem { elem: Some(ElemKind::Face(face)) });
        }
        assert(views(r@) =~= encode(MsgElemView::Face(self@)));
        r
    }
}

impl ReplyElem {
    /// The quote that a quoting segment makes, with the quoted segments
    /// decoded; the segment itself where it names no sequence number.
    pub fn try_from(msg: SourceMsg) -> (r: Result<ReplyElem, SourceMsg>)
        ensures
            if msg@.orig_seqs.len() > 0 {
                r matches Ok(x) && MsgElemView::Reply(x@) == decode_kind(
                    ElemKindView::SrcMsg(msg@),
                )
            } else {
                r == Err::<ReplyElem, SourceMsg>(msg)
            },
        decreases msg,
    {
        if msg.orig_seqs.len() == 0 {
            return Err(msg);
        }
        let ghost whole = msg;
        let reply_seq = msg.orig_seqs[0];
        let sender: i64 = match msg.sender_uin {
            Some(x) => x,
            None => 0,
        };
        let group_id: i64 = match msg.to_uin {
            Some(x) => x,
            None => 0,
        };
        let time: i32 = match msg.time {
            Some(x) => x,
            None => 0,
        };
        let mut pending = msg.elems;
        let ghost src = pending@;
        let mut reversed: Vec<MsgElem> = Vec::new();
        while pending.len() > 0
            invariant
                whole == msg,
                src == whole.elems@,
                pending@ == src.take(pending@.len() as int),
                pending@.len() <= src.len(),
                reversed@.len() == src.len() - pending@.len(),
                forall|j: int|
                    0 <= j < reversed@.len() ==> (#[trigger] reversed@[j])@ == decode(
                        src[src.len() - 1 - j]@,
                    ),
            decreases pending@.len(),
        {
            let e = pending.pop().unwrap();
            assert(e == src[pending@.len() as int]);
            assert(decreases_to!(whole => whole.elems));
            assert(decreases_to!(whole.elems => src));
            assert(decreases_to!(src => e));
            let m = MsgElem::from(e);
            reversed.push(m);
        }
        let mut elements: Vec<MsgElem> = Vec::new();
        while reversed.len() > 0
            invariant
                src == whole.elems@,
                reversed@.len() + elements@.len() == src.len(),
                forall|j: int|
                    0 <= j < reversed@.len() ==> (#[trigger] reversed@[j])@ == decode(
                        src[src.len() - 1 - j]@,
                    ),
                forall|j: int|
                    0 <= j < elements@.len() ==> (#[trigger] elements@[j])@ == decode(src[j]@),
            decreases reversed@.len(),
        {
            let m = reversed.pop().unwrap();
            elements.push(m);
        }
        let r = ReplyElem { reply_seq, sender, group_id, time, elements };
        proof {
            let want = decode_kind(ElemKindView::SrcMsg(whole@));
            lemma_quoted_views(whole);
            assert(whole@.elems.len() == src.len());
            assert(r@.elements =~= want->Reply_0.elements) by {
                assert forall|j: int| 0 <= j < src.len() implies r@.elements[j]
                    == want->Reply_0.elements[j] by {
                    assert(r.elements@[j]@ == decode(src[j]@));
                    assert(whole@.elems[j] == src[j]@);
                }
            }
        }
        Ok(r)
    }
}

impl MsgElem {
    /// The element of a segment.
    pub fn from(elem: Elem) -> (r: MsgElem)
        ensures
            r@ == decode(elem@),
        decreases elem,
    {
        match elem.elem {
            None => MsgElem::Empty,
            Some(ElemKind::Text(text)) => match AtElem::try_from(text) {
                Ok(at) => MsgElem::At(at),
                Err(text) => MsgElem::Text(TextElem::from(text)),
            },
            Some(ElemKind::SrcMsg(src_msg)) => match ReplyElem::try_from(src_msg) {
                Ok(reply) => MsgElem::Reply(reply),
                Err(src_msg) => MsgElem::Other(ElemKind::SrcMsg(src_msg)),
            },
            Some(ElemKind::Face(face)) => MsgElem::Face(FaceElem::from(face)),
            Some(ElemKind::CommonElem(common)) => match FaceElem::try_from(common) {
                Ok(face) => MsgElem::Face(face),
                Err(common) => MsgElem::Other(ElemKind::CommonElem(common)),
            },
            Some(ElemKind::Other { kind, body }) => MsgElem::Other(ElemKind::Other { kind, body }),
        }
    }

    /// Whether the element has an encoding.
    pub fn is_encodable(&self) -> (b: bool)
        ensures
            b == encodable(self@),
    {
        match self {
            MsgElem::At(a) => match a.sub_type {
                AtSubType::AtGroupMember => true,
                _ => false,
            },
            MsgElem::Reply(_) => false,
            _ => true,
        }
    }

    /// The segments of an element that has an encoding.
    pub fn into_elems(self) -> (r: Vec<Elem>)
        requires
            encodable(self@),
        ensures
            views(r@) == encode(self@),
    {
        match self {
            MsgElem::Text(text) => text.into_elems(),
            MsgElem::At(at) => at.into_elems(),
            MsgElem::Reply(_) => Vec::new(),
            MsgElem::Face(face) => face.into_elems(),
            MsgElem::Other(kind) => {
                let mut r: Vec<Elem> = Vec::new();
                r.push(Elem { elem: Some(kind) });
                assert(views(r@) =~= encode(self@));
                r
            },
            MsgElem::Empty => {
                let r: Vec<Elem> = Vec::new();
                assert(views(r@) =~= encode(self@));
                r
            },
        }
    }
}

} // verus!
