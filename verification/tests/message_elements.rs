use rq_engine::elem::AtElem;
use rq_engine::elem::AtSubType;
use rq_engine::elem::FaceElem;
use rq_engine::elem::MsgElem;
use rq_engine::elem::ReplyElem;
use rq_engine::elem::TextElem;
use rq_engine::faces::display_name;
use rq_engine::faces::lookup_face;
use rq_engine::faces::UNKNOWN_FACE;
use rq_engine::wire::AtChannelInfo;
use rq_engine::wire::CommonElem;
use rq_engine::wire::Elem;
use rq_engine::wire::ElemKind;
use rq_engine::wire::Face;
use rq_engine::wire::MsgElemInfoServtype33;
use rq_engine::wire::OtherKind;
use rq_engine::wire::SourceMsg;
use rq_engine::wire::Text;
use rq_engine::wire::TextResvAttr;

fn text(s: &str) -> Text {
    Text {
        str: Some(s.to_string()),
        link: None,
        attr6_buf: None,
        attr7_buf: None,
        buf: None,
        pb_reserve: None,
        resv_attr: None,
    }
}

fn segment(kind: ElemKind) -> Elem {
    Elem { elem: Some(kind) }
}

fn quote(orig_seqs: Vec<i32>, elems: Vec<Elem>) -> SourceMsg {
    SourceMsg {
        orig_seqs,
        sender_uin: Some(1001),
        time: Some(1_600_000_000),
        flag: Some(1),
        elems,
        msg_type: None,
        rich_msg: None,
        pb_reserve: Some(vec![1, 2]),
        src_msg: None,
        to_uin: Some(2002),
        troop_name: None,
    }
}

fn decode_all(elems: Vec<Elem>) -> Vec<MsgElem> {
    elems.into_iter().map(MsgElem::from).collect()
}

#[test]
fn text_round_trips() {
    let elem = MsgElem::Text(TextElem { content: "hello".to_string() });
    let wire = elem.into_elems();
    assert_eq!(wire, vec![segment(ElemKind::Text(text("hello")))]);
    assert_eq!(
        decode_all(wire),
        vec![MsgElem::Text(TextElem { content: "hello".to_string() })]
    );
}

#[test]
fn text_without_string_is_empty_text() {
    let mut t = text("");
    t.str = None;
    t.link = Some("l".to_string());
    assert_eq!(
        MsgElem::from(segment(ElemKind::Text(t))),
        MsgElem::Text(TextElem { content: String::new() })
    );
}

#[test]
fn at_encodes_to_attribute_and_separator() {
    let at = AtElem { target: 123, display: "@bob".to_string(), sub_type: AtSubType::AtGroupMember };
    let wire = at.into_elems();
    let mut first = text("@bob");
    first.attr6_buf = Some(vec![0, 1, 0, 0, 0, 4, 0, 0, 0, 0, 123, 0, 0]);
    assert_eq!(wire, vec![segment(ElemKind::Text(first)), segment(ElemKind::Text(text(" ")))]);
}

#[test]
fn at_round_trips_with_target_and_display() {
    let at = || AtElem {
        target: 123,
        display: "@bob".to_string(),
        sub_type: AtSubType::AtGroupMember,
    };
    let back = decode_all(MsgElem::At(at()).into_elems());
    assert_eq!(
        back,
        vec![MsgElem::At(at()), MsgElem::Text(TextElem { content: " ".to_string() })]
    );
}

#[test]
fn at_everyone_sets_the_flag() {
    let at = AtElem { target: 0, display: "@全体成员".to_string(), sub_type: AtSubType::AtGroupMember };
    let wire = at.into_elems();
    match &wire[0].elem {
        Some(ElemKind::Text(t)) => {
            assert_eq!(t.attr6_buf, Some(vec![0, 1, 0, 0, 0, 5, 1, 0, 0, 0, 0, 0, 0]));
        },
        _ => panic!("a text segment was expected"),
    }
}

#[test]
fn at_target_is_read_as_signed_32_bits() {
    let at = AtElem { target: -2, display: "x".to_string(), sub_type: AtSubType::AtGroupMember };
    let back = decode_all(at.into_elems());
    assert_eq!(
        back[0],
        MsgElem::At(
            AtElem { target: -2, display: "x".to_string(), sub_type: AtSubType::AtGroupMember },
        )
    );
    // A target beyond 32 bits keeps its low 32 bits only.
    let at = AtElem {
        target: (1i64 << 32) + 5,
        display: "x".to_string(),
        sub_type: AtSubType::AtGroupMember,
    };
    let back = decode_all(at.into_elems());
    assert_eq!(
        back[0],
        MsgElem::At(
            AtElem { target: 5, display: "x".to_string(), sub_type: AtSubType::AtGroupMember },
        )
    );
}

#[test]
fn short_attribute_makes_plain_text() {
    let mut t = text("@bob");
    t.attr6_buf = Some(vec![0, 1, 0, 0, 0, 4, 0, 0, 0, 0]);
    t.pb_reserve = Some(vec![1]);
    t.resv_attr = Some(
        TextResvAttr { at_type: Some(2), at_member_tinyid: Some(9), at_channel_info: None },
    );
    assert_eq!(AtElem::try_from(t.clone()), Err(t.clone()));
    assert_eq!(
        MsgElem::from(segment(ElemKind::Text(t))),
        MsgElem::Text(TextElem { content: "@bob".to_string() })
    );
}

#[test]
fn attribute_of_least_length_holds_a_target() {
    let mut t = text("@bob");
    t.attr6_buf = Some(vec![9, 9, 9, 9, 9, 9, 9, 0x00, 0x01, 0x00, 0x02]);
    assert_eq!(
        AtElem::try_from(t),
        Ok(
            AtElem {
                target: 0x0001_0002,
                display: "@bob".to_string(),
                sub_type: AtSubType::AtGroupMember,
            },
        )
    );
}

#[test]
fn reserved_attribute_names_guild_member_and_channel() {
    let mut t = text("@member");
    t.pb_reserve = Some(vec![0x18, 0x02]);
    t.resv_attr = Some(
        TextResvAttr { at_type: Some(2), at_member_tinyid: Some(77), at_channel_info: None },
    );
    assert_eq!(
        MsgElem::from(segment(ElemKind::Text(t))),
        MsgElem::At(
            AtElem {
                target: 77,
                display: "@member".to_string(),
                sub_type: AtSubType::AtGuildMember,
            },
        )
    );
    let mut t = text("#channel");
    t.pb_reserve = Some(vec![0x18, 0x04]);
    t.resv_attr = Some(
        TextResvAttr {
            at_type: Some(4),
            at_member_tinyid: Some(77),
            at_channel_info: Some(AtChannelInfo { channel_id: Some(88) }),
        },
    );
    assert_eq!(
        MsgElem::from(segment(ElemKind::Text(t))),
        MsgElem::At(
            AtElem {
                target: 88,
                display: "#channel".to_string(),
                sub_type: AtSubType::AtGuildChannel,
            },
        )
    );
    let mut t = text("#channel");
    t.pb_reserve = Some(vec![0x18, 0x04]);
    t.resv_attr = Some(TextResvAttr { at_type: Some(4), at_member_tinyid: None, at_channel_info: None });
    assert_eq!(
        MsgElem::from(segment(ElemKind::Text(t))),
        MsgElem::At(
            AtElem { target: 0, display: "#channel".to_string(), sub_type: AtSubType::AtGuildChannel },
        )
    );
}

#[test]
fn reserved_attribute_of_another_type_or_undecoded_makes_plain_text() {
    let mut t = text("plain");
    t.pb_reserve = Some(vec![0x18, 0x01]);
    t.resv_attr = Some(
        TextResvAttr { at_type: Some(1), at_member_tinyid: Some(77), at_channel_info: None },
    );
    assert_eq!(AtElem::try_from(t.clone()), Err(t));
    let mut t = text("plain");
    t.pb_reserve = Some(vec![0xff]);
    assert_eq!(AtElem::try_from(t.clone()), Err(t));
    // Without the encoded attribute, what stands beside it is not read.
    let mut t = text("plain");
    t.resv_attr = Some(
        TextResvAttr { at_type: Some(2), at_member_tinyid: Some(77), at_channel_info: None },
    );
    assert_eq!(AtElem::try_from(t.clone()), Err(t));
}

#[test]
fn classic_face_decodes_with_its_name() {
    let face = Face { index: Some(5), old: Some(vec![0x14, 0x46]), buf: None };
    assert_eq!(
        MsgElem::from(segment(ElemKind::Face(face))),
        MsgElem::Face(FaceElem { index: 5, name: "流泪".to_string() })
    );
    let face = Face { index: None, old: None, buf: None };
    assert_eq!(FaceElem::from(face), FaceElem { index: 0, name: "惊讶".to_string() });
}

#[test]
fn unknown_face_gets_the_placeholder() {
    let face = Face { index: Some(9999), old: None, buf: None };
    assert_eq!(FaceElem::from(face), FaceElem { index: 9999, name: UNKNOWN_FACE.to_string() });
    assert_eq!(lookup_face(17), None);
    assert_eq!(lookup_face(-1), None);
    assert_eq!(lookup_face(14), Some("微笑"));
    assert_eq!(display_name(179), "doge");
    assert_eq!(display_name(-1), "未知表情");
}

#[test]
fn classic_face_encodes_with_legacy_number_and_marker() {
    let wire = FaceElem { index: 5, name: "流泪".to_string() }.into_elems();
    assert_eq!(
        wire,
        vec![
            segment(
                ElemKind::Face(
                    Face {
                        index: Some(5),
                        old: Some(vec![0x14, 0x46]),
                        buf: Some(vec![0x00, 0x01, 0x00, 0x04, 0x52, 0xcc, 0xf5, 0xd0]),
                    },
                ),
            ),
        ]
    );
    let wire = FaceElem { index: 259, name: String::new() }.into_elems();
    match &wire[0].elem {
        Some(ElemKind::Face(f)) => assert_eq!(f.old, Some(vec![0x15, 0x44])),
        _ => panic!("a classic emoji segment was expected"),
    }
}

#[test]
fn classic_face_round_trips() {
    let face = || FaceElem { index: 5, name: "流泪".to_string() };
    assert_eq!(decode_all(MsgElem::Face(face()).into_elems()), vec![MsgElem::Face(face())]);
}

#[test]
fn new_face_is_synthesized_from_index_260() {
    let wire = FaceElem { index: 260, name: "搬砖中".to_string() }.into_elems();
    let mut slash_name = vec![b'/'];
    slash_name.extend_from_slice("搬砖中".as_bytes());
    assert_eq!(
        wire,
        vec![
            segment(
                ElemKind::CommonElem(
                    CommonElem {
                        service_type: Some(33),
                        pb_elem: None,
                        business_type: Some(1),
                        new_face: Some(
                            MsgElemInfoServtype33 {
                                index: Some(260),
                                text: Some(slash_name.clone()),
                                compat: Some(slash_name),
                                buf: None,
                            },
                        ),
                    },
                ),
            ),
        ]
    );
}

#[test]
fn new_face_round_trips_with_the_same_index() {
    for index in [260, 271, 5000, i32::MAX] {
        let name = display_name(index);
        let back = decode_all(MsgElem::Face(FaceElem { index, name: name.clone() }).into_elems());
        assert_eq!(back, vec![MsgElem::Face(FaceElem { index, name })]);
    }
}

#[test]
fn common_segment_without_structured_emoji_is_kept() {
    let common = CommonElem {
        service_type: Some(2),
        pb_elem: Some(vec![0xff, 0x01]),
        business_type: Some(23),
        new_face: None,
    };
    assert_eq!(FaceElem::try_from(common.clone()), Err(common.clone()));
    let elem = MsgElem::from(segment(ElemKind::CommonElem(common.clone())));
    assert_eq!(elem, MsgElem::Other(ElemKind::CommonElem(common.clone())));
    assert_eq!(elem.into_elems(), vec![segment(ElemKind::CommonElem(common))]);
}

#[test]
fn common_segment_with_structured_emoji_is_a_face() {
    let common = CommonElem {
        service_type: Some(33),
        pb_elem: Some(vec![0x08, 0x8f, 0x02]),
        business_type: Some(1),
        new_face: Some(MsgElemInfoServtype33 { index: Some(271), text: None, compat: None, buf: None }),
    };
    assert_eq!(
        FaceElem::try_from(common),
        Ok(FaceElem { index: 271, name: "吃瓜".to_string() })
    );
}

#[test]
fn unrecognized_segment_is_opaque_and_re_encodes_identically() {
    let kind = || ElemKind::Other { kind: OtherKind::NotOnlineImage, body: vec![0x0a, 0x03, 1, 2, 3] };
    let elem = MsgElem::from(segment(kind()));
    assert_eq!(elem, MsgElem::Other(kind()));
    assert!(elem.is_encodable());
    assert_eq!(elem.into_elems(), vec![segment(kind())]);
}

#[test]
fn segment_without_content_is_empty_and_encodes_to_nothing() {
    let elem = MsgElem::from(Elem { elem: None });
    assert_eq!(elem, MsgElem::Empty);
    assert_eq!(elem.into_elems(), Vec::<Elem>::new());
}

#[test]
fn quote_decodes_to_reply_with_decoded_elements() {
    let mut at = text("@bob");
    at.attr6_buf = Some(vec![0, 1, 0, 0, 0, 4, 0, 0, 0, 0, 123, 0, 0]);
    let other = || ElemKind::Other { kind: OtherKind::CustomFace, body: vec![7] };
    let src = quote(
        vec![55, 56],
        vec![
            segment(ElemKind::Text(at)),
            segment(ElemKind::Text(text("hi"))),
            Elem { elem: None },
            segment(ElemKind::Face(Face { index: Some(14), old: None, buf: None })),
            segment(other()),
        ],
    );
    assert_eq!(
        MsgElem::from(segment(ElemKind::SrcMsg(src))),
        MsgElem::Reply(
            ReplyElem {
                reply_seq: 55,
                sender: 1001,
                group_id: 2002,
                time: 1_600_000_000,
                elements: vec![
                    MsgElem::At(
                        AtElem {
                            target: 123,
                            display: "@bob".to_string(),
                            sub_type: AtSubType::AtGroupMember,
                        },
                    ),
                    MsgElem::Text(TextElem { content: "hi".to_string() }),
                    MsgElem::Empty,
                    MsgElem::Face(FaceElem { index: 14, name: "微笑".to_string() }),
                    MsgElem::Other(other()),
                ],
            },
        )
    );
}

#[test]
fn quote_within_quote_is_decoded_too() {
    let inner = quote(vec![1], vec![segment(ElemKind::Text(text("deep")))]);
    let mut outer = quote(vec![2], vec![segment(ElemKind::SrcMsg(inner))]);
    outer.sender_uin = None;
    outer.to_uin = None;
    outer.time = None;
    let r = ReplyElem::try_from(outer).unwrap();
    assert_eq!(r.reply_seq, 2);
    assert_eq!((r.sender, r.group_id, r.time), (0, 0, 0));
    assert_eq!(
        r.elements,
        vec![
            MsgElem::Reply(
                ReplyElem {
                    reply_seq: 1,
                    sender: 1001,
                    group_id: 2002,
                    time: 1_600_000_000,
                    elements: vec![MsgElem::Text(TextElem { content: "deep".to_string() })],
                },
            ),
        ]
    );
}

#[test]
fn quote_without_sequence_number_is_kept() {
    let make = || quote(vec![], vec![segment(ElemKind::Text(text("hi")))]);
    assert_eq!(ReplyElem::try_from(make()), Err(make()));
    let elem = MsgElem::from(segment(ElemKind::SrcMsg(make())));
    assert_eq!(elem, MsgElem::Other(ElemKind::SrcMsg(make())));
    assert_eq!(elem.into_elems(), vec![segment(ElemKind::SrcMsg(make()))]);
}

#[test]
fn reply_and_guild_mentions_have_no_encoding() {
    let reply = MsgElem::Reply(
        ReplyElem { reply_seq: 1, sender: 2, group_id: 3, time: 4, elements: vec![] },
    );
    assert!(!reply.is_encodable());
    for sub_type in [AtSubType::AtGuildMember, AtSubType::AtGuildChannel] {
        let at = MsgElem::At(AtElem { target: 1, display: "x".to_string(), sub_type });
        assert!(!at.is_encodable());
    }
    let at = MsgElem::At(
        AtElem { target: 1, display: "x".to_string(), sub_type: AtSubType::AtGroupMember },
    );
    assert!(at.is_encodable());
    assert!(MsgElem::Text(TextElem { content: String::new() }).is_encodable());
    assert!(MsgElem::Face(FaceElem { index: 1, name: String::new() }).is_encodable());
    assert!(MsgElem::Empty.is_encodable());
}
