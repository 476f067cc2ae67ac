//! The table of emoji: from index to display name.

use vstd::prelude::*;

verus! {

/// The display name of an emoji that the table does not hold.
pub const UNKNOWN_FACE: &'static str = "未知表情";

/// The table.
pub open spec fn face_entry(index: i32) -> Option<&'static str> {
    match index {
        0 => Some("惊讶"),
        1 => Some("撇嘴"),
        2 => Some("色"),
        3 => Some("发呆"),
        4 => Some("得意"),
        5 => Some("流泪"),
        6 => Some("害羞"),
        7 => Some("闭嘴"),
        8 => Some("睡"),
        9 => Some("大哭"),
        10 => Some("尴尬"),
        11 => Some("发怒"),
        12 => Some("调皮"),
        13 => Some("呲牙"),
        14 => Some("微笑"),
        15 => Some("难过"),
        16 => Some("酷"),
        18 => Some("抓狂"),
        19 => Some("吐"),
        20 => Some("偷笑"),
        21 => Some("可爱"),
        22 => Some("白眼"),
        23 => Some("傲慢"),
        24 => Some("饥饿"),
        25 => Some("困"),
        26 => Some("惊恐"),
        27 => Some("流汗"),
        28 => Some("憨笑"),
        29 => Some("悠闲"),
        30 => Some("奋斗"),
        31 => Some("咒骂"),
        32 => Some("疑问"),
        33 => Some("嘘"),
        34 => Some("晕"),
        35 => Some("折磨"),
        36 => Some("衰"),
        37 => Some("骷髅"),
        38 => Some("敲打"),
        39 => Some("再见"),
        96 => Some("冷汗"),
        97 => Some("擦汗"),
        98 => Some("抠鼻"),
        99 => Some("鼓掌"),
        100 => Some("糗大了"),
        101 => Some("坏笑"),
        102 => Some("左哼哼"),
        103 => Some("右哼哼"),
        104 => Some("哈欠"),
        105 => Some("鄙视"),
        106 => Some("委屈"),
        107 => Some("快哭了"),
        108 => Some("阴险"),
        109 => Some("亲亲"),
        110 => Some("吓"),
        111 => Some("可怜"),
        172 => Some("眨眼睛"),
        173 => Some("泪奔"),
        174 => Some("无奈"),
        175 => Some("卖萌"),
        176 => Some("小纠结"),
        177 => Some("喷血"),
        178 => Some("斜眼笑"),
        179 => Some("doge"),
        180 => Some("惊喜"),
        181 => Some("骚扰"),
        182 => Some("笑哭"),
        183 => Some("我最美"),
        260 => Some("搬砖中"),
        261 => Some("忙到飞起"),
        262 => Some("脑阔疼"),
        263 => Some("沧桑"),
        264 => Some("捂脸"),
        265 => Some("辣眼睛"),
        266 => Some("哦哟"),
        267 => Some("头秃"),
        268 => Some("问号脸"),
        269 => Some("暗中观察"),
        270 => Some("emm"),
        271 => Some("吃瓜"),
        272 => Some("呵呵哒"),
        277 => Some("汪汪"),
        _ => None,
    }
}

/// The display name of the emoji with this index.
pub open spec fn face_name(index: i32) -> Seq<char> {
    match face_entry(index) {
        Some(name) => name@,
        None => UNKNOWN_FACE@,
    }
}

/// Looks an index up in the table.
pub fn lookup_face(index: i32) -> (r: Option<&'static str>)
    ensures
        r == face_entry(index),
{
    match index {
        0 => Some("惊讶"),
        1 => Some("撇嘴"),
        2 => Some("色"),
        3 => Some("发呆"),
        4 => Some("得意"),
        5 => Some("流泪"),
        6 => Some("害羞"),
        7 => Some("闭嘴"),
        8 => Some("睡"),
        9 => Some("大哭"),
        10 => Some("尴尬"),
        11 => Some("发怒"),
        12 => Some("调皮"),
        13 => Some("呲牙"),
        14 => Some("微笑"),
        15 => Some("难过"),
        16 => Some("酷"),
        18 => Some("抓狂"),
        19 => Some("吐"),
        20 => Some("偷笑"),
        21 => Some("可爱"),
        22 => Some("白眼"),
        23 => Some("傲慢"),
        24 => Some("饥饿"),
        25 => Some("困"),
        26 => Some("惊恐"),
        27 => Some("流汗"),
        28 => Some("憨笑"),
        29 => Some("悠闲"),
        30 => Some("奋斗"),
        31 => Some("咒骂"),
        32 => Some("疑问"),
        33 => Some("嘘"),
        34 => Some("晕"),
        35 => Some("折磨"),
        36 => Some("衰"),
        37 => Some("骷髅"),
        38 => Some("敲打"),
        39 => Some("再见"),
        96 => Some("冷汗"),
        97 => Some("擦汗"),
        98 => Some("抠鼻"),
        99 => Some("鼓掌"),
        100 => Some("糗大了"),
        101 => Some("坏笑"),
        102 => Some("左哼哼"),
        103 => Some("右哼哼"),
        104 => Some("哈欠"),
        105 => Some("鄙视"),
        106 => Some("委屈"),
        107 => Some("快哭了"),
        108 => Some("阴险"),
        109 => Some("亲亲"),
        110 => Some("吓"),
        111 => Some("可怜"),
        172 => Some("眨眼睛"),
        173 => Some("泪奔"),
        174 => Some("无奈"),
        175 => Some("卖萌"),
        176 => Some("小纠结"),
        177 => Some("喷血"),
        178 => Some("斜眼笑"),
        179 => Some("doge"),
        180 => Some("惊喜"),
        181 => Some("骚扰"),
        182 => Some("笑哭"),
        183 => Some("我最美"),
        260 => Some("搬砖中"),
        261 => Some("忙到飞起"),
        262 => Some("脑阔疼"),
        263 => Some("沧桑"),
        264 => Some("捂脸"),
        265 => Some("辣眼睛"),
        266 => Some("哦哟"),
        267 => Some("头秃"),
        268 => Some("问号脸"),
        269 => Some("暗中观察"),
        270 => Some("emm"),
        271 => Some("吃瓜"),
        272 => Some("呵呵哒"),
        277 => Some("汪汪"),
        _ => None,
    }
}

/// The display name of the emoji with this index, the placeholder for an
/// index that the table does not hold.
pub fn display_name(index: i32) -> (r: String)
    ensures
        r@ == face_name(index),
{
    match lookup_face(index) {
        Some(name) => name.to_owned(),
        None => UNKNOWN_FACE.to_owned(),
    }
}

} // verus!
