use bytes::Bytes;
use rq_engine::flow::next_step;
use rq_engine::flow::LoginStep;
use rq_engine::login::decide;
use rq_engine::login::LoginResponse;
use rq_engine::login::Stores;
use rq_engine::qr::decide_qr;
use rq_engine::session::SessionCache;
use rq_engine::tlv::TlvMap;

#[test]
fn success_finishes_the_flow() {
    assert_eq!(next_step(&LoginResponse::Success), LoginStep::Finished);
}

#[test]
fn verification_urls_are_opened() {
    let r = LoginResponse::SMSOrVerifyNeededError {
        verify_url: "https://v".to_string(),
        sms_phone: "1".to_string(),
        error_message: "m".to_string(),
    };
    assert_eq!(next_step(&r), LoginStep::OpenUrl { url: "https://v".to_string() });
    let r = LoginResponse::UnsafeDeviceError { verify_url: "https://d".to_string() };
    assert_eq!(next_step(&r), LoginStep::OpenUrl { url: "https://d".to_string() });
}

#[test]
fn slider_sms_and_device_lock_go_on() {
    let r = LoginResponse::SliderNeededError { verify_url: "u".to_string() };
    assert_eq!(next_step(&r), LoginStep::SubmitTicket);
    let r = LoginResponse::SMSNeededError { sms_phone: String::new(), error_message: String::new() };
    assert_eq!(next_step(&r), LoginStep::SubmitSmsCode);
    assert_eq!(next_step(&LoginResponse::NeedDeviceLockLogin), LoginStep::DeviceLockLogin);
}

#[test]
fn the_other_outcomes_end_the_flow() {
    for r in [
        LoginResponse::NeedCaptcha { captcha_sign: Bytes::new(), captcha_image: Bytes::new() },
        LoginResponse::TooManySMSRequestError,
        LoginResponse::AccountFrozen { error_message: "f".to_string() },
        LoginResponse::OtherLoginError { error_message: "o".to_string() },
        LoginResponse::UnknownLoginError { error_message: String::new() },
    ] {
        assert_eq!(next_step(&r), LoginStep::GiveUp);
    }
}

#[test]
fn decide_names_what_to_store_and_stores_nothing_itself() {
    let mut m = TlvMap::new();
    m.insert(0x104, vec![1]);
    m.insert(0x403, vec![2]);
    let (response, stores) = decide(204, &m, &[0u8; 16]).unwrap();
    assert_eq!(response, LoginResponse::NeedDeviceLockLogin);
    let mut expected = Stores::none();
    expected.t104 = Some(vec![1]);
    expected.rand_seed = Some(vec![2]);
    assert_eq!(stores, expected);
    let mut cache = SessionCache::new();
    cache.t174 = vec![7];
    cache.apply(stores);
    assert_eq!(cache.t104, vec![1]);
    assert_eq!(cache.rand_seed, vec![2]);
    assert_eq!(cache.t174, vec![7]);
    let before = cache.clone();
    cache.apply(Stores::none());
    assert_eq!(cache, before);
}

#[test]
fn display_token_parts_are_stored_as_given() {
    let mut cache = SessionCache::new();
    cache.t104 = vec![4];
    cache.store_display_token(vec![1], vec![2], vec![3]);
    assert_eq!(cache.dpwd, vec![1]);
    assert_eq!(cache.t402, vec![2]);
    assert_eq!(cache.g, vec![3]);
    assert_eq!(cache.t104, vec![4]);
}

#[test]
fn take_display_token_digests_identifier_token_and_payload() {
    let mut m = TlvMap::new();
    m.insert(0x402, vec![0xaa]);
    let mut cache = SessionCache::new();
    cache.take_display_token(b"guid", &m, b"token");
    assert_eq!(cache.g, md5::compute(b"guidtoken\xaa").0.to_vec());
    assert_eq!(cache.dpwd, b"token".to_vec());
    assert_eq!(cache.t402, vec![0xaa]);
    let mut cache = SessionCache::new();
    cache.take_display_token(b"guid", &TlvMap::new(), b"token");
    assert_eq!(cache, SessionCache::new());
}

#[test]
fn decide_qr_hands_out_what_a_confirmation_keeps() {
    let mut payload = vec![0u8; 48];
    payload[9] = 0x12;
    payload.extend_from_slice(&[0, 0, 0, 0, 0, 0, 0]);
    payload.extend_from_slice(&7i64.to_be_bytes());
    payload.extend_from_slice(&[0; 6]);
    for (tag, value) in [(0x18u8, b'a'), (0x19, b'b'), (0x1e, b'c'), (0x65, b'd')] {
        payload.extend_from_slice(&[0, tag, 0, 1, value]);
    }
    payload.push(0);
    let (account, decision) = decide_qr(&payload);
    assert_eq!(account, Some(7));
    let (_, keep) = decision.unwrap().unwrap();
    let keep = keep.unwrap();
    assert_eq!(keep.uin, 7);
    assert_eq!(keep.root_secret, vec![b'c']);
}

#[test]
fn decide_qr_hands_over_no_account_without_a_confirmation() {
    let mut payload = vec![0u8; 48];
    payload[9] = 0x12;
    payload.extend_from_slice(&[0, 0, 0, 0, 0, 0, 0x30]);
    payload.extend_from_slice(&7i64.to_be_bytes());
    payload.push(0);
    let (account, decision) = decide_qr(&payload);
    assert_eq!(account, None);
    assert!(matches!(decision, Ok(Some((_, None)))));
    assert_eq!(decide_qr(&[0u8; 10]).0, None);
}
