use rq_engine::error::Field;
use rq_engine::error::Phase;
use rq_engine::error::RQError;
use rq_engine::exchange::decode_exchange_emp_response;
use rq_engine::keys::decode_t119;
use rq_engine::keys::derive_keys;
use rq_engine::login::decode_login_response;
use rq_engine::login::LoginResponse;
use rq_engine::session::DeviceIdentity;
use rq_engine::session::SessionCache;
use rq_engine::session::SigInfo;
use rq_engine::tea::decipher_block;
use rq_engine::tea::decrypt;
use rq_engine::tea::key_from_bytes;
use rq_engine::tea::Key;
use rq_engine::tlv::write_tlv;
use rq_engine::tlv::TagWidth;

const DELTA: u32 = 0x9e37_79b9;

fn encipher(block: u64, k: &[u32; 4]) -> u64 {
    let mut v0 = (block >> 32) as u32;
    let mut v1 = block as u32;
    let mut sum: u32 = 0;
    for _ in 0..16 {
        sum = sum.wrapping_add(DELTA);
        v0 = v0.wrapping_add(
            ((v1 << 4).wrapping_add(k[0])) ^ v1.wrapping_add(sum) ^ ((v1 >> 5).wrapping_add(k[1])),
        );
        v1 = v1.wrapping_add(
            ((v0 << 4).wrapping_add(k[2])) ^ v0.wrapping_add(sum) ^ ((v0 >> 5).wrapping_add(k[3])),
        );
    }
    ((v0 as u64) << 32) | v1 as u64
}

fn words(key: &[u8]) -> [u32; 4] {
    let mut k = [0u32; 4];
    for i in 0..4 {
        k[i] = u32::from_be_bytes([key[4 * i], key[4 * i + 1], key[4 * i + 2], key[4 * i + 3]]);
    }
    k
}

fn encrypt(plain: &[u8], key: &[u8]) -> Vec<u8> {
    let k = words(key);
    let fill = 10 - (plain.len() + 1) % 8;
    let mut buf = vec![0u8; fill + plain.len() + 7];
    buf[0] = ((fill - 3) as u8) | 0xf8;
    for i in 1..fill {
        buf[i] = 0xa0 + i as u8;
    }
    buf[fill..fill + plain.len()].copy_from_slice(plain);
    let mut last_cipher: u64 = 0;
    let mut last_holder: u64 = 0;
    for i in (0..buf.len()).step_by(8) {
        let mut b = [0u8; 8];
        b.copy_from_slice(&buf[i..i + 8]);
        let holder = u64::from_be_bytes(b) ^ last_cipher;
        last_cipher = encipher(holder, &k) ^ last_holder;
        last_holder = holder;
        buf[i..i + 8].copy_from_slice(&last_cipher.to_be_bytes());
    }
    buf
}

fn root_secret() -> Vec<u8> {
    (1u8..=16).collect()
}

fn device() -> DeviceIdentity {
    DeviceIdentity { guid: vec![0x11; 16], tgtgt_key: root_secret() }
}

fn key_records() -> Vec<(u16, Vec<u8>)> {
    vec![
        (0x10a, b"tgt".to_vec()),
        (0x10d, b"tgt-key".to_vec()),
        (0x10e, b"st-key".to_vec()),
        (0x120, b"s-key".to_vec()),
        (0x143, b"d2".to_vec()),
        (0x305, b"0123456789abcdef".to_vec()),
    ]
}

fn profile_record(nick: &str, age: u8, gender: u8) -> (u16, Vec<u8>) {
    let mut v = vec![0x00, 0x07, age, gender, nick.len() as u8];
    v.extend_from_slice(nick.as_bytes());
    (0x11a, v)
}

fn account_info(records: &[(u16, Vec<u8>)]) -> Vec<u8> {
    let mut plain = vec![0x00, records.len() as u8];
    for (tag, value) in records {
        write_tlv(&mut plain, *tag, value, TagWidth::Two);
    }
    plain
}

fn expected_keys() -> SigInfo {
    SigInfo {
        tgt: b"tgt".to_vec(),
        tgt_key: b"tgt-key".to_vec(),
        user_st_key: b"st-key".to_vec(),
        s_key: b"s-key".to_vec(),
        d2: b"d2".to_vec(),
        d2key: b"0123456789abcdef".to_vec(),
    }
}

fn login_frame(t: u8, records: &[(u16, Vec<u8>)]) -> Vec<u8> {
    let mut buf = vec![0x00, 0x09, 0x00, 0x00, 0x00, t, 0x00, 0x00];
    for (tag, value) in records {
        write_tlv(&mut buf, *tag, value, TagWidth::Two);
    }
    buf
}

fn exchange_frame(cmd: u16, t: u8, records: &[(u16, Vec<u8>)]) -> Vec<u8> {
    let mut buf = vec![(cmd >> 8) as u8, cmd as u8, t, 0x00, 0x00];
    for (tag, value) in records {
        write_tlv(&mut buf, *tag, value, TagWidth::Two);
    }
    buf
}

fn kd(field: Field) -> RQError {
    RQError::Decode { phase: Phase::KeyDerivation, field }
}

#[test]
fn key_is_four_big_endian_words() {
    let k = key_from_bytes(&root_secret()).unwrap();
    assert_eq!(
        k,
        Key { k0: 0x0102_0304, k1: 0x0506_0708, k2: 0x090a_0b0c, k3: 0x0d0e_0f10 }
    );
    assert_eq!(key_from_bytes(&[0u8; 15]), None);
    assert_eq!(key_from_bytes(&[0u8; 17]), None);
    assert_eq!(key_from_bytes(&[]), None);
}

#[test]
fn decipher_block_inverts_the_cipher() {
    let key = root_secret();
    let k = key_from_bytes(&key).unwrap();
    for block in [0u64, 1, 0x0123_4567_89ab_cdef, u64::MAX, 0x8000_0000_0000_0000] {
        let c = encipher(block, &words(&key));
        assert_ne!(c, block);
        let p = decipher_block(((c >> 32) as u32, c as u32), &k);
        assert_eq!(((p.0 as u64) << 32) | p.1 as u64, block);
    }
}

#[test]
fn decipher_block_of_zero_under_zero_key() {
    // Sixteen rounds by hand are out of reach; this pins the exact value
    // against the cipher above, which is written independently.
    let k = Key { k0: 0, k1: 0, k2: 0, k3: 0 };
    let c = encipher(0, &[0; 4]);
    assert_eq!(decipher_block(((c >> 32) as u32, c as u32), &k), (0, 0));
    let other = decipher_block((0, 0), &k);
    let back = encipher(((other.0 as u64) << 32) | other.1 as u64, &[0; 4]);
    assert_eq!(back, 0);
}

#[test]
fn decrypt_recovers_the_plain_text() {
    let key = root_secret();
    let k = key_from_bytes(&key).unwrap();
    for len in 0..40usize {
        let plain: Vec<u8> = (0..len).map(|i| (i * 7 + 1) as u8).collect();
        let cipher = encrypt(&plain, &key);
        assert_eq!(cipher.len() % 8, 0);
        assert!(cipher.len() >= 16);
        assert_eq!(decrypt(&cipher, &k), Some(plain));
    }
}

#[test]
fn decrypt_rejects_what_is_no_whole_number_of_blocks() {
    let k = key_from_bytes(&root_secret()).unwrap();
    assert_eq!(decrypt(&[], &k), None);
    assert_eq!(decrypt(&[0u8; 8], &k), None);
    assert_eq!(decrypt(&[0u8; 15], &k), None);
    assert_eq!(decrypt(&[0u8; 17], &k), None);
    assert!(decrypt(&[0u8; 24], &k).is_some());
}

#[test]
fn decrypt_under_another_key_gives_other_text() {
    let key = root_secret();
    let plain = b"the quick brown fox".to_vec();
    let cipher = encrypt(&plain, &key);
    let other = key_from_bytes(&[0x55u8; 16]).unwrap();
    assert_ne!(decrypt(&cipher, &other), Some(plain));
}

#[test]
fn derive_reads_keys_and_profile() {
    let mut records = key_records();
    records.push(profile_record("bob", 30, 1));
    let data = encrypt(&account_info(&records), &root_secret());
    let d = derive_keys(&data, &root_secret()).unwrap();
    assert_eq!(d.sig, expected_keys());
    assert_eq!(d.profile.nickname, "bob");
    assert_eq!(d.profile.age, 30);
    assert_eq!(d.profile.gender, 1);
}

#[test]
fn derive_without_profile_leaves_it_empty() {
    let data = encrypt(&account_info(&key_records()), &root_secret());
    let d = derive_keys(&data, &root_secret()).unwrap();
    assert_eq!(d.sig, expected_keys());
    assert_eq!(d.profile.nickname, "");
    assert_eq!(d.profile.age, 0);
    assert_eq!(d.profile.gender, 0);
}

#[test]
fn derive_requires_each_key() {
    for (drop, tag) in [(0usize, 0x10au16), (1, 0x10d), (2, 0x10e), (3, 0x120), (4, 0x143), (5, 0x305)] {
        let mut records = key_records();
        records.remove(drop);
        let data = encrypt(&account_info(&records), &root_secret());
        assert_eq!(derive_keys(&data, &root_secret()), Err(kd(Field::Tag(tag))));
    }
}

#[test]
fn derive_rejects_a_malformed_profile() {
    for profile in [
        vec![0u8, 0, 1, 1],
        vec![0, 0, 1, 1, 3, b'a', b'b'],
        vec![0, 0, 1, 1, 1, 0xff],
    ] {
        let mut records = key_records();
        records.push((0x11a, profile));
        let data = encrypt(&account_info(&records), &root_secret());
        assert_eq!(derive_keys(&data, &root_secret()), Err(kd(Field::Tag(0x11a))));
    }
}

#[test]
fn derive_rejects_a_root_secret_of_another_length() {
    let data = encrypt(&account_info(&key_records()), &root_secret());
    assert_eq!(derive_keys(&data, &[1u8; 15]), Err(kd(Field::RootSecret)));
    assert_eq!(derive_keys(&data, &[]), Err(kd(Field::RootSecret)));
}

#[test]
fn derive_rejects_bad_ciphertext_and_bad_plain_text() {
    assert_eq!(derive_keys(&[0u8; 7], &root_secret()), Err(kd(Field::Ciphertext)));
    assert_eq!(derive_keys(&[], &root_secret()), Err(kd(Field::Ciphertext)));
    let data = encrypt(&[0x00], &root_secret());
    assert_eq!(derive_keys(&data, &root_secret()), Err(kd(Field::Frame)));
    let data = encrypt(&[0x00, 0x01, 0x01, 0x0a, 0x00, 0x09, 0x01], &root_secret());
    assert_eq!(derive_keys(&data, &root_secret()), Err(kd(Field::Records)));
    let data = encrypt(&[0x00, 0x00], &root_secret());
    assert_eq!(derive_keys(&data, &root_secret()), Err(kd(Field::Tag(0x10a))));
}

#[test]
fn decode_t119_stores_keys_and_keeps_the_account_number() {
    let mut cache = SessionCache::new();
    cache.account.uin = 10001;
    cache.t104 = vec![4];
    let mut records = key_records();
    records.push(profile_record("alice", 25, 2));
    let data = encrypt(&account_info(&records), &root_secret());
    assert_eq!(decode_t119(&data, &root_secret(), &mut cache), Ok(()));
    assert_eq!(cache.sig, expected_keys());
    assert_eq!(cache.account.uin, 10001);
    assert_eq!(cache.account.nickname, "alice");
    assert_eq!(cache.account.age, 25);
    assert_eq!(cache.account.gender, 2);
    assert_eq!(cache.t104, vec![4]);
    let before = cache.clone();
    assert_eq!(decode_t119(&data, &[0u8; 3], &mut cache), Err(kd(Field::RootSecret)));
    assert_eq!(cache, before);
}

#[test]
fn login_success_populates_keys_and_identity() {
    let mut records = key_records();
    records.push(profile_record("bob", 30, 1));
    let data = encrypt(&account_info(&records), &root_secret());
    let mut cache = SessionCache::new();
    let r = decode_login_response(
        &mut cache,
        &device(),
        &login_frame(0, &[(0x119, data)]),
        b"token",
    );
    assert_eq!(r, Ok(LoginResponse::Success));
    assert_eq!(cache.sig, expected_keys());
    assert_eq!(cache.account.nickname, "bob");
    assert_eq!(cache.account.age, 30);
    assert_eq!(cache.account.gender, 1);
}

#[test]
fn login_success_missing_account_information_is_a_decode_error() {
    let mut cache = SessionCache::new();
    let r = decode_login_response(&mut cache, &device(), &login_frame(0, &[]), b"token");
    assert_eq!(
        r,
        Err(RQError::Decode { phase: Phase::LoginSuccess, field: Field::Tag(0x119) })
    );
    assert_eq!(cache, SessionCache::new());
}

#[test]
fn login_success_stores_the_optional_blobs() {
    let data = encrypt(&account_info(&key_records()), &root_secret());
    let mut nested = vec![0x00, 0x01];
    write_tlv(&mut nested, 0x172, &[0x72, 0x73], TagWidth::Two);
    let mut cache = SessionCache::new();
    let r = decode_login_response(
        &mut cache,
        &device(),
        &login_frame(
            0,
            &[(0x150, vec![0x50]), (0x161, nested), (0x403, vec![0x03]), (0x119, data)],
        ),
        b"token",
    );
    assert_eq!(r, Ok(LoginResponse::Success));
    assert_eq!(cache.t150, vec![0x50]);
    assert_eq!(cache.rollback_sig, vec![0x72, 0x73]);
    assert_eq!(cache.rand_seed, vec![0x03]);
}

#[test]
fn login_success_with_malformed_nested_records_is_a_decode_error() {
    let data = encrypt(&account_info(&key_records()), &root_secret());
    for nested in [vec![0x00u8], vec![0x00, 0x01, 0x01, 0x72, 0x00, 0x02, 0x01]] {
        let mut cache = SessionCache::new();
        let r = decode_login_response(
            &mut cache,
            &device(),
            &login_frame(0, &[(0x161, nested), (0x119, data.clone())]),
            b"token",
        );
        assert_eq!(
            r,
            Err(RQError::Decode { phase: Phase::LoginSuccess, field: Field::Tag(0x161) })
        );
        assert_eq!(cache, SessionCache::new());
    }
}

#[test]
fn login_success_under_a_wrong_root_secret_fails_and_stores_nothing() {
    let data = encrypt(&account_info(&key_records()), &[0x77u8; 16]);
    let mut cache = SessionCache::new();
    let r = decode_login_response(
        &mut cache,
        &device(),
        &login_frame(0, &[(0x119, data), (0x150, vec![1])]),
        b"token",
    );
    assert!(matches!(r, Err(RQError::Decode { phase: Phase::KeyDerivation, .. })));
    assert_eq!(cache, SessionCache::new());
}

#[test]
fn exchange_by_root_secret_renews_the_keys() {
    let data = encrypt(&account_info(&key_records()), &root_secret());
    let mut cache = SessionCache::new();
    let r = decode_exchange_emp_response(
        &mut cache,
        &device(),
        &exchange_frame(15, 0, &[(0x119, data)]),
    );
    assert_eq!(r, Ok(true));
    assert_eq!(cache.sig, expected_keys());
}

#[test]
fn exchange_by_session_key_uses_the_digest_of_the_key() {
    let mut cache = SessionCache::new();
    cache.sig.d2key = b"old session key!".to_vec();
    let secret = md5::compute(b"old session key!").0;
    let data = encrypt(&account_info(&key_records()), &secret);
    let frame = exchange_frame(11, 0, &[(0x119, data)]);
    assert_eq!(decode_exchange_emp_response(&mut cache, &device(), &frame), Ok(true));
    assert_eq!(cache.sig, expected_keys());
    // Under the key itself, not its digest, the same frame does not decode.
    let mut cache = SessionCache::new();
    cache.sig.d2key = secret.to_vec();
    let before = cache.clone();
    let r = decode_exchange_emp_response(&mut cache, &device(), &frame);
    assert!(matches!(r, Err(RQError::Decode { phase: Phase::KeyDerivation, .. })));
    assert_eq!(cache, before);
}

#[test]
fn exchange_with_nonzero_code_or_other_command_renews_nothing() {
    let data = encrypt(&account_info(&key_records()), &root_secret());
    let mut cache = SessionCache::new();
    let r = decode_exchange_emp_response(
        &mut cache,
        &device(),
        &exchange_frame(15, 1, &[(0x119, data.clone())]),
    );
    assert_eq!(r, Ok(false));
    let r = decode_exchange_emp_response(
        &mut cache,
        &device(),
        &exchange_frame(12, 0, &[(0x119, data)]),
    );
    assert_eq!(r, Ok(false));
    assert_eq!(cache, SessionCache::new());
}

#[test]
fn exchange_errors() {
    let mut cache = SessionCache::new();
    let ex = |field| RQError::Decode { phase: Phase::Exchange, field };
    assert_eq!(
        decode_exchange_emp_response(&mut cache, &device(), &[0, 15, 0, 0]),
        Err(ex(Field::Frame))
    );
    assert_eq!(
        decode_exchange_emp_response(&mut cache, &device(), &[0, 15, 0, 0, 0, 1]),
        Err(ex(Field::Records))
    );
    assert_eq!(
        decode_exchange_emp_response(&mut cache, &device(), &exchange_frame(15, 0, &[])),
        Err(ex(Field::Tag(0x119)))
    );
    assert_eq!(
        decode_exchange_emp_response(&mut cache, &device(), &exchange_frame(11, 0, &[])),
        Err(ex(Field::Tag(0x119)))
    );
    assert_eq!(cache, SessionCache::new());
}
