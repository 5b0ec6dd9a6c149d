use csrf::CsrfCookie;
use csrf::CsrfError;
use csrf::CsrfProtection;
use csrf::CsrfToken;
use csrf::AesGcmCsrfProtection;
use data_encoding::BASE64;

const KEY_32: [u8; 32] = *b"01234567012345670123456701234567";

const OTHER_KEY_32: [u8; 32] = *b"76543210765432107654321076543210";

const EXPIRES: i64 = 1_500_000_000;

fn secret() -> [u8; 64] {
    let mut secret = [0u8; 64];
    for (i, byte) in secret.iter_mut().enumerate() {
        *byte = i as u8;
    }
    secret
}

const DERIVED_KEY: [u8; 32] = [
    0x30, 0x01, 0xc3, 0x49, 0xab, 0xb2, 0xc5, 0x37, 0xbc, 0x2a, 0xd3, 0xd2, 0x4e, 0x09, 0x15, 0xdd,
    0x70, 0x78, 0x3a, 0x84, 0x39, 0xb1, 0x62, 0x8a, 0x8e, 0x9a, 0xeb, 0xaa, 0x30, 0xac, 0x44, 0x0b,
];

const NONCE: [u8; 12] = [100, 101, 102, 103, 104, 105, 106, 107, 108, 109, 110, 111];

const PADDING: [u8; 16] = [
    200, 201, 202, 203, 204, 205, 206, 207, 208, 209, 210, 211, 212, 213, 214, 215,
];


const AES_GCM_TOKEN: [u8; 108] = [
    0xd1, 0x9f, 0x5e, 0x86, 0x5a, 0x7a, 0x90, 0x8e, 0xb1, 0xb0, 0x02, 0x04, 0x54, 0x7f, 0x92, 0x12,
    0x2f, 0xac, 0x4e, 0x30, 0x13, 0xb9, 0x89, 0x20, 0x1d, 0x24, 0x69, 0xc4, 0x0a, 0xb1, 0xe5, 0x6f,
    0xbe, 0x8b, 0x88, 0xc1, 0x7d, 0x42, 0x92, 0x9f, 0x21, 0x57, 0x2c, 0xe1, 0xc4, 0x53, 0x38, 0x0c,
    0xaf, 0xd4, 0x4f, 0x7d, 0x48, 0x6e, 0x63, 0x03, 0x29, 0x09, 0x92, 0x6e, 0x69, 0x90, 0x4f, 0x44,
    0x73, 0xb3, 0x40, 0xa7, 0x37, 0x76, 0x97, 0xdf, 0xd4, 0xba, 0x31, 0x54, 0xfa, 0x6c, 0xce, 0x07,
    0x64, 0x65, 0x66, 0x67, 0x68, 0x69, 0x6a, 0x6b, 0x6c, 0x6d, 0x6e, 0x6f, 0x26, 0xbb, 0xb9, 0xa7,
    0xd8, 0xd0, 0x10, 0x4b, 0x82, 0x2c, 0xb7, 0x1f, 0xec, 0xbf, 0xfb, 0xa0,
];

const AES_GCM_COOKIE: [u8; 116] = [
    0xd1, 0x9f, 0x5e, 0x86, 0x5a, 0x7a, 0x90, 0x8e, 0xb1, 0xb0, 0x02, 0x04, 0x54, 0x7f, 0x92, 0x12,
    0x2f, 0x82, 0x24, 0x6a, 0x17, 0xbc, 0x8f, 0x27, 0x15, 0x2c, 0x61, 0xcc, 0x02, 0xb9, 0xed, 0x67,
    0xa6, 0x93, 0x90, 0xd9, 0x65, 0x5a, 0x8a, 0x87, 0x29, 0x5f, 0x24, 0xe9, 0xcc, 0x5b, 0x30, 0x04,
    0x97, 0xec, 0x77, 0x45, 0x70, 0x56, 0x5b, 0x3b, 0x21, 0x01, 0x9a, 0x66, 0x61, 0x98, 0x47, 0x4c,
    0x6b, 0xab, 0x58, 0xbf, 0x2f, 0x6e, 0x8f, 0xc7, 0xdc, 0xb2, 0x39, 0x5c, 0xf2, 0x64, 0xc6, 0x0f,
    0xc1, 0x9d, 0x7a, 0x19, 0xa3, 0x23, 0xc3, 0xb9, 0x64, 0x65, 0x66, 0x67, 0x68, 0x69, 0x6a, 0x6b,
    0x6c, 0x6d, 0x6e, 0x6f, 0xdb, 0x69, 0x66, 0x58, 0x76, 0x0e, 0xeb, 0x73, 0x7b, 0x33, 0xae, 0x0a,
    0xbc, 0xff, 0xbd, 0x15,
];


#[test]
fn aes_gcm_from_password() {
    let _ = AesGcmCsrfProtection::from_password(b"correct horse battery staple");
}

#[test]
fn aes_gcm_verification_succeeds() {
    let protect = AesGcmCsrfProtection::from_key(KEY_32);
    let (token, cookie) = protect
        .generate_token_pair(None, 300)
        .expect("couldn't generate token/cookie pair");
    let token = BASE64
        .decode(token.b64_string().as_bytes())
        .expect("token not base64");
    let token = protect.parse_token(&token).expect("token not parsed");
    let cookie = BASE64
        .decode(cookie.b64_string().as_bytes())
        .expect("cookie not base64");
    let cookie = protect.parse_cookie(&cookie).expect("cookie not parsed");
    assert!(
        protect.verify_token_pair(&token, &cookie),
        "could not verify token/cookie pair"
    );
}

#[test]
fn aes_gcm_modified_cookie_sig_fails() {
    let protect = AesGcmCsrfProtection::from_key(KEY_32);
    let (_, cookie) = protect
        .generate_token_pair(None, 300)
        .expect("couldn't generate token/cookie pair");
    let mut bytes = cookie.value().to_vec();
    let cookie_len = bytes.len();
    bytes[cookie_len - 1] ^= 0x01;
    let cookie = CsrfCookie::new(bytes);
    let cookie = BASE64
        .decode(cookie.b64_string().as_bytes())
        .expect("cookie not base64");
    assert!(protect.parse_cookie(&cookie).is_err());
}

#[test]
fn aes_gcm_modified_cookie_value_fails() {
    let protect = AesGcmCsrfProtection::from_key(KEY_32);
    let (_, cookie) = protect
        .generate_token_pair(None, 300)
        .expect("couldn't generate token/cookie pair");
    let mut bytes = cookie.value().to_vec();
    bytes[0] ^= 0x01;
    let cookie = CsrfCookie::new(bytes);
    let cookie = BASE64
        .decode(cookie.b64_string().as_bytes())
        .expect("cookie not base64");
    assert!(protect.parse_cookie(&cookie).is_err());
}

#[test]
fn aes_gcm_modified_token_sig_fails() {
    let protect = AesGcmCsrfProtection::from_key(KEY_32);
    let (token, _) = protect
        .generate_token_pair(None, 300)
        .expect("couldn't generate token/token pair");
    let mut bytes = token.value().to_vec();
    let token_len = bytes.len();
    bytes[token_len - 1] ^= 0x01;
    let token = CsrfToken::new(bytes);
    let token = BASE64
        .decode(token.b64_string().as_bytes())
        .expect("token not base64");
    assert!(protect.parse_token(&token).is_err());
}

#[test]
fn aes_gcm_modified_token_value_fails() {
    let protect = AesGcmCsrfProtection::from_key(KEY_32);
    let (token, _) = protect
        .generate_token_pair(None, 300)
        .expect("couldn't generate token/token pair");
    let mut bytes = token.value().to_vec();
    bytes[0] ^= 0x01;
    let token = CsrfToken::new(bytes);
    let token = BASE64
        .decode(token.b64_string().as_bytes())
        .expect("token not base64");
    assert!(protect.parse_token(&token).is_err());
}

#[test]
fn aes_gcm_mismatched_cookie_token_fail() {
    let protect = AesGcmCsrfProtection::from_key(KEY_32);
    let (token, _) = protect
        .generate_token_pair(None, 300)
        .expect("couldn't generate token/token pair");
    let (_, cookie) = protect
        .generate_token_pair(None, 300)
        .expect("couldn't generate token/token pair");

    let token = BASE64
        .decode(token.b64_string().as_bytes())
        .expect("token not base64");
    let token = protect.parse_token(&token).expect("token not parsed");
    let cookie = BASE64
        .decode(cookie.b64_string().as_bytes())
        .expect("cookie not base64");
    let cookie = protect.parse_cookie(&cookie).expect("cookie not parsed");
    assert!(
        !protect.verify_token_pair(&token, &cookie),
        "verified token/cookie pair when failure expected"
    );
}

#[test]
fn aes_gcm_expired_token_fail() {
    let protect = AesGcmCsrfProtection::from_key(KEY_32);
    let (token, cookie) = protect
        .generate_token_pair(None, -1)
        .expect("couldn't generate token/cookie pair");
    let token = BASE64
        .decode(token.b64_string().as_bytes())
        .expect("token not base64");
    let token = protect.parse_token(&token).expect("token not parsed");
    let cookie = BASE64
        .decode(cookie.b64_string().as_bytes())
        .expect("cookie not base64");
    let cookie = protect.parse_cookie(&cookie).expect("cookie not parsed");
    assert!(
        !protect.verify_token_pair(&token, &cookie),
        "verified token/cookie pair when failure expected"
    );
}

#[test]
fn aes_gcm_lengths_do_not_depend_on_key_or_secret() {
    for key in [KEY_32, OTHER_KEY_32, [0u8; 32], [0xffu8; 32]] {
        let protect = AesGcmCsrfProtection::from_key(key);
        for value in [secret(), [0u8; 64], [0xffu8; 64]] {
            let token = protect.generate_token(&value).expect("token not generated");
            let cookie = protect
                .generate_cookie(&value, 300)
                .expect("cookie not generated");
            assert_eq!(token.value().len(), 108);
            assert_eq!(cookie.value().len(), 116);
            let (token, cookie) = protect
                .generate_token_pair(Some(&value), 300)
                .expect("pair not generated");
            assert_eq!(token.value().len(), 108);
            assert_eq!(cookie.value().len(), 116);
        }
    }
}

#[test]
fn aes_gcm_token_round_trip_recovers_secret() {
    let protect = AesGcmCsrfProtection::from_key(KEY_32);
    for value in [secret(), [0u8; 64], [0xffu8; 64]] {
        let token = protect.generate_token(&value).expect("token not generated");
        let decoded = protect.parse_token(token.value()).expect("token not parsed");
        assert_eq!(decoded.value(), &value[..]);
        assert_eq!(decoded.token(), &value[..]);
    }
}

#[test]
fn aes_gcm_token_round_trip_with_random_secrets() {
    let protect = AesGcmCsrfProtection::from_key(KEY_32);
    for _ in 0..32 {
        let mut value = [0u8; 64];
        protect.random_bytes(&mut value).expect("no random bytes");
        let token = protect.generate_token(&value).expect("token not generated");
        let decoded = protect.parse_token(token.value()).expect("token not parsed");
        assert_eq!(decoded.value(), &value[..]);
    }
}

#[test]
fn aes_gcm_cookie_round_trip_recovers_secret_and_expiry() {
    let protect = AesGcmCsrfProtection::from_key(KEY_32);
    for expires in [EXPIRES, 0, 1, -1, i64::MAX, i64::MIN, 0x0102_0304_0506_0708] {
        let cookie = protect.cookie_with(&secret(), expires, &NONCE, &PADDING);
        assert_eq!(cookie.value().len(), 116);
        let decoded = protect
            .parse_cookie(cookie.value())
            .expect("cookie not parsed");
        assert_eq!(decoded.value(), &secret()[..]);
        assert_eq!(decoded.expires(), expires);
    }
}

#[test]
fn aes_gcm_cookie_expires_ttl_after_issuance() {
    let protect = AesGcmCsrfProtection::from_key(KEY_32);
    for ttl in [0i64, 1, 300, 86_400] {
        let early = protect
            .generate_cookie(&secret(), 0)
            .expect("cookie not generated");
        let cookie = protect
            .generate_cookie(&secret(), ttl)
            .expect("cookie not generated");
        let late = protect
            .generate_cookie(&secret(), 0)
            .expect("cookie not generated");
        let before = protect.parse_cookie(early.value()).expect("not parsed").expires();
        let expires = protect.parse_cookie(cookie.value()).expect("not parsed").expires();
        let after = protect.parse_cookie(late.value()).expect("not parsed").expires();
        assert!(before + ttl <= expires);
        assert!(expires <= after + ttl);
        assert!(after - before <= 15);
    }
}

#[test]
fn aes_gcm_known_token_is_accepted() {
    let protect = AesGcmCsrfProtection::from_key(KEY_32);
    let decoded = protect.parse_token(&AES_GCM_TOKEN).expect("token not parsed");
    assert_eq!(decoded.value(), &secret()[..]);
}

#[test]
fn aes_gcm_known_cookie_is_accepted() {
    let protect = AesGcmCsrfProtection::from_key(KEY_32);
    let decoded = protect
        .parse_cookie(&AES_GCM_COOKIE)
        .expect("cookie not parsed");
    assert_eq!(decoded.value(), &secret()[..]);
    assert_eq!(decoded.expires(), EXPIRES);
}

#[test]
fn aes_gcm_known_values_are_produced() {
    let protect = AesGcmCsrfProtection::from_key(KEY_32);
    let token = protect.token_with(&secret(), &NONCE, &PADDING);
    assert_eq!(token.value(), &AES_GCM_TOKEN[..]);
    let cookie = protect.cookie_with(&secret(), EXPIRES, &NONCE, &PADDING);
    assert_eq!(cookie.value(), &AES_GCM_COOKIE[..]);
}

#[test]
fn aes_gcm_every_flipped_bit_of_a_token_is_rejected() {
    let protect = AesGcmCsrfProtection::from_key(KEY_32);
    let token = protect.generate_token(&secret()).expect("token not generated");
    for position in 0..token.value().len() {
        for bit in 0..8 {
            let mut bytes = token.value().to_vec();
            bytes[position] ^= 1 << bit;
            assert_eq!(
                protect.parse_token(&bytes).err(),
                Some(CsrfError::ValidationFailure),
                "byte {} bit {}",
                position,
                bit
            );
        }
    }
    assert!(protect.parse_token(token.value()).is_ok());
}

#[test]
fn aes_gcm_every_flipped_bit_of_a_cookie_is_rejected() {
    let protect = AesGcmCsrfProtection::from_key(KEY_32);
    let cookie = protect
        .generate_cookie(&secret(), 300)
        .expect("cookie not generated");
    for position in 0..cookie.value().len() {
        for bit in 0..8 {
            let mut bytes = cookie.value().to_vec();
            bytes[position] ^= 1 << bit;
            assert_eq!(
                protect.parse_cookie(&bytes).err(),
                Some(CsrfError::ValidationFailure),
                "byte {} bit {}",
                position,
                bit
            );
        }
    }
    assert!(protect.parse_cookie(cookie.value()).is_ok());
}

#[test]
fn aes_gcm_wrong_lengths_are_rejected() {
    let protect = AesGcmCsrfProtection::from_key(KEY_32);
    let token = AES_GCM_TOKEN;
    let cookie = AES_GCM_COOKIE;
    assert_eq!(
        protect.parse_token(&token[..token.len() - 1]).err(),
        Some(CsrfError::ValidationFailure)
    );
    assert_eq!(
        protect.parse_token(&token[1..]).err(),
        Some(CsrfError::ValidationFailure)
    );
    assert_eq!(
        protect.parse_cookie(&cookie[..cookie.len() - 1]).err(),
        Some(CsrfError::ValidationFailure)
    );
    assert_eq!(
        protect.parse_cookie(&cookie[1..]).err(),
        Some(CsrfError::ValidationFailure)
    );
    let mut longer = token.to_vec();
    longer.push(0);
    assert_eq!(
        protect.parse_token(&longer).err(),
        Some(CsrfError::ValidationFailure)
    );
    let mut longer = cookie.to_vec();
    longer.push(0);
    assert_eq!(
        protect.parse_cookie(&longer).err(),
        Some(CsrfError::ValidationFailure)
    );
    assert_eq!(
        protect.parse_token(&[]).err(),
        Some(CsrfError::ValidationFailure)
    );
    assert_eq!(
        protect.parse_cookie(&[]).err(),
        Some(CsrfError::ValidationFailure)
    );
    assert_eq!(
        protect.parse_token(&cookie).err(),
        Some(CsrfError::ValidationFailure)
    );
    assert_eq!(
        protect.parse_cookie(&token).err(),
        Some(CsrfError::ValidationFailure)
    );
}

#[test]
fn aes_gcm_values_of_another_key_are_rejected() {
    let issuer = AesGcmCsrfProtection::from_key(KEY_32);
    let stranger = AesGcmCsrfProtection::from_key(OTHER_KEY_32);
    let (token, cookie) = issuer
        .generate_token_pair(None, 300)
        .expect("pair not generated");
    assert_eq!(
        stranger.parse_token(token.value()).err(),
        Some(CsrfError::ValidationFailure)
    );
    assert_eq!(
        stranger.parse_cookie(cookie.value()).err(),
        Some(CsrfError::ValidationFailure)
    );
    assert!(issuer.parse_token(token.value()).is_ok());
    assert!(issuer.parse_cookie(cookie.value()).is_ok());
}

#[test]
fn aes_gcm_previous_secret_is_used_again() {
    let protect = AesGcmCsrfProtection::from_key(KEY_32);
    let (token, cookie) = protect
        .generate_token_pair(Some(&secret()), 300)
        .expect("pair not generated");
    let token = protect.parse_token(token.value()).expect("token not parsed");
    let cookie = protect
        .parse_cookie(cookie.value())
        .expect("cookie not parsed");
    assert_eq!(token.value(), &secret()[..]);
    assert_eq!(cookie.value(), &secret()[..]);
    assert!(protect.verify_token_pair(&token, &cookie));
}

#[test]
fn aes_gcm_refreshed_cookie_verifies_with_earlier_token() {
    let protect = AesGcmCsrfProtection::from_key(KEY_32);
    let (token, _) = protect
        .generate_token_pair(None, 300)
        .expect("pair not generated");
    let token = protect.parse_token(token.value()).expect("token not parsed");
    let mut previous = [0u8; 64];
    previous.copy_from_slice(token.value());
    let (_, cookie) = protect
        .generate_token_pair(Some(&previous), 600)
        .expect("pair not generated");
    let cookie = protect
        .parse_cookie(cookie.value())
        .expect("cookie not parsed");
    assert!(protect.verify_token_pair(&token, &cookie));
}

#[test]
fn aes_gcm_fresh_secrets_differ() {
    let protect = AesGcmCsrfProtection::from_key(KEY_32);
    let (first, _) = protect
        .generate_token_pair(None, 300)
        .expect("pair not generated");
    let (second, _) = protect
        .generate_token_pair(None, 300)
        .expect("pair not generated");
    let first = protect.parse_token(first.value()).expect("token not parsed");
    let second = protect.parse_token(second.value()).expect("token not parsed");
    assert_ne!(first.value(), second.value());
}

#[test]
fn aes_gcm_password_gives_the_derived_key() {
    let from_password = AesGcmCsrfProtection::from_password(b"correct horse battery staple");
    let from_key = AesGcmCsrfProtection::from_key(DERIVED_KEY);
    let token = from_password
        .generate_token(&secret())
        .expect("token not generated");
    let decoded = from_key.parse_token(token.value()).expect("token not parsed");
    assert_eq!(decoded.value(), &secret()[..]);
    let other = AesGcmCsrfProtection::from_password(b"correct horse battery stapler");
    assert!(other.parse_token(token.value()).is_err());
}

#[test]
fn aes_gcm_random_bytes_fill_the_buffer() {
    let protect = AesGcmCsrfProtection::from_key(KEY_32);
    let mut first = [0u8; 64];
    let mut second = [0u8; 64];
    assert_eq!(protect.random_bytes(&mut first), Ok(()));
    assert_eq!(protect.random_bytes(&mut second), Ok(()));
    assert_ne!(first, [0u8; 64]);
    assert_ne!(first, second);
    let mut empty: [u8; 0] = [];
    assert_eq!(protect.random_bytes(&mut empty), Ok(()));
}

#[test]
fn aes_gcm_encodings_of_one_secret_differ() {
    let protect = AesGcmCsrfProtection::from_key(KEY_32);
    let first = protect.generate_token(&secret()).expect("token not generated");
    let second = protect.generate_token(&secret()).expect("token not generated");
    assert_ne!(first.value(), second.value());
    let first = protect
        .generate_cookie(&secret(), 300)
        .expect("cookie not generated");
    let second = protect
        .generate_cookie(&secret(), 300)
        .expect("cookie not generated");
    assert_ne!(first.value(), second.value());
}

#[test]
fn aes_gcm_secret_is_not_visible_in_the_encoding() {
    let protect = AesGcmCsrfProtection::from_key(KEY_32);
    let token = protect.generate_token(&secret()).expect("token not generated");
    let cookie = protect
        .generate_cookie(&secret(), 300)
        .expect("cookie not generated");
    let value = secret();
    assert!(!token.value().windows(16).any(|w| value.windows(16).any(|s| s == w)));
    assert!(!cookie.value().windows(16).any(|w| value.windows(16).any(|s| s == w)));
}

#[test]
fn aes_gcm_nonce_sits_between_ciphertext_and_tag() {
    let protect = AesGcmCsrfProtection::from_key(KEY_32);
    let token = protect.token_with(&secret(), &NONCE, &PADDING);
    assert_eq!(&token.value()[80..80 + NONCE.len()], &NONCE[..]);
    let cookie = protect.cookie_with(&secret(), EXPIRES, &NONCE, &PADDING);
    assert_eq!(&cookie.value()[88..88 + NONCE.len()], &NONCE[..]);
}

#[test]
fn aes_gcm_padding_is_dropped_on_decoding() {
    let protect = AesGcmCsrfProtection::from_key(KEY_32);
    let first = protect.token_with(&secret(), &NONCE, &PADDING);
    let second = protect.token_with(&secret(), &NONCE, &[0u8; 16]);
    assert_ne!(first.value(), second.value());
    let first = protect.parse_token(first.value()).expect("token not parsed");
    let second = protect.parse_token(second.value()).expect("token not parsed");
    assert_eq!(first, second);
}
