use base64::engine::general_purpose;
use base64::Engine;
use rsa::pkcs8::{DecodePublicKey, EncodePrivateKey, EncodePublicKey, LineEnding};
use rsa::{Pkcs1v15Encrypt, RsaPrivateKey, RsaPublicKey};
use tauri_chat::commands::{login_request, open_session};
use tauri_chat::sqlite::AuthHeader;
use tauri_chat::secure::{
    decode_msg, encode_msg, encrypt_with, get_public_key, plaintext_to_string, SecureError, SERVER_PUBLIC_KEY,
};

fn key_pair(bits: usize) -> (RsaPrivateKey, RsaPublicKey) {
    let mut rng = rand::thread_rng();
    let private_key = RsaPrivateKey::new(&mut rng, bits).expect("failed to generate a key");
    let public_key = RsaPublicKey::from(&private_key);
    (private_key, public_key)
}

#[test]
fn tes_rsa_key() {
    let mut rng = rand::thread_rng();
    let (private_key, public_key) = key_pair(1024);
    let _result = public_key.to_public_key_pem(LineEnding::CRLF).unwrap();
    let _res2 = private_key.to_pkcs8_pem(LineEnding::CRLF).unwrap();

    let raw_str = b"admin";
    let encode_str = public_key.encrypt(&mut rng, Pkcs1v15Encrypt, raw_str).unwrap();
    let base64_encode = general_purpose::STANDARD.encode(encode_str.clone());
    let decode_str = private_key.decrypt(Pkcs1v15Encrypt, &encode_str).unwrap();
    assert_eq!(&decode_str[..], &raw_str[..]);

    let vec = general_purpose::STANDARD.decode(base64_encode).unwrap();
    assert_eq!(vec, encode_str);

    let decode_str = private_key.decrypt(Pkcs1v15Encrypt, &vec).unwrap();
    assert_eq!(String::from_utf8(decode_str).unwrap(), "admin");
}

#[test]
fn encode_and_decode() {
    let (private_key, public_key) = key_pair(512);
    let private_pem = private_key.to_pkcs8_pem(LineEnding::CRLF).unwrap();

    let mut rng = rand::thread_rng();
    let raw_string = "admin".to_string();
    let raw_str = b"admin";
    let encode_str = public_key.encrypt(&mut rng, Pkcs1v15Encrypt, raw_str).unwrap();
    let base64_encode = general_purpose::STANDARD.encode(encode_str);
    let decode_str = decode_msg(&base64_encode, private_pem.as_str()).unwrap();
    assert_eq!(raw_string, decode_str);
}

#[test]
fn public_key_is_unpadded_base64_of_the_der() {
    let (_private_key, public_key) = key_pair(512);
    let pem = public_key.to_public_key_pem(LineEnding::LF).unwrap();
    let der = public_key.to_public_key_der().unwrap();
    let expected = general_purpose::STANDARD_NO_PAD.encode(der.as_bytes());
    let got = get_public_key(&pem).unwrap();
    assert_eq!(got, expected);
    assert!(!got.ends_with('='));
    assert_eq!(general_purpose::STANDARD_NO_PAD.decode(&got).unwrap(), der.as_bytes());
}

#[test]
fn public_key_of_garbage_is_invalid() {
    assert_eq!(get_public_key("not a key"), Err(SecureError::InvalidKey));
    assert_eq!(get_public_key(""), Err(SecureError::InvalidKey));
}

#[test]
fn server_key_parses_and_encrypts() {
    assert!(RsaPublicKey::from_public_key_pem(SERVER_PUBLIC_KEY).is_ok());
    let a = encode_msg(b"admin").unwrap();
    let b = encode_msg(b"admin").unwrap();
    // 1024-bit key: 128 bytes of ciphertext, 171 characters without padding.
    assert_eq!(a.len(), 171);
    assert!(!a.ends_with('='));
    assert_eq!(general_purpose::STANDARD_NO_PAD.decode(&a).unwrap().len(), 128);
    // The padding is random.
    assert_ne!(a, b);
}

#[test]
fn encrypting_too_long_a_message_fails() {
    let long = [7u8; 200];
    assert_eq!(encode_msg(&long), Err(SecureError::EncryptionFailed));
}

#[test]
fn decode_errors() {
    let (private_key, public_key) = key_pair(512);
    let private_pem = private_key.to_pkcs8_pem(LineEnding::LF).unwrap();
    assert_eq!(decode_msg("AAAA", "no key"), Err(SecureError::InvalidKey));
    assert_eq!(decode_msg("***", private_pem.as_str()), Err(SecureError::InvalidBase64));
    // Unpadded text is refused by the padded engine.
    let mut rng = rand::thread_rng();
    let c = public_key.encrypt(&mut rng, Pkcs1v15Encrypt, b"ab").unwrap();
    let unpadded = general_purpose::STANDARD_NO_PAD.encode(&c);
    if unpadded.len() % 4 != 0 {
        assert_eq!(decode_msg(&unpadded, private_pem.as_str()), Err(SecureError::InvalidBase64));
    }
    let garbage = general_purpose::STANDARD.encode([1u8; 64]);
    assert_eq!(decode_msg(&garbage, private_pem.as_str()), Err(SecureError::DecryptionFailed));
}

#[test]
fn decoded_plaintext_that_is_not_utf8_is_empty() {
    let (private_key, public_key) = key_pair(512);
    let private_pem = private_key.to_pkcs8_pem(LineEnding::LF).unwrap();
    let mut rng = rand::thread_rng();
    let c = public_key.encrypt(&mut rng, Pkcs1v15Encrypt, &[0xff, 0xfe]).unwrap();
    let text = general_purpose::STANDARD.encode(c);
    assert_eq!(decode_msg(&text, private_pem.as_str()), Ok(String::new()));
}

#[test]
fn plaintext_text() {
    assert_eq!(plaintext_to_string(b"admin".to_vec()), "admin");
    assert_eq!(plaintext_to_string("héllo".as_bytes().to_vec()), "héllo");
    assert_eq!(plaintext_to_string(vec![0xc3]), "");
    assert_eq!(plaintext_to_string(vec![]), "");
}

#[test]
fn login_key_is_decrypted_into_the_session() {
    let (private_key, public_key) = key_pair(512);
    let private_pem = private_key.to_pkcs8_pem(LineEnding::LF).unwrap();
    let mut rng = rand::thread_rng();
    let c = public_key.encrypt(&mut rng, Pkcs1v15Encrypt, b"user-7").unwrap();
    let data = AuthHeader {
        key: general_purpose::STANDARD.encode(c),
        Authorization: "tok".to_string(),
        refresh_token: "ref".to_string(),
        remember_me: 0,
    };
    let s = open_session(data.clone(), 200, "ok".to_string(), private_pem.as_str(), "db/").unwrap();
    assert_eq!(s.auth.key, "user-7");
    assert_eq!(s.auth.Authorization, "tok");
    assert_eq!(s.database_url, "db/user-7.db");
    assert_eq!(s.answer.data, Some("user-7".to_string()));
    assert!(matches!(
        open_session(data.clone(), 200, "ok".to_string(), "bad", "db/"),
        Err(SecureError::InvalidKey)
    ));
    let mut bad = data;
    bad.key = "%%%".to_string();
    assert!(matches!(
        open_session(bad, 200, "ok".to_string(), private_pem.as_str(), "db/"),
        Err(SecureError::InvalidBase64)
    ));
}

#[test]
fn login_request_sends_no_credential_in_clear() {
    let (_private_key, public_key) = key_pair(512);
    let pem = public_key.to_public_key_pem(LineEnding::LF).unwrap();
    let form = login_request("alice", "secret", true, &pem).unwrap();
    assert_eq!(form.len(), 4);
    assert_eq!(form[0].0, "username");
    assert_ne!(form[0].1, "alice");
    assert_eq!(general_purpose::STANDARD_NO_PAD.decode(&form[0].1).unwrap().len(), 128);
    assert_eq!(form[1].0, "password");
    assert_ne!(form[1].1, "secret");
    assert_eq!(general_purpose::STANDARD_NO_PAD.decode(&form[1].1).unwrap().len(), 128);
    assert_eq!(form[2], ("rememberMe".to_string(), "true".to_string()));
    assert_eq!(form[3], ("publicKey".to_string(), get_public_key(&pem).unwrap()));
    assert_eq!(login_request("alice", "secret", false, "nope"), Err(SecureError::InvalidKey));
    let long = "x".repeat(200);
    assert_eq!(login_request(&long, "secret", false, &pem), Err(SecureError::EncryptionFailed));
}

#[test]
fn encryption_has_key_size_and_opens_with_the_private_key() {
    let (private_key, public_key) = key_pair(512);
    let pem = public_key.to_public_key_pem(LineEnding::LF).unwrap();
    let private_pem = private_key.to_pkcs8_pem(LineEnding::LF).unwrap();
    let text = encrypt_with(&pem, b"admin").unwrap();
    // 64-byte key: 86 characters without padding.
    assert_eq!(text.len(), 86);
    let c = general_purpose::STANDARD_NO_PAD.decode(&text).unwrap();
    assert_eq!(c.len(), 64);
    assert_eq!(private_key.decrypt(Pkcs1v15Encrypt, &c).unwrap(), b"admin");
    let padded = general_purpose::STANDARD.encode(&c);
    assert_eq!(decode_msg(&padded, private_pem.as_str()), Ok("admin".to_string()));
    // 64 - 11 = 53 bytes fit, 54 do not.
    assert!(encrypt_with(&pem, &[1u8; 53]).is_ok());
    assert_eq!(encrypt_with(&pem, &[1u8; 54]), Err(SecureError::EncryptionFailed));
    assert_eq!(encrypt_with("nope", b"a"), Err(SecureError::InvalidKey));
}

#[test]
fn server_key_takes_at_most_117_bytes() {
    assert_eq!(encode_msg(&[b'a'; 117]).unwrap().len(), 171);
    assert_eq!(encode_msg(&[b'a'; 118]), Err(SecureError::EncryptionFailed));
    assert_eq!(encode_msg(b"").unwrap().len(), 171);
}
