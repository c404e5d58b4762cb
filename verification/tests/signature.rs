use hmac::{Hmac, Mac};
use lajp_fi::signature::{claimed_digest, PayloadVerifier, SignatureError, SignedRequest};
use sha2::Sha256;

const SECRET: &[u8] = b"topsecret";
const RELOAD_BODY: &[u8] = b"{\"workflow_run\":null}";
const RELOAD_SIGNATURE: &[u8] =
    b"sha256=a06408653f7ae4e97a601a4fdcc65e9dd5d6da55d2217a8133291f95158188cd";

fn guard() -> PayloadVerifier {
    PayloadVerifier::new(SECRET.to_vec())
}

fn sign(key: &[u8], body: &[u8]) -> Vec<u8> {
    let mut mac = Hmac::<Sha256>::new_from_slice(key).unwrap();
    mac.update(body);
    let tag = mac.finalize().into_bytes();
    let mut header = b"sha256=".to_vec();
    header.extend_from_slice(hex::encode(tag).as_bytes());
    header
}

#[test]
fn accepts_the_rfc_4231_vector() {
    let v = PayloadVerifier::new(b"Jefe".to_vec());
    let header = b"sha256=5bdcc146bf60754e6a042426089575c75a003f089d2739839dec58b964ec3843";
    assert_eq!(v.verify(b"what do ya want for nothing?", Some(header)), Ok(()));
}

#[test]
fn accepts_the_reload_body_with_its_signature() {
    assert_eq!(guard().verify(RELOAD_BODY, Some(RELOAD_SIGNATURE)), Ok(()));
}

#[test]
fn accepts_upper_case_and_mixed_case_digits() {
    let upper = b"sha256=A06408653F7AE4E97A601A4FDCC65E9DD5D6DA55D2217A8133291F95158188CD";
    let mixed = b"sha256=A06408653f7ae4e97a601a4fdcc65e9dd5d6da55d2217a8133291f95158188Cd";
    assert_eq!(guard().verify(RELOAD_BODY, Some(upper)), Ok(()));
    assert_eq!(guard().verify(RELOAD_BODY, Some(mixed)), Ok(()));
}

#[test]
fn accepts_what_the_mac_crate_signs() {
    let keys: [&[u8]; 3] = [b"", b"k", &[0x6b; 200]];
    let bodies: [&[u8]; 3] = [b"", b"{}", &[0xff; 1000]];
    for key in keys {
        for body in bodies {
            let v = PayloadVerifier::new(key.to_vec());
            assert_eq!(v.verify(body, Some(&sign(key, body))), Ok(()));
        }
    }
}

#[test]
fn accepts_the_empty_key_and_body() {
    let v = PayloadVerifier::new(Vec::new());
    let header = b"sha256=b613679a0814d9ec772f95d778c35fc5ff1697c493715653c6c712144292c5ad";
    assert_eq!(v.verify(b"", Some(header)), Ok(()));
}

#[test]
fn rejects_every_single_bit_change_of_the_body() {
    let v = guard();
    for i in 0..RELOAD_BODY.len() {
        for bit in 0..8 {
            let mut body = RELOAD_BODY.to_vec();
            body[i] ^= 1 << bit;
            assert_eq!(v.verify(&body, Some(RELOAD_SIGNATURE)), Err(SignatureError::Invalid));
        }
    }
}

#[test]
fn rejects_every_single_bit_change_of_the_digest() {
    let v = guard();
    let tag = hex::decode(&RELOAD_SIGNATURE[7..]).unwrap();
    for i in 0..tag.len() {
        for bit in 0..8 {
            let mut changed = tag.clone();
            changed[i] ^= 1 << bit;
            let mut header = b"sha256=".to_vec();
            header.extend_from_slice(hex::encode(&changed).as_bytes());
            assert_eq!(v.verify(RELOAD_BODY, Some(&header)), Err(SignatureError::Invalid));
        }
    }
}

#[test]
fn rejects_a_changed_lower_case_header_unless_it_only_changes_case() {
    let v = guard();
    for i in 0..RELOAD_SIGNATURE.len() {
        for bit in 0..8 {
            let mut header = RELOAD_SIGNATURE.to_vec();
            header[i] ^= 1 << bit;
            let same_digits = header.to_ascii_lowercase() == RELOAD_SIGNATURE && i >= 7;
            let expected = if same_digits { Ok(()) } else { Err(SignatureError::Invalid) };
            assert_eq!(v.verify(RELOAD_BODY, Some(&header)), expected);
        }
    }
}

#[test]
fn rejects_the_signature_of_another_key() {
    let other = sign(b"topsecreT", RELOAD_BODY);
    assert_eq!(guard().verify(RELOAD_BODY, Some(&other)), Err(SignatureError::Invalid));
}

#[test]
fn rejects_a_missing_header_whatever_the_body() {
    let v = guard();
    let bodies: [&[u8]; 4] = [b"", RELOAD_BODY, b"sha256=", &[0; 64]];
    for body in bodies {
        assert_eq!(v.verify(body, None), Err(SignatureError::Missing));
    }
}

#[test]
fn rejects_a_header_without_the_prefix() {
    let v = guard();
    let bare = &RELOAD_SIGNATURE[7..];
    assert_eq!(v.verify(RELOAD_BODY, Some(bare)), Err(SignatureError::Invalid));
    let mut other = b"sha512=".to_vec();
    other.extend_from_slice(bare);
    assert_eq!(v.verify(RELOAD_BODY, Some(&other)), Err(SignatureError::Invalid));
    let mut padded = b"xxxxxxx".to_vec();
    padded.extend_from_slice(bare);
    assert_eq!(v.verify(RELOAD_BODY, Some(&padded)), Err(SignatureError::Invalid));
}

#[test]
fn rejects_short_and_empty_headers() {
    let v = guard();
    assert_eq!(v.verify(RELOAD_BODY, Some(b"")), Err(SignatureError::Invalid));
    assert_eq!(v.verify(RELOAD_BODY, Some(b"sha256")), Err(SignatureError::Invalid));
    assert_eq!(v.verify(RELOAD_BODY, Some(b"sha256=")), Err(SignatureError::Invalid));
}

#[test]
fn rejects_digits_that_are_no_hex() {
    let v = guard();
    let odd = &RELOAD_SIGNATURE[..RELOAD_SIGNATURE.len() - 1];
    assert_eq!(v.verify(RELOAD_BODY, Some(odd)), Err(SignatureError::Invalid));
    let mut letter = RELOAD_SIGNATURE.to_vec();
    letter[10] = b'g';
    assert_eq!(v.verify(RELOAD_BODY, Some(&letter)), Err(SignatureError::Invalid));
    let mut high = RELOAD_SIGNATURE.to_vec();
    high[12] = 0xe4;
    assert_eq!(v.verify(RELOAD_BODY, Some(&high)), Err(SignatureError::Invalid));
}

#[test]
fn rejects_a_digest_of_the_wrong_length() {
    let v = guard();
    let short = &RELOAD_SIGNATURE[..RELOAD_SIGNATURE.len() - 2];
    assert_eq!(v.verify(RELOAD_BODY, Some(short)), Err(SignatureError::Invalid));
    let mut long = RELOAD_SIGNATURE.to_vec();
    long.extend_from_slice(b"00");
    assert_eq!(v.verify(RELOAD_BODY, Some(&long)), Err(SignatureError::Invalid));
}

#[test]
fn hands_the_body_on_unchanged() {
    let request = SignedRequest {
        body: RELOAD_BODY.to_vec(),
        signature: Some(RELOAD_SIGNATURE.to_vec()),
    };
    assert_eq!(guard().call(request), Ok(RELOAD_BODY.to_vec()));
}

#[test]
fn hands_nothing_on_when_the_check_fails() {
    let unsigned = SignedRequest { body: RELOAD_BODY.to_vec(), signature: None };
    assert_eq!(guard().call(unsigned), Err(SignatureError::Missing));
    let forged = SignedRequest {
        body: b"{\"workflow_run\":{}}".to_vec(),
        signature: Some(RELOAD_SIGNATURE.to_vec()),
    };
    assert_eq!(guard().call(forged), Err(SignatureError::Invalid));
}

#[test]
fn reports_missing_as_400_and_invalid_as_401() {
    assert_eq!(SignatureError::Missing.status_code(), 400);
    assert_eq!(SignatureError::Invalid.status_code(), 401);
    assert_eq!(SignatureError::Missing.message(), "No signature");
    assert_eq!(SignatureError::Invalid.message(), "Invalid signature");
}

#[test]
fn claimed_digest_is_what_the_digits_spell() {
    assert_eq!(claimed_digest(Some(b"sha256=00ff")), Ok(vec![0x00, 0xff]));
    assert_eq!(claimed_digest(Some(b"sha256=0A1b9c")), Ok(vec![0x0a, 0x1b, 0x9c]));
    assert_eq!(claimed_digest(Some(b"sha256=")), Ok(vec![]));
    assert_eq!(
        claimed_digest(Some(b"sha256=0123456789abcdefABCDEF")),
        Ok(vec![0x01, 0x23, 0x45, 0x67, 0x89, 0xab, 0xcd, 0xef, 0xab, 0xcd, 0xef])
    );
}

#[test]
fn claimed_digest_needs_a_header_of_the_right_form() {
    assert_eq!(claimed_digest(None), Err(SignatureError::Missing));
    assert_eq!(claimed_digest(Some(b"")), Err(SignatureError::Invalid));
    assert_eq!(claimed_digest(Some(b"sha256")), Err(SignatureError::Invalid));
    assert_eq!(claimed_digest(Some(b"SHA256=00")), Err(SignatureError::Invalid));
    assert_eq!(claimed_digest(Some(b"sha256:00")), Err(SignatureError::Invalid));
    assert_eq!(claimed_digest(Some(b" sha256=00")), Err(SignatureError::Invalid));
    assert_eq!(claimed_digest(Some(b"sha256=0")), Err(SignatureError::Invalid));
    assert_eq!(claimed_digest(Some(b"sha256=0g")), Err(SignatureError::Invalid));
    assert_eq!(claimed_digest(Some(b"sha256=00 ")), Err(SignatureError::Invalid));
    assert_eq!(claimed_digest(Some(b"sha256= 00")), Err(SignatureError::Invalid));
    assert_eq!(claimed_digest(Some(b"sha256=0x00")), Err(SignatureError::Invalid));
    assert_eq!(claimed_digest(Some(b"sha256=/0")), Err(SignatureError::Invalid));
    assert_eq!(claimed_digest(Some(b"sha256=:0")), Err(SignatureError::Invalid));
    assert_eq!(claimed_digest(Some(b"sha256=@0")), Err(SignatureError::Invalid));
    assert_eq!(claimed_digest(Some(b"sha256=G0")), Err(SignatureError::Invalid));
    assert_eq!(claimed_digest(Some(b"sha256=`0")), Err(SignatureError::Invalid));
}
