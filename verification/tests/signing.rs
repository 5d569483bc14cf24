use elephant::SignError;
use elephant::SignedFile;
use rand::RngCore;

fn fresh_key() -> [u8; 32] {
    let mut sk = [0u8; 32];
    rand::rngs::OsRng.fill_bytes(&mut sk);
    sk
}

#[test]
fn round_trip_recovers_content() {
    let sk = [7u8; 32];
    let content = b"some payload that is worth protecting";
    let signed = SignedFile::sign(content, &sk);
    let bytes = signed.to_bytes();
    let parsed = SignedFile::from_bytes(&bytes).expect("serialized artifact must parse");
    assert_eq!(parsed.content, content.to_vec());
    assert_eq!(parsed.signature, signed.signature);
    assert_eq!(parsed.public_key, signed.public_key);
}

#[test]
fn round_trip_empty_content() {
    let sk = [9u8; 32];
    let signed = SignedFile::sign(b"", &sk);
    let bytes = signed.to_bytes();
    assert_eq!(bytes.len(), 256);
    let parsed = SignedFile::from_bytes(&bytes).expect("serialized artifact must parse");
    assert_eq!(parsed.content, Vec::<u8>::new());
    assert_eq!(parsed.verify(), Ok(true));
}

#[test]
fn footer_layout_is_exact() {
    let sk = [3u8; 32];
    let content = b"abc";
    let signed = SignedFile::sign(content, &sk);
    let bytes = signed.to_bytes();
    let n = bytes.len();
    assert_eq!(n, content.len() + 256);
    assert_eq!(&bytes[..n - 256], content);
    assert_eq!(&bytes[n - 256..n - 192], signed.signature.as_slice());
    assert_eq!(&bytes[n - 192..n - 160], signed.public_key.as_slice());
    assert_eq!(&bytes[n - 160..n - 156], b"SIG!");
    assert!(bytes[n - 156..].iter().all(|&b| b == 0));
    assert_eq!(bytes[n - 156..].len(), 156);
}

#[test]
fn verify_signed_is_true() {
    let sk = [42u8; 32];
    let signed = SignedFile::sign(b"trusted bytes", &sk);
    assert_eq!(signed.verify(), Ok(true));
}

#[test]
fn tamper_any_single_bit_fails_verification() {
    let sk = [5u8; 32];
    let content = b"hello";
    let signed = SignedFile::sign(content, &sk);
    for byte in 0..content.len() {
        for bit in 0..8 {
            let mut tampered = signed.clone();
            tampered.content[byte] ^= 1 << bit;
            assert_eq!(tampered.verify(), Ok(false));
        }
    }
}

#[test]
fn key_substitution_fails_verification() {
    let content = b"owner changes hands";
    let signed = SignedFile::sign(content, &[1u8; 32]);
    let other = SignedFile::sign(content, &[2u8; 32]);
    assert_ne!(signed.public_key, other.public_key);
    let mut substituted = signed.clone();
    substituted.public_key = other.public_key.clone();
    assert_eq!(substituted.verify(), Ok(false));
}

#[test]
fn short_input_never_parses() {
    for len in [0usize, 1, 100, 255] {
        let data = vec![0u8; len];
        assert!(SignedFile::from_bytes(&data).is_none());
        assert!(!SignedFile::is_signed(&data));
    }
}

#[test]
fn unmarked_input_never_parses() {
    let data = vec![0u8; 512];
    assert!(SignedFile::from_bytes(&data).is_none());
    assert!(!SignedFile::is_signed(&data));
}

#[test]
fn corrupting_magic_makes_parse_absent() {
    let sk = [11u8; 32];
    let signed = SignedFile::sign(b"still intact elsewhere", &sk);
    let bytes = signed.to_bytes();
    let n = bytes.len();
    for offset in n - 160..n - 156 {
        let mut corrupted = bytes.clone();
        corrupted[offset] ^= 0xff;
        assert!(SignedFile::from_bytes(&corrupted).is_none());
        assert!(!SignedFile::is_signed(&corrupted));
        // signature and key bytes were not touched
        assert_eq!(&corrupted[n - 256..n - 192], signed.signature.as_slice());
        assert_eq!(&corrupted[n - 192..n - 160], signed.public_key.as_slice());
    }
}

#[test]
fn detection_true_on_signed_false_on_unsigned() {
    let sk = [13u8; 32];
    let content = b"plain old bytes, longer than nothing";
    let signed_bytes = SignedFile::sign(content, &sk).to_bytes();
    assert!(SignedFile::is_signed(&signed_bytes));
    assert!(!SignedFile::is_signed(content));
}

#[test]
fn invalid_public_key_is_an_error_not_false() {
    // Roughly half of all 32-byte strings are not a valid compressed
    // Edwards point; scan a family of keys and check that the ones that do
    // not decode surface InvalidKey rather than a negative verification.
    let mut invalid = 0usize;
    for b in 0u16..=255 {
        let mut pk = vec![0u8; 32];
        pk[0] = b as u8;
        let artifact = SignedFile {
            content: b"x".to_vec(),
            signature: vec![0u8; 64],
            public_key: pk,
        };
        match artifact.verify() {
            Err(SignError::InvalidKey) => invalid += 1,
            Ok(_) => {}
        }
    }
    assert!(invalid > 0);
    assert!(invalid < 256);
}

#[test]
fn concrete_hello_scenario() {
    let sk = fresh_key();
    let signed = SignedFile::sign(b"hello", &sk);
    let bytes = signed.to_bytes();
    assert_eq!(bytes.len(), 261);
    assert!(SignedFile::is_signed(&bytes));
    let parsed = SignedFile::from_bytes(&bytes).expect("signed output must parse");
    assert_eq!(parsed.verify(), Ok(true));
    let truncated = &bytes[..260];
    assert!(SignedFile::from_bytes(truncated).is_none());
}

#[test]
fn signing_is_deterministic() {
    let sk = [21u8; 32];
    let content = b"twice over";
    let first = SignedFile::sign(content, &sk);
    let second = SignedFile::sign(content, &sk);
    assert_eq!(first.signature, second.signature);
    assert_eq!(first.public_key, second.public_key);
    assert_eq!(first.to_bytes(), second.to_bytes());
}

#[test]
fn two_fresh_keys_differ() {
    let sk1 = fresh_key();
    let sk2 = fresh_key();
    let a1 = SignedFile::sign(b"same content", &sk1);
    let a2 = SignedFile::sign(b"same content", &sk2);
    assert_ne!(a1.public_key, a2.public_key);
    assert_ne!(a1.signature, a2.signature);
    assert_eq!(a1.verify(), Ok(true));
    assert_eq!(a2.verify(), Ok(true));
}
