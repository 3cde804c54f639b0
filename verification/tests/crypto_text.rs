use moonlight_web::crypto::{
    decrypt_aes, encrypt_aes, encrypt_output_len, generate_aes_key, hash, salt_pin, CipherFlags, CryptoAlgorithm,
    HashAlgorithm, MoonlightCrypto,
};
use moonlight_web::hex::{decode, encode_upper, FromHexError};
use moonlight_web::instance::{InstanceRegistry, MoonlightError};
use moonlight_web::network::ServerVersion;
use moonlight_web::pair::{PairError, PairPin};
use moonlight_web::text::{parse_i32, parse_u16, parse_u32, IntErrorKind};

#[test]
fn integers_parse_as_std_does() {
    assert_eq!(parse_u32("4294967295").unwrap(), u32::MAX);
    assert_eq!(parse_u32("+7").unwrap(), 7);
    assert_eq!(parse_u32("4294967296").unwrap_err().kind, IntErrorKind::PosOverflow);
    assert_eq!(parse_u32("").unwrap_err().kind, IntErrorKind::Empty);
    assert_eq!(parse_u32("-1").unwrap_err().kind, IntErrorKind::InvalidDigit);
    assert_eq!(parse_u16("65536").unwrap_err().kind, IntErrorKind::PosOverflow);
    assert_eq!(parse_i32("-2147483648").unwrap(), i32::MIN);
    assert_eq!(parse_i32("-2147483649").unwrap_err().kind, IntErrorKind::NegOverflow);
    assert_eq!(parse_i32("-").unwrap_err().kind, IntErrorKind::InvalidDigit);
    for s in ["0", "12", "-5", "+9", "x", "", "99999999999"] {
        assert_eq!(parse_i32(s).ok(), s.parse::<i32>().ok());
    }
}

#[test]
fn hex_text() {
    assert_eq!(encode_upper(&[0x00, 0xab, 0x7f]), "00AB7F");
    assert_eq!(decode("00ab7F").unwrap(), vec![0, 0xab, 0x7f]);
    assert_eq!(decode("abc"), Err(FromHexError::OddLength));
    assert_eq!(decode("0g"), Err(FromHexError::InvalidHexCharacter { c: 'g', index: 1 }));
    let bytes: Vec<u8> = (0..=255).collect();
    assert_eq!(decode(&encode_upper(&bytes)).unwrap(), bytes);
}

#[test]
fn digests_and_pairing_key() {
    assert_eq!(
        encode_upper(&hash(HashAlgorithm::Sha256, b"abc")),
        "BA7816BF8F01CFEA414140DE5DAE2223B00361A396177A9CB410FF61F20015AD"
    );
    assert_eq!(encode_upper(&hash(HashAlgorithm::Sha1, b"abc")), "A9993E364706816ABA3E25717850C26C9CD0D89D");
    let pin = PairPin::from_array([1, 2, 3, 4]).unwrap();
    let salted = salt_pin([0xaa; 16], pin);
    assert_eq!(&salted[16..], b"1234");
    let key = generate_aes_key(HashAlgorithm::Sha256, [0xaa; 16], pin);
    assert_eq!(key, hash(HashAlgorithm::Sha256, &salted)[..16].to_vec());
    assert_eq!(HashAlgorithm::Sha1.hash_len(), 20);
}

#[test]
fn aes_round_trip() {
    let key = [7u8; 16];
    let data = [1u8; 32];
    let encrypted = encrypt_aes(&key, &data);
    assert_ne!(encrypted, data.to_vec());
    assert_eq!(decrypt_aes::<()>(&key, &encrypted).unwrap(), data.to_vec());
    assert!(matches!(decrypt_aes::<()>(&key, &[0u8; 17]), Err(PairError::Decrypt)));
}

#[test]
fn pins() {
    assert!(PairPin::from_array([1, 2, 3, 10]).is_none());
    let pin = PairPin::from_array([0, 9, 5, 1]).unwrap();
    assert_eq!(pin.to_string(), "0951");
    assert_eq!(pin.n(1), Some(9));
    assert_eq!(pin.n(4), None);
    assert_eq!((pin.n1(), pin.n2(), pin.n3(), pin.n4()), (0, 9, 5, 1));
    assert_eq!(MoonlightCrypto::pin_from_random([19, 255, 0, 7]).array(), [9, 5, 0, 7]);
    assert!(PairPin::random().array().iter().all(|d| *d < 10));
    let crypto = MoonlightCrypto::new();
    assert!(crypto.generate_pin().array().iter().all(|d| *d < 10));
    assert_eq!(crypto.generate_random(5).len(), 5);
}

#[test]
fn digest_choice_by_version() {
    let crypto = MoonlightCrypto::new();
    let v = |major| ServerVersion { major, minor: 0, patch: 0, mini_patch: 0 };
    assert_eq!(crypto.hash_algorithm_for_server(v(7)), HashAlgorithm::Sha256);
    assert_eq!(crypto.hash_algorithm_for_server(v(6)), HashAlgorithm::Sha1);
}

#[test]
fn cipher_output_room() {
    let pad = CipherFlags { bits: CipherFlags::PAD_TO_BLOCK_SIZE };
    assert_eq!(encrypt_output_len(CryptoAlgorithm::AesCbc, pad, 16), 32);
    assert_eq!(encrypt_output_len(CryptoAlgorithm::AesGcm, pad, 15), 32);
    assert_eq!(encrypt_output_len(CryptoAlgorithm::AesGcm, CipherFlags { bits: 0 }, 32), 48);
    assert_eq!(CryptoAlgorithm::AesGcm.raw(), 2);
}

#[test]
fn one_instance_at_a_time() {
    let mut registry = InstanceRegistry::new();
    let instance = registry.global().ok().unwrap();
    assert!(matches!(registry.global(), Err(MoonlightError::InstanceAlreadyExists)));
    registry.release(instance);
    assert!(registry.global().is_ok());
}
