use aes::Aes128;
use block_modes::{BlockMode, BlockModeError, Ecb, block_padding::NoPadding};
use sha2::Digest;
use vstd::prelude::*;

use crate::network::ServerVersion;
use crate::pair::{PairError, PairPin, SALT_LENGTH, digits_valid};

verus! {

/// AES block size in bytes.
pub const AES_BLOCK_SIZE: usize = 16;

/// A failure reported by the platform cipher.
#[derive(Debug, Clone, Copy, PartialEq, Eq, Structural)]
pub struct CryptoError;

/// The ciphers that the streaming protocol knows.
#[derive(Debug, Clone, Copy, PartialEq, Eq, Structural)]
pub enum CryptoAlgorithm {
    AesCbc,
    AesGcm,
}

impl CryptoAlgorithm {
    /// The protocol's number for the cipher.
    pub fn raw(self) -> (res: u32)
        ensures
            res == (match self {
                CryptoAlgorithm::AesCbc => 1u32,
                CryptoAlgorithm::AesGcm => 2u32,
            }),
    {
        match self {
            CryptoAlgorithm::AesCbc => 1,
            CryptoAlgorithm::AesGcm => 2,
        }
    }
}

/// The digest used while pairing; hosts from major version 7 on use SHA-256.
#[derive(Debug, Clone, Copy, PartialEq, Eq, Structural)]
pub enum HashAlgorithm {
    Sha1,
    Sha256,
}

/// Digest length in bytes.
pub open spec fn spec_hash_len(algorithm: HashAlgorithm) -> nat {
    match algorithm {
        HashAlgorithm::Sha1 => 20,
        HashAlgorithm::Sha256 => 32,
    }
}

impl HashAlgorithm {
    /// The longest digest of all algorithms.
    pub const MAX_HASH_LEN: usize = 32;

    /// Digest length in bytes.
    pub fn hash_len(&self) -> (res: usize)
        ensures
            res == spec_hash_len(*self),
    {
        match self {
            Self::Sha1 => 20,
            Self::Sha256 => 32,
        }
    }
}

/// SHA-1 digest of the data, as the `sha1` crate computes it.
pub uninterp spec fn spec_sha1(data: Seq<u8>) -> Seq<u8>;

/// SHA-256 digest of the data, as the `sha2` crate computes it.
pub uninterp spec fn spec_sha256(data: Seq<u8>) -> Seq<u8>;

/// AES-128 in ECB mode without padding, encryption, as the `block-modes` crate computes it.
pub uninterp spec fn spec_aes128_ecb_encrypt(key: Seq<u8>, plaintext: Seq<u8>) -> Seq<u8>;

/// AES-128 in ECB mode without padding, decryption, as the `block-modes` crate computes it.
pub uninterp spec fn spec_aes128_ecb_decrypt(key: Seq<u8>, ciphertext: Seq<u8>) -> Seq<u8>;

/// The digest of `data` under `algorithm`.
pub open spec fn spec_digest(algorithm: HashAlgorithm, data: Seq<u8>) -> Seq<u8> {
    match algorithm {
        HashAlgorithm::Sha1 => spec_sha1(data),
        HashAlgorithm::Sha256 => spec_sha256(data),
    }
}

/// `sha1::Sha1::digest`: trusted to return the 20-byte SHA-1 digest of `data`.
#[verifier::external_body]
fn sha1_digest(data: &[u8]) -> (res: Vec<u8>)
    ensures
        res@ == spec_sha1(data@),
        res@.len() == 20,
{
    sha1::Sha1::digest(data).to_vec()
}

/// `sha2::Sha256::digest`: trusted to return the 32-byte SHA-256 digest of `data`.
#[verifier::external_body]
fn sha256_digest(data: &[u8]) -> (res: Vec<u8>)
    ensures
        res@ == spec_sha256(data@),
        res@.len() == 32,
{
    sha2::Sha256::digest(data).to_vec()
}

/// `Ecb::<Aes128, NoPadding>::encrypt` over a copy of `plaintext`: trusted to return as many
/// bytes as it was given, and bytes that decryption under the same key turns back into the
/// plaintext (AES is a permutation of each block).
#[verifier::external_body]
fn aes128_ecb_encrypt(key: &[u8], plaintext: &[u8]) -> (res: Vec<u8>)
    requires
        key@.len() == 16,
        plaintext@.len() % 16 == 0,
    ensures
        res@ == spec_aes128_ecb_encrypt(key@, plaintext@),
        res@.len() == plaintext@.len(),
        spec_aes128_ecb_decrypt(key@, res@) == plaintext@,
{
    let cipher = Ecb::<Aes128, NoPadding>::new_from_slices(key, &[]).expect("a 16 byte key");
    let mut buf = plaintext.to_vec();
    cipher.encrypt(&mut buf, plaintext.len()).expect("whole blocks");
    buf
}

/// `Ecb::<Aes128, NoPadding>::decrypt` over a copy of `ciphertext`: trusted to fail exactly
/// when the length is no whole number of blocks, and to keep the length otherwise.
#[verifier::external_body]
fn aes128_ecb_decrypt(key: &[u8], ciphertext: &[u8]) -> (res: Result<Vec<u8>, BlockModeError>)
    requires
        key@.len() == 16,
    ensures
        res is Ok <==> ciphertext@.len() % 16 == 0,
        res matches Ok(v) ==> v@ == spec_aes128_ecb_decrypt(key@, ciphertext@) && v@.len()
            == ciphertext@.len(),
{
    let cipher = Ecb::<Aes128, NoPadding>::new_from_slices(key, &[]).expect("a 16 byte key");
    let mut buf = ciphertext.to_vec();
    cipher.decrypt(&mut buf)?;
    Ok(buf)
}

#[verifier::external_type_specification]
#[verifier::external_body]
pub struct ExBlockModeError(BlockModeError);

/// The digest of `data` under `algorithm`.
pub fn hash(algorithm: HashAlgorithm, data: &[u8]) -> (res: Vec<u8>)
    ensures
        res@ == spec_digest(algorithm, data@),
        res@.len() == spec_hash_len(algorithm),
{
    match algorithm {
        HashAlgorithm::Sha1 => sha1_digest(data),
        HashAlgorithm::Sha256 => sha256_digest(data),
    }
}

/// The first `output_len` bytes of the digest of `data`. The digest goes through a buffer of
/// `MAX_HASH_LEN` bytes that must be filled exactly, so only SHA-256 is accepted here.
pub fn hash_size_uneq(algorithm: HashAlgorithm, data: &[u8], output_len: usize) -> (res: Vec<u8>)
    requires
        algorithm == HashAlgorithm::Sha256,
        output_len <= HashAlgorithm::MAX_HASH_LEN,
    ensures
        res@ == spec_digest(algorithm, data@).take(output_len as int),
        res@.len() == output_len,
{
    let full = hash(algorithm, data);
    let mut out: Vec<u8> = Vec::new();
    let mut i: usize = 0;
    while i < output_len
        invariant
            i <= output_len <= 32,
            full@.len() == 32,
            out@ == full@.take(i as int),
        decreases output_len - i,
    {
        out.push(full[i]);
        i = i + 1;
        assert(out@ =~= full@.take(i as int));
    }
    out
}

/// The salt followed by the pin's digits as ASCII characters.
pub open spec fn spec_salt_pin(salt: Seq<u8>, pin: Seq<u8>) -> Seq<u8> {
    salt + pin.map_values(|d: u8| (d + 48) as u8)
}

/// The salt followed by the pin's digits as ASCII characters.
pub fn salt_pin(salt: [u8; SALT_LENGTH], pin: PairPin) -> (res: Vec<u8>)
    ensures
        res@ == spec_salt_pin(salt@, pin@),
{
    let digits = pin.array();
    let mut out: Vec<u8> = Vec::new();
    let mut i: usize = 0;
    while i < SALT_LENGTH
        invariant
            i <= SALT_LENGTH,
            out@ == salt@.take(i as int),
        decreases SALT_LENGTH - i,
    {
        out.push(salt[i]);
        i = i + 1;
        assert(out@ =~= salt@.take(i as int));
    }
    let mut j: usize = 0;
    while j < 4
        invariant
            j <= 4,
            digits_valid(digits@),
            digits@ == pin@,
            out@ == salt@ + digits@.take(j as int).map_values(|d: u8| (d + 48) as u8),
        decreases 4 - j,
    {
        let d = digits[j];
        out.push(d + 48);
        j = j + 1;
        assert(out@ =~= salt@ + digits@.take(j as int).map_values(|d: u8| (d + 48) as u8));
    }
    assert(digits@.take(4) =~= digits@);
    out
}

/// The pairing key: the first 16 bytes of the digest of the salted pin.
pub open spec fn spec_aes_key(algorithm: HashAlgorithm, salt: Seq<u8>, pin: Seq<u8>) -> Seq<u8> {
    spec_digest(algorithm, spec_salt_pin(salt, pin)).take(16)
}

/// The pairing key: the first 16 bytes of the digest of the salted pin.
pub fn generate_aes_key(algorithm: HashAlgorithm, salt: [u8; SALT_LENGTH], pin: PairPin) -> (res: Vec<
    u8,
>)
    requires
        algorithm == HashAlgorithm::Sha256,
    ensures
        res@ == spec_aes_key(algorithm, salt@, pin@),
        res@.len() == 16,
{
    let salted = salt_pin(salt, pin);
    hash_size_uneq(algorithm, salted.as_slice(), 16)
}

/// AES-128-ECB encryption of whole blocks under a 16-byte key.
pub fn encrypt_aes(key: &[u8], plaintext: &[u8]) -> (res: Vec<u8>)
    requires
        key@.len() == 16,
        plaintext@.len() % 16 == 0,
    ensures
        res@ == spec_aes128_ecb_encrypt(key@, plaintext@),
        res@.len() == plaintext@.len(),
        spec_aes128_ecb_decrypt(key@, res@) == plaintext@,
{
    aes128_ecb_encrypt(key, plaintext)
}

/// AES-128-ECB decryption under a 16-byte key; a ciphertext that is no whole number of
/// blocks is refused.
pub fn decrypt_aes<E>(key: &[u8], ciphertext: &[u8]) -> (res: Result<Vec<u8>, PairError<E>>)
    requires
        key@.len() == 16,
    ensures
        ciphertext@.len() % 16 != 0 ==> res matches Err(PairError::Decrypt),
        ciphertext@.len() % 16 == 0 ==> (res matches Ok(v) && v@ == spec_aes128_ecb_decrypt(
            key@,
            ciphertext@,
        ) && v@.len() == ciphertext@.len()),
{
    match aes128_ecb_decrypt(key, ciphertext) {
        Ok(v) => Ok(v),
        Err(_) => Err(PairError::Decrypt),
    }
}



/// `rand::fill` on `len` fresh bytes: random bytes, nothing promised of their values.
#[verifier::external_body]
fn random_bytes(len: usize) -> (res: Vec<u8>)
    ensures
        res@.len() == len,
{
    let mut bytes = vec![0u8; len];
    rand::fill(&mut bytes[..]);
    bytes
}

/// Randomness and the choice of digest for the pairing protocol.
#[derive(Debug, Clone, Copy)]
pub struct MoonlightCrypto;

/// The digest a host of version `version` pairs with.
pub open spec fn spec_hash_algorithm_for_server(version: ServerVersion) -> HashAlgorithm {
    if version.major >= 7 {
        HashAlgorithm::Sha256
    } else {
        HashAlgorithm::Sha1
    }
}

/// The pin made of four random bytes: each byte modulo 10.
pub open spec fn spec_pin_from_random(bytes: Seq<u8>) -> Seq<u8> {
    bytes.map_values(|b: u8| (b % 10) as u8)
}

impl MoonlightCrypto {
    /// The protocol's randomness.
    pub fn new() -> (res: Self) {
        MoonlightCrypto
    }

    /// `len` random bytes.
    pub fn generate_random(&self, len: usize) -> (res: Vec<u8>)
        ensures
            res@.len() == len,
    {
        random_bytes(len)
    }

    /// The pin whose digits are four random bytes modulo 10.
    pub fn pin_from_random(bytes: [u8; 4]) -> (res: PairPin)
        ensures
            res@ == spec_pin_from_random(bytes@),
    {
        let digits: [u8; 4] = [bytes[0] % 10, bytes[1] % 10, bytes[2] % 10, bytes[3] % 10];
        assert(digits@ =~= spec_pin_from_random(bytes@));
        match PairPin::from_array(digits) {
            Some(pin) => pin,
            None => {
                assert(digits_valid(digits@));
                assert(false);
                PairPin::from_array([0, 0, 0, 0]).unwrap()
            },
        }
    }

    /// A random pin.
    pub fn generate_pin(&self) -> (res: PairPin)
        ensures
            digits_valid(res@),
    {
        let bytes = self.generate_random(4);
        let array: [u8; 4] = [bytes[0], bytes[1], bytes[2], bytes[3]];
        Self::pin_from_random(array)
    }

    /// A random salt.
    pub fn generate_salt(&self) -> (res: [u8; SALT_LENGTH]) {
        let bytes = self.generate_random(SALT_LENGTH);
        let mut salt: [u8; SALT_LENGTH] = [0; SALT_LENGTH];
        let mut i: usize = 0;
        while i < SALT_LENGTH
            invariant
                bytes@.len() == SALT_LENGTH,
                i <= SALT_LENGTH,
            decreases SALT_LENGTH - i,
        {
            salt[i] = bytes[i];
            i = i + 1;
        }
        salt
    }

    /// The digest a host pairs with: SHA-256 from major version 7 on, SHA-1 before.
    pub fn hash_algorithm_for_server(&self, server_version: ServerVersion) -> (res: HashAlgorithm)
        ensures
            res == spec_hash_algorithm_for_server(server_version),
    {
        if server_version.major >= 7 {
            HashAlgorithm::Sha256
        } else {
            HashAlgorithm::Sha1
        }
    }
}

/// How the platform cipher treats a message.
#[derive(Debug, Clone, Copy, PartialEq, Eq, Structural)]
pub struct CipherFlags {
    pub bits: u32,
}

impl CipherFlags {
    /// Start from the given initialisation vector again.
    pub const RESET: u32 = 0x1;
    /// The last piece of the message.
    pub const FINISH: u32 = 0x2;
    /// Pad the message to whole blocks.
    pub const PAD_TO_BLOCK_SIZE: u32 = 0x4;

    /// Every flag of `flag` is set.
    pub fn contains(&self, flag: u32) -> (res: bool)
        ensures
            res == (self.bits & flag == flag),
    {
        self.bits & flag == flag
    }
}

/// The room encryption needs: padded to the next whole block (a full block more when the
/// message is whole blocks already) or the message as it is, and 16 more for the GCM tag.
pub open spec fn spec_encrypt_output_len(algorithm: CryptoAlgorithm, pad: bool, input_len: int) -> int {
    (if pad { (input_len / 16 + 1) * 16 } else { input_len }) + (if algorithm == CryptoAlgorithm::AesGcm {
        16int
    } else {
        0int
    })
}

/// The room encrypting a message of `input_len` bytes needs. Without padding the message must
/// be whole blocks.
pub fn encrypt_output_len(algorithm: CryptoAlgorithm, flags: CipherFlags, input_len: usize) -> (res: usize)
    requires
        !(flags.bits & CipherFlags::PAD_TO_BLOCK_SIZE == CipherFlags::PAD_TO_BLOCK_SIZE) ==> input_len % 16 == 0,
        input_len + 32 <= usize::MAX,
    ensures
        res == spec_encrypt_output_len(
            algorithm,
            flags.bits & CipherFlags::PAD_TO_BLOCK_SIZE == CipherFlags::PAD_TO_BLOCK_SIZE,
            input_len as int,
        ),
{
    let mut expected = input_len;
    if flags.contains(CipherFlags::PAD_TO_BLOCK_SIZE) {
        expected = (input_len / AES_BLOCK_SIZE + 1) * AES_BLOCK_SIZE;
    }
    if algorithm == CryptoAlgorithm::AesGcm {
        expected = expected + 16;
    }
    expected
}

/// The most room decrypting a message of `input_len` bytes needs: the message's length. Without
/// padding the message must be whole blocks.
pub fn decrypt_output_len(flags: CipherFlags, input_len: usize) -> (res: usize)
    requires
        !(flags.bits & CipherFlags::PAD_TO_BLOCK_SIZE == CipherFlags::PAD_TO_BLOCK_SIZE) ==> input_len % 16 == 0,
    ensures
        res == input_len,
{
    input_len
}

} // verus!
