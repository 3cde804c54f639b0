//! Pairing a client with a host, one answer at a time: from the client's certificate and
//! the pin to the host's certificate. Each step takes the host's answer to the request that
//! the step before produced, and yields the next request or the reason pairing failed.
use vstd::prelude::*;
use vstd::string::StringSliceAdditionalSpecFns;
use vstd::utf8::encode_utf8;

use crate::crypto::{
    HashAlgorithm, MoonlightCrypto, encrypt_aes, generate_aes_key, hash, spec_aes128_ecb_decrypt,
    spec_aes128_ecb_encrypt, spec_aes_key, spec_sha256, decrypt_aes,
};
use crate::network::{
    ClientPairRequest1, ClientPairRequest2, ClientPairRequest3, ClientPairRequest4, ClientPairRequest5,
    HostPairResponse1, HostPairResponse2, HostPairResponse3, HostPairResponse4, PairStatus,
    ServerPairResponse5, ServerVersion,
};
use crate::pair::{PairError, PairPin, SALT_LENGTH, CHALLENGE_LENGTH};
use crate::text::copy_range;
use rsa::pkcs8::{DecodePrivateKey, DecodePublicKey};

verus! {

#[verifier::external_type_specification]
#[verifier::external_body]
#[verifier::reject_recursive_types(E)]
pub struct ExNomErr<E>(x509_parser::nom::Err<E>);

#[verifier::external_type_specification]
#[verifier::external_body]
pub struct ExX509Error(x509_parser::error::X509Error);

#[verifier::external_type_specification]
#[verifier::external_body]
pub struct ExPemError(pem::PemError);

#[verifier::external_type_specification]
#[verifier::external_body]
pub struct ExPkcs8Error(rsa::pkcs8::Error);

/// The signature bits and the DER of the subject public key info of the X.509 certificate
/// `der`, as `x509_parser` reads it; `None` when it is no certificate.
pub uninterp spec fn spec_x509_certificate(der: Seq<u8>) -> Option<(Seq<u8>, Seq<u8>)>;

/// `x509_parser::parse_x509_certificate`, keeping the certificate's signature value and the
/// raw DER of its public key.
#[verifier::external_body]
fn parse_certificate(der: &[u8]) -> (res: Result<(Vec<u8>, Vec<u8>), x509_parser::nom::Err<x509_parser::error::X509Error>>)
    ensures
        match spec_x509_certificate(der@) {
            Some((signature, key)) => res matches Ok((s, k)) && s@ == signature && k@ == key,
            None => res is Err,
        },
{
    let (_, cert) = x509_parser::parse_x509_certificate(der)?;
    Ok((cert.signature_value.data.to_vec(), cert.public_key().raw.to_vec()))
}

/// The contents of the PEM document `text`, as the `pem` crate reads it; `None` when it is
/// no PEM document.
pub uninterp spec fn spec_pem_contents(text: Seq<char>) -> Option<Seq<u8>>;

/// `pem::Pem::from_str`, keeping the document's contents.
#[verifier::external_body]
pub(crate) fn pem_contents(text: &str) -> (res: Result<Vec<u8>, pem::PemError>)
    ensures
        match spec_pem_contents(text@) {
            Some(c) => res matches Ok(v) && v@ == c,
            None => res is Err,
        },
{
    let pem: pem::Pem = text.parse()?;
    Ok(pem.contents().to_vec())
}

/// The algorithm identifier of the PKCS#8 private key `der`, as the bytes of its object
/// identifier; `None` when it is no PKCS#8 document.
pub uninterp spec fn spec_pkcs8_algorithm(der: Seq<u8>) -> Option<Seq<u8>>;

/// `pkcs8::PrivateKeyInfo::try_from`, keeping the bytes of the algorithm's object identifier.
#[verifier::external_body]
fn private_key_algorithm(der: &[u8]) -> (res: Result<Vec<u8>, rsa::pkcs8::Error>)
    ensures
        match spec_pkcs8_algorithm(der@) {
            Some(oid) => res matches Ok(v) && v@ == oid,
            None => res is Err,
        },
{
    let info = rsa::pkcs8::PrivateKeyInfo::try_from(der)?;
    Ok(info.algorithm.oid.as_bytes().to_vec())
}

/// The object identifier of RSA keys, 1.2.840.113549.1.1.1.
pub open spec fn rsa_oid() -> Seq<u8> {
    seq![0x2au8, 0x86u8, 0x48u8, 0x86u8, 0xf7u8, 0x0du8, 0x01u8, 0x01u8, 0x01u8]
}

/// The PKCS#1 v1.5 signature with the SHA-256 prefix of `digest` under the PKCS#8 RSA private
/// key `key`, as the `rsa` crate computes it; `None` when the key cannot be read or cannot
/// sign.
pub uninterp spec fn spec_rsa_sign_sha256(key: Seq<u8>, digest: Seq<u8>) -> Option<Seq<u8>>;

/// `rsa::RsaPrivateKey::from_pkcs8_der`, then `sign` with `Pkcs1v15Sign::new::<Sha256>()`.
#[verifier::external_body]
fn rsa_sign_sha256(key: &[u8], digest: &[u8]) -> (res: Option<Vec<u8>>)
    ensures
        res.deep_view() == spec_rsa_sign_sha256(key@, digest@),
{
    let key = rsa::RsaPrivateKey::from_pkcs8_der(key).ok()?;
    key.sign(rsa::Pkcs1v15Sign::new::<sha2::Sha256>(), digest).ok()
}

/// Whether `signature` is the PKCS#1 v1.5 signature with the SHA-256 prefix of `digest`
/// under the RSA public key whose subject public key info is `key`, as the `rsa` crate
/// checks it; `None` when the key cannot be read.
pub uninterp spec fn spec_rsa_verify_sha256(key: Seq<u8>, digest: Seq<u8>, signature: Seq<u8>) -> Option<bool>;

/// `rsa::RsaPublicKey::from_public_key_der`, then `verify` with
/// `Pkcs1v15Sign::new::<Sha256>()`.
#[verifier::external_body]
fn rsa_verify_sha256(key: &[u8], digest: &[u8], signature: &[u8]) -> (res: Option<bool>)
    ensures
        res == spec_rsa_verify_sha256(key@, digest@, signature@),
{
    let key = rsa::RsaPublicKey::from_public_key_der(key).ok()?;
    Some(key.verify(rsa::Pkcs1v15Sign::new::<sha2::Sha256>(), digest, signature).is_ok())
}

/// Whether the host signed `server_secret` with the key of its certificate; `None` when the
/// certificate's public key cannot be read.
pub fn verify_signature(server_secret: &[u8], server_signature: &[u8], server_public_key: &[u8]) -> (res: Option<bool>)
    ensures
        res == spec_rsa_verify_sha256(server_public_key@, spec_sha256(server_secret@), server_signature@),
{
    let hashed = hash(HashAlgorithm::Sha256, server_secret);
    rsa_verify_sha256(server_public_key, hashed.as_slice(), server_signature)
}

/// The signature of `data` under the client's private key: PKCS#1 v1.5 over its SHA-256
/// digest; `None` when the key cannot sign.
pub fn sign_data(private_key: &[u8], data: &[u8]) -> (res: Option<Vec<u8>>)
    ensures
        res.deep_view() == spec_rsa_sign_sha256(private_key@, spec_sha256(data@)),
{
    let hashed = hash(HashAlgorithm::Sha256, data);
    rsa_sign_sha256(private_key, hashed.as_slice())
}

fn bytes_equal(a: &[u8], b: &[u8]) -> (res: bool)
    ensures
        res == (a@ == b@),
{
    if a.len() != b.len() {
        return false;
    }
    let mut i: usize = 0;
    while i < a.len()
        invariant
            a@.len() == b@.len(),
            i <= a@.len(),
            forall|j: int| 0 <= j < i ==> a@[j] == b@[j],
        decreases a@.len() - i,
    {
        if a[i] != b[i] {
            return false;
        }
        i = i + 1;
    }
    assert(a@ =~= b@);
    true
}

fn concat3(a: &[u8], b: &[u8], c: &[u8]) -> (res: Vec<u8>)
    ensures
        res@ == a@ + b@ + c@,
{
    let mut out = copy_range(a, 0, a.len());
    assert(a@.subrange(0, a@.len() as int) =~= a@);
    let mut i: usize = 0;
    while i < b.len()
        invariant
            i <= b@.len(),
            out@ == a@ + b@.take(i as int),
        decreases b@.len() - i,
    {
        out.push(b[i]);
        i = i + 1;
        assert(out@ =~= a@ + b@.take(i as int));
    }
    assert(b@.take(b@.len() as int) =~= b@);
    let mut j: usize = 0;
    while j < c.len()
        invariant
            j <= c@.len(),
            out@ == a@ + b@ + c@.take(j as int),
        decreases c@.len() - j,
    {
        out.push(c[j]);
        j = j + 1;
        assert(out@ =~= a@ + b@ + c@.take(j as int));
    }
    assert(c@.take(c@.len() as int) =~= c@);
    out
}

/// Which answer of the host pairing waits for.
#[derive(Debug, Clone, Copy, PartialEq, Eq, Structural)]
pub enum PairPhase {
    /// The answer to the salt and the client's certificate, with the host's certificate.
    AwaitingServerCertificate,
    /// The answer to the client's challenge.
    AwaitingChallengeResponse,
    /// The host's secret and its signature.
    AwaitingServerSecret,
    /// The host's acknowledgement of the client's secret.
    AwaitingSecretAcknowledgement,
    /// The last answer.
    AwaitingPairChallenge,
}

/// What pairing knows between two answers of the host.
#[derive(Debug, Clone)]
pub struct PairingState {
    pub phase: PairPhase,
    pub device_name: String,
    /// The key derived from the salt and the pin.
    pub aes_key: Vec<u8>,
    pub client_cert_signature: Vec<u8>,
    pub client_private_key: Vec<u8>,
    /// The client's challenge to the host.
    pub challenge: Vec<u8>,
    pub server_certificate_pem: String,
    pub server_cert_signature: Vec<u8>,
    pub server_public_key: Vec<u8>,
    /// The hash the host computed of the client's challenge.
    pub server_response_hash: Vec<u8>,
    pub client_secret: Vec<u8>,
}

/// Pairing failed; `unpair` tells that the client must ask the host to forget it first.
#[derive(Debug, Clone)]
pub struct PairFailure<E> {
    pub error: PairError<E>,
    pub unpair: bool,
}

/// Pairing succeeded: the host's certificate, as the host sent it.
#[derive(Debug, Clone)]
pub struct PairSuccess {
    pub server_certificate_pem: String,
}

/// A failure that needs no unpairing.
pub open spec fn failed<E>(error: PairError<E>) -> PairFailure<E> {
    PairFailure { error, unpair: false }
}

/// The state after the client's certificate and key were read and the salt and pin turned
/// into the key.
pub open spec fn spec_started(state: PairingState, device_name: Seq<char>, aes_key: Seq<u8>, client_cert_signature: Seq<u8>, client_private_key: Seq<u8>) -> bool {
    &&& state.phase == PairPhase::AwaitingServerCertificate
    &&& state.device_name@ == device_name
    &&& state.aes_key@ == aes_key
    &&& state.client_cert_signature@ == client_cert_signature
    &&& state.client_private_key@ == client_private_key
}

/// The PKCS#8 document `der` holds an RSA private key that the `rsa` crate can read.
pub uninterp spec fn spec_rsa_private_key_readable(der: Seq<u8>) -> bool;

/// `rsa::RsaPrivateKey::from_pkcs8_der` on `der`: whether it reads the key.
#[verifier::external_body]
fn rsa_private_key_readable(der: &[u8]) -> (res: bool)
    ensures
        res == spec_rsa_private_key_readable(der@),
{
    rsa::RsaPrivateKey::from_pkcs8_der(der).is_ok()
}

/// A PEM document: its text and the bytes it holds.
pub struct PemDocument {
    text: String,
    contents: Vec<u8>,
}

impl PemDocument {
    /// The document's text.
    pub closed spec fn text_view(&self) -> Seq<char> {
        self.text@
    }

    /// The bytes the document holds.
    pub closed spec fn contents_view(&self) -> Seq<u8> {
        self.contents@
    }

    #[verifier::type_invariant]
    closed spec fn wf(self) -> bool {
        spec_pem_contents(self.text@) == Some(self.contents@)
    }

    /// Reads the PEM document `text`.
    pub fn parse(text: &str) -> (res: Result<PemDocument, pem::PemError>)
        ensures
            match spec_pem_contents(text@) {
                Some(c) => res matches Ok(d) && d.text_view() == text@ && d.contents_view() == c,
                None => res is Err,
            },
    {
        match pem_contents(text) {
            Ok(contents) => Ok(PemDocument { text: text.to_owned(), contents }),
            Err(e) => Err(e),
        }
    }

    /// The bytes the document holds: what its text holds.
    pub fn contents(&self) -> (res: &[u8])
        ensures
            res@ == self.contents_view(),
            spec_pem_contents(self.text_view()) == Some(self.contents_view()),
    {
        proof { use_type_invariant(self); }
        self.contents.as_slice()
    }

    /// The document's text.
    pub fn text(&self) -> (res: &str)
        ensures
            res@ == self.text_view(),
    {
        self.text.as_str()
    }
}

/// The client's certificate and private key are accepted: the certificate is an X.509
/// certificate, and the key an RSA key in PKCS#8 form.
pub open spec fn credentials_accepted(certificate_der: Seq<u8>, private_key_der: Seq<u8>) -> bool {
    &&& spec_x509_certificate(certificate_der) is Some
    &&& spec_pkcs8_algorithm(private_key_der) == Some(rsa_oid())
    &&& spec_rsa_private_key_readable(private_key_der)
}

/// Why the client's certificate and key are refused, if they are: the certificate must be
/// X.509, the key must be PKCS#8, for RSA, and readable as an RSA key.
pub open spec fn spec_credentials<E>(certificate_der: Seq<u8>, private_key_der: Seq<u8>) -> Result<Seq<u8>, PairError<E>> {
    match spec_x509_certificate(certificate_der) {
        None => Err(PairError::ClientCertificateError),
        Some((signature, _)) => match spec_pkcs8_algorithm(private_key_der) {
            None => Err(PairError::ClientPrivateKeyPem),
            Some(oid) => if oid != rsa_oid() {
                Err(PairError::IncorrectPrivateKey)
            } else if !spec_rsa_private_key_readable(private_key_der) {
                Err(PairError::ClientPrivateKeyPem)
            } else {
                Ok(signature)
            },
        },
    }
}

/// Checks the client's certificate and private key, and gives the certificate's signature.
pub fn check_client_credentials<E>(certificate_der: &[u8], private_key_der: &[u8]) -> (res: Result<Vec<u8>, PairError<E>>)
    ensures
        match spec_credentials::<E>(certificate_der@, private_key_der@) {
            Ok(signature) => res matches Ok(s) && s@ == signature,
            Err(e) => res matches Err(r) && r == e,
        },
        res is Ok <==> credentials_accepted(certificate_der@, private_key_der@),
{
    let signature = match parse_certificate(certificate_der) {
        Ok((signature, _)) => signature,
        Err(_) => return Err(PairError::ClientCertificateError),
    };
    let oid = match private_key_algorithm(private_key_der) {
        Ok(oid) => oid,
        Err(_) => return Err(PairError::ClientPrivateKeyPem),
    };
    let rsa: [u8; 9] = [0x2a, 0x86, 0x48, 0x86, 0xf7, 0x0d, 0x01, 0x01, 0x01];
    assert(rsa@ == rsa_oid());
    if !bytes_equal(oid.as_slice(), &rsa) {
        return Err(PairError::IncorrectPrivateKey);
    }
    if !rsa_private_key_readable(private_key_der) {
        return Err(PairError::ClientPrivateKeyPem);
    }
    Ok(signature)
}

/// Begins pairing: checks the client's certificate and private key, derives the key from the
/// salt and the pin, and yields the first request, which carries the certificate's text.
/// Refused credentials are reported whatever the host's version; the key of a host before
/// major version 7 cannot be derived, so accepted credentials need a newer host.
pub fn start_pairing<E>(
    crypto: &MoonlightCrypto,
    client_private_key_pem: &PemDocument,
    client_certificate_pem: &PemDocument,
    device_name: &str,
    server_version: ServerVersion,
    pin: PairPin,
    salt: [u8; SALT_LENGTH],
) -> (res: Result<(PairingState, ClientPairRequest1), PairError<E>>)
    requires
        credentials_accepted(client_certificate_pem.contents_view(), client_private_key_pem.contents_view())
            ==> server_version.major >= 7,
    ensures
        match spec_credentials::<E>(client_certificate_pem.contents_view(), client_private_key_pem.contents_view()) {
            Err(e) => res matches Err(r) && r == e,
            Ok(signature) => res matches Ok((state, request)) && spec_started(
                state,
                device_name@,
                spec_aes_key(HashAlgorithm::Sha256, salt@, pin@),
                signature,
                client_private_key_pem.contents_view(),
            ) && request.device_name@ == device_name@ && request.salt == salt
                && request.client_cert_pem@ == encode_utf8(client_certificate_pem.text_view()),
        },
{
    let key = client_private_key_pem.contents();
    let client_cert_signature = match check_client_credentials::<E>(client_certificate_pem.contents(), key) {
        Ok(signature) => signature,
        Err(e) => return Err(e),
    };
    let hash_algorithm = crypto.hash_algorithm_for_server(server_version);
    let aes_key = generate_aes_key(hash_algorithm, salt, pin);
    let cert_pem = client_certificate_pem.text().as_bytes();
    let state = PairingState {
        phase: PairPhase::AwaitingServerCertificate,
        device_name: device_name.to_owned(),
        aes_key,
        client_cert_signature,
        client_private_key: copy_range(key, 0, key.len()),
        challenge: Vec::new(),
        server_certificate_pem: String::new(),
        server_cert_signature: Vec::new(),
        server_public_key: Vec::new(),
        server_response_hash: Vec::new(),
        client_secret: Vec::new(),
    };
    assert(key@.subrange(0, key@.len() as int) =~= key@);
    let request = ClientPairRequest1 {
        device_name: device_name.to_owned(),
        salt,
        client_cert_pem: copy_range(cert_pem, 0, cert_pem.len()),
    };
    assert(cert_pem@.subrange(0, cert_pem@.len() as int) =~= cert_pem@);
    Ok((state, request))
}

/// Begins pairing for a host of any version: `None` when the credentials are accepted but
/// the host is older than major version 7, whose key cannot be derived; otherwise what
/// `start_pairing` gives.
pub fn begin_pairing<E>(
    crypto: &MoonlightCrypto,
    client_private_key_pem: &PemDocument,
    client_certificate_pem: &PemDocument,
    device_name: &str,
    server_version: ServerVersion,
    pin: PairPin,
    salt: [u8; SALT_LENGTH],
) -> (res: Option<Result<(PairingState, ClientPairRequest1), PairError<E>>>)
    ensures
        res is None <==> (credentials_accepted(
            client_certificate_pem.contents_view(),
            client_private_key_pem.contents_view(),
        ) && server_version.major < 7),
        match spec_credentials::<E>(client_certificate_pem.contents_view(), client_private_key_pem.contents_view()) {
            Err(e) => res matches Some(Err(r)) && r == e,
            Ok(signature) => server_version.major >= 7 ==> (res matches Some(Ok((state, request)))
                && spec_started(
                state,
                device_name@,
                spec_aes_key(HashAlgorithm::Sha256, salt@, pin@),
                signature,
                client_private_key_pem.contents_view(),
            ) && request.device_name@ == device_name@ && request.salt == salt
                && request.client_cert_pem@ == encode_utf8(client_certificate_pem.text_view())),
        },
{
    match check_client_credentials::<E>(client_certificate_pem.contents(), client_private_key_pem.contents()) {
        Err(e) => Some(Err(e)),
        Ok(_) => if server_version.major >= 7 {
            Some(start_pairing(crypto, client_private_key_pem, client_certificate_pem, device_name, server_version, pin, salt))
        } else {
            None
        },
    }
}

/// The host's answer to the first request: it must report the client as paired and send its
/// certificate, a PEM document holding an X.509 certificate. The client's challenge goes
/// out encrypted under the pairing key.
pub fn on_server_certificate<E>(state: PairingState, response: &HostPairResponse1, challenge: [u8; CHALLENGE_LENGTH]) -> (res: Result<(PairingState, ClientPairRequest2), PairFailure<E>>)
    requires
        state.phase == PairPhase::AwaitingServerCertificate,
        state.aes_key@.len() == 16,
    ensures
        response.paired != PairStatus::Paired ==> (res matches Err(f) && f.error is Failed && !f.unpair),
        response.paired == PairStatus::Paired ==> match response.cert {
            None => res matches Err(f) && f.error is AlreadyInProgress && !f.unpair,
            Some(cert) => match spec_pem_contents(cert@) {
                None => res matches Err(f) && f.error is ServerCertificatePem && !f.unpair,
                Some(contents) => match spec_x509_certificate(contents) {
                    None => res matches Err(f) && f.error is ServerCertificateParse && !f.unpair,
                    Some((signature, key)) => res matches Ok((next, request)) && next == (PairingState {
                        phase: PairPhase::AwaitingChallengeResponse,
                        challenge: next.challenge,
                        server_certificate_pem: next.server_certificate_pem,
                        server_cert_signature: next.server_cert_signature,
                        server_public_key: next.server_public_key,
                        ..state
                    }) && next.challenge@ == challenge@ && next.server_certificate_pem@ == cert@
                        && next.server_cert_signature@ == signature && next.server_public_key@ == key
                        && request.device_name@ == state.device_name@
                        && request.encrypted_challenge@ == spec_aes128_ecb_encrypt(state.aes_key@, challenge@),
                },
            },
        },
{
    if response.paired != PairStatus::Paired {
        return Err(PairFailure { error: PairError::Failed, unpair: false });
    }
    let cert = match &response.cert {
        None => return Err(PairFailure { error: PairError::AlreadyInProgress, unpair: false }),
        Some(cert) => cert,
    };
    let contents = match pem_contents(cert.as_str()) {
        Ok(c) => c,
        Err(_) => return Err(PairFailure { error: PairError::ServerCertificatePem, unpair: false }),
    };
    let (server_cert_signature, server_public_key) = match parse_certificate(contents.as_slice()) {
        Ok(parts) => parts,
        Err(_) => return Err(PairFailure { error: PairError::ServerCertificateParse, unpair: false }),
    };
    let encrypted_challenge = encrypt_aes(state.aes_key.as_slice(), &challenge);
    let request = ClientPairRequest2 { device_name: state.device_name.clone(), encrypted_challenge };
    let next = PairingState {
        phase: PairPhase::AwaitingChallengeResponse,
        challenge: copy_range(&challenge, 0, CHALLENGE_LENGTH),
        server_certificate_pem: cert.clone(),
        server_cert_signature,
        server_public_key,
        ..state
    };
    assert(challenge@.subrange(0, 16) =~= challenge@);
    Ok((next, request))
}

/// The host's answer to the challenge: decrypted, its first 32 bytes are the host's hash of
/// the challenge and the next 16 the host's own challenge. The client answers with the
/// encrypted SHA-256 digest of the host's challenge, its certificate's signature and a
/// fresh secret.
pub fn on_challenge_response<E>(state: PairingState, response: &HostPairResponse2, client_secret: [u8; 16]) -> (res: Result<(PairingState, ClientPairRequest3), PairFailure<E>>)
    requires
        state.phase == PairPhase::AwaitingChallengeResponse,
        state.aes_key@.len() == 16,
        response.paired == PairStatus::Paired && response.encrypted_response@.len() % 16 == 0
            ==> response.encrypted_response@.len() >= 48,
    ensures
        response.paired != PairStatus::Paired ==> (res matches Err(f) && f.error is Failed && f.unpair),
        response.paired == PairStatus::Paired && response.encrypted_response@.len() % 16 != 0
            ==> (res matches Err(f) && f.error is Decrypt && !f.unpair),
        response.paired == PairStatus::Paired && response.encrypted_response@.len() % 16 == 0 ==> {
            let decrypted = spec_aes128_ecb_decrypt(state.aes_key@, response.encrypted_response@);
            let answer = decrypted.subrange(32, 48) + state.client_cert_signature@ + client_secret@;
            res matches Ok((next, request)) && next == (PairingState {
                phase: PairPhase::AwaitingServerSecret,
                server_response_hash: next.server_response_hash,
                client_secret: next.client_secret,
                ..state
            }) && next.server_response_hash@ == decrypted.subrange(0, 32)
                && next.client_secret@ == client_secret@
                && request.device_name@ == state.device_name@
                && request.encrypted_challenge_response_hash@ == spec_aes128_ecb_encrypt(
                state.aes_key@,
                spec_sha256(answer),
            )
        },
{
    if response.paired != PairStatus::Paired {
        return Err(PairFailure { error: PairError::Failed, unpair: true });
    }
    let decrypted = match decrypt_aes::<E>(state.aes_key.as_slice(), response.encrypted_response.as_slice()) {
        Ok(d) => d,
        Err(error) => return Err(PairFailure { error, unpair: false }),
    };
    let server_response_hash = copy_range(decrypted.as_slice(), 0, 32);
    let server_challenge = copy_range(decrypted.as_slice(), 32, 48);
    let answer = concat3(server_challenge.as_slice(), state.client_cert_signature.as_slice(), &client_secret);
    let answer_hash = hash(HashAlgorithm::Sha256, answer.as_slice());
    let encrypted = encrypt_aes(state.aes_key.as_slice(), answer_hash.as_slice());
    let request = ClientPairRequest3 {
        device_name: state.device_name.clone(),
        encrypted_challenge_response_hash: encrypted,
    };
    let next = PairingState {
        phase: PairPhase::AwaitingServerSecret,
        server_response_hash,
        client_secret: copy_range(&client_secret, 0, 16),
        ..state
    };
    assert(client_secret@.subrange(0, 16) =~= client_secret@);
    Ok((next, request))
}

/// The host's secret: its first 16 bytes, signed by the rest under the key of the host's
/// certificate. A bad signature fails; the host's hash of the client's challenge must equal
/// the SHA-256 digest of the challenge, the host certificate's signature and the secret,
/// else the pin was wrong. The client then sends its secret and its signature of it.
/// `None` when the host's public key cannot be read or the client's key cannot sign.
pub fn on_server_secret<E>(state: PairingState, response: &HostPairResponse3) -> (res: Option<Result<(PairingState, ClientPairRequest4), PairFailure<E>>>)
    requires
        state.phase == PairPhase::AwaitingServerSecret,
        response.paired == PairStatus::Paired ==> response.server_pairing_secret@.len() >= 16,
    ensures
        response.paired != PairStatus::Paired ==> (res matches Some(Err(f)) && f.error is Failed && f.unpair),
        response.paired == PairStatus::Paired ==> {
            let secret = response.server_pairing_secret@.subrange(0, 16);
            let signature = response.server_pairing_secret@.subrange(16, response.server_pairing_secret@.len() as int);
            let expected = spec_sha256(state.challenge@ + state.server_cert_signature@ + secret);
            match spec_rsa_verify_sha256(state.server_public_key@, spec_sha256(secret), signature) {
                None => res is None,
                Some(false) => res matches Some(Err(f)) && f.error is Failed && f.unpair,
                Some(true) => if expected != state.server_response_hash@ {
                    res matches Some(Err(f)) && f.error is IncorrectPin && f.unpair
                } else {
                    match spec_rsa_sign_sha256(state.client_private_key@, spec_sha256(state.client_secret@)) {
                        None => res is None,
                        Some(client_signature) => res matches Some(Ok((next, request))) && next == (
                        PairingState { phase: PairPhase::AwaitingSecretAcknowledgement, ..state })
                            && request.device_name@ == state.device_name@
                            && request.client_pairing_secret@ == state.client_secret@ + client_signature,
                    }
                },
            }
        },
{
    if response.paired != PairStatus::Paired {
        return Some(Err(PairFailure { error: PairError::Failed, unpair: true }));
    }
    let all = response.server_pairing_secret.as_slice();
    let server_secret = copy_range(all, 0, 16);
    let server_signature = copy_range(all, 16, all.len());
    match verify_signature(server_secret.as_slice(), server_signature.as_slice(), state.server_public_key.as_slice()) {
        None => return None,
        Some(false) => return Some(Err(PairFailure { error: PairError::Failed, unpair: true })),
        Some(true) => {},
    }
    let expected = concat3(state.challenge.as_slice(), state.server_cert_signature.as_slice(), server_secret.as_slice());
    let expected_hash = hash(HashAlgorithm::Sha256, expected.as_slice());
    if !bytes_equal(expected_hash.as_slice(), state.server_response_hash.as_slice()) {
        return Some(Err(PairFailure { error: PairError::IncorrectPin, unpair: true }));
    }
    let client_signature = match sign_data(state.client_private_key.as_slice(), state.client_secret.as_slice()) {
        None => return None,
        Some(s) => s,
    };
    let empty: [u8; 0] = [];
    let client_pairing_secret = concat3(state.client_secret.as_slice(), client_signature.as_slice(), &empty);
    assert(state.client_secret@ + client_signature@ + empty@ =~= state.client_secret@ + client_signature@);
    let request = ClientPairRequest4 { device_name: state.device_name.clone(), client_pairing_secret };
    let next = PairingState { phase: PairPhase::AwaitingSecretAcknowledgement, ..state };
    Some(Ok((next, request)))
}

/// The host's acknowledgement of the client's secret; the last request follows.
pub fn on_secret_acknowledged<E>(state: PairingState, response: &HostPairResponse4) -> (res: Result<(PairingState, ClientPairRequest5), PairFailure<E>>)
    requires
        state.phase == PairPhase::AwaitingSecretAcknowledgement,
    ensures
        response.paired != PairStatus::Paired ==> (res matches Err(f) && f.error is Failed && f.unpair),
        response.paired == PairStatus::Paired ==> (res matches Ok((next, request)) && next == (PairingState {
            phase: PairPhase::AwaitingPairChallenge,
            ..state
        }) && request.device_name@ == state.device_name@),
{
    if response.paired != PairStatus::Paired {
        return Err(PairFailure { error: PairError::Failed, unpair: true });
    }
    let request = ClientPairRequest5 { device_name: state.device_name.clone() };
    Ok((PairingState { phase: PairPhase::AwaitingPairChallenge, ..state }, request))
}

/// The host's last answer: paired, with the host's certificate.
pub fn on_pair_challenge<E>(state: PairingState, response: &ServerPairResponse5) -> (res: Result<PairSuccess, PairFailure<E>>)
    requires
        state.phase == PairPhase::AwaitingPairChallenge,
    ensures
        response.paired != PairStatus::Paired ==> (res matches Err(f) && f.error is Failed && f.unpair),
        response.paired == PairStatus::Paired ==> (res matches Ok(success) && success.server_certificate_pem@
            == state.server_certificate_pem@),
{
    if response.paired != PairStatus::Paired {
        return Err(PairFailure { error: PairError::Failed, unpair: true });
    }
    Ok(PairSuccess { server_certificate_pem: state.server_certificate_pem })
}

} // verus!
