//! The encryption of the login: credentials are sent RSA-encrypted with the
//! server's public key, and the key that the server returns is decrypted
//! with the client's private key; ciphertexts travel in base64.
use vstd::prelude::*;
use vstd::utf8::*;
use crate::text::string_from_utf8;

verus! {

/// The RSA public key type of the `rsa` crate.
#[verifier::external_type_specification]
#[verifier::external_body]
pub struct ExRsaPublicKey(rsa::RsaPublicKey);

/// The RSA private key type of the `rsa` crate.
#[verifier::external_type_specification]
#[verifier::external_body]
pub struct ExRsaPrivateKey(rsa::RsaPrivateKey);

/// The thread-local random generator type of the `rand` crate.
#[verifier::external_type_specification]
#[verifier::external_body]
pub struct ExThreadRng(rand::rngs::ThreadRng);

/// The server's public key, which encrypts the credentials.
pub const SERVER_PUBLIC_KEY: &'static str = "-----BEGIN PUBLIC KEY-----
MIGfMA0GCSqGSIb3DQEBAQUAA4GNADCBiQKBgQC3ktCxwURY+Pkz49sDbmy2/WWv
j6X3noeoh0coEY41DO5meYIAebkIqiYR2Hkhkf6s0SIdZT1gmZQQx2ZPmb/bI4L2
CE0ILa/ZabzIHgcBPdouzuj/whV/WhKx0y5uACsaEg+Khr8rmBbh5EGyw4EUWnA1
4/pUds5rdAwpfZiM9wIDAQAB
-----END PUBLIC KEY-----";

/// Why an encryption step failed.
#[derive(Clone, Copy, Debug, PartialEq, Eq, Structural)]
pub enum SecureError {
    /// The PEM text does not hold a key of the expected kind.
    InvalidKey,
    /// The message is longer than the key allows: its size minus the 11
    /// bytes of padding.
    EncryptionFailed,
    /// The text is not standard padded base64.
    InvalidBase64,
    /// The ciphertext does not decrypt under the key.
    DecryptionFailed,
}

/// The standard base64 encoding (RFC 4648 alphabet) of `bytes`, without
/// padding, as `base64`'s `STANDARD_NO_PAD` engine writes it.
pub uninterp spec fn base64_no_pad_encoded(bytes: Seq<u8>) -> Seq<char>;

/// The bytes that the text `text` encodes in standard padded base64, as
/// `base64`'s `STANDARD` engine reads them, or `None` if it refuses the
/// text.
pub uninterp spec fn base64_padded_decoded(text: Seq<char>) -> Option<Seq<u8>>;

/// Whether `rsa` reads the text `pem` as a PEM-encoded SubjectPublicKeyInfo
/// holding an RSA public key.
pub uninterp spec fn pem_holds_public_key(pem: Seq<char>) -> bool;

/// Whether `rsa` reads the text `pem` as a PEM-encoded PKCS#8 document
/// holding an RSA private key.
pub uninterp spec fn pem_holds_private_key(pem: Seq<char>) -> bool;

/// The DER encoding (SubjectPublicKeyInfo) that `rsa` writes for the public
/// key it reads from `pem`.
pub uninterp spec fn spki_der_of_pem(pem: Seq<char>) -> Seq<u8>;

/// The size in bytes of the modulus of the public key that `rsa` reads from
/// `pem`, as `RsaPublicKey::size` gives it.
pub uninterp spec fn public_key_size(pem: Seq<char>) -> nat;

/// The PKCS#1 v1.5 ciphertext that `rsa` computes for `msg` under the public
/// key it reads from `pem`, when the random padding string is `ps`.
pub uninterp spec fn pkcs1v15_ciphertext(pem: Seq<char>, msg: Seq<u8>, ps: Seq<u8>) -> Seq<u8>;

/// What `RsaPrivateKey::decrypt` with PKCS#1 v1.5 padding gives for the
/// ciphertext `cipher` under the private key that `rsa` reads from
/// `private_pem`: the message, or `None` when it fails.
pub uninterp spec fn pkcs1v15_decrypted(private_pem: Seq<char>, cipher: Seq<u8>) -> Option<Seq<u8>>;

/// An RSA public key, with the PEM text it was read from.
struct PublicKey {
    key: rsa::RsaPublicKey,
    pem: Ghost<Seq<char>>,
}

impl PublicKey {
    /// The PEM text the key was read from.
    closed spec fn pem(self) -> Seq<char> {
        self.pem@
    }
}

/// An RSA private key, with the PEM text it was read from.
struct PrivateKey {
    key: rsa::RsaPrivateKey,
    pem: Ghost<Seq<char>>,
}

impl PrivateKey {
    /// The PEM text the key was read from.
    closed spec fn pem(self) -> Seq<char> {
        self.pem@
    }
}

/// Calls `DecodePublicKey::from_public_key_pem` of the `rsa` crate, which
/// reads a PEM-encoded SubjectPublicKeyInfo; the key keeps the text it was
/// read from. Trusted: it succeeds exactly when `pem_holds_public_key` holds
/// of the text.
#[verifier::external_body]
fn public_key_from_pem(pem: &str) -> (r: Option<PublicKey>)
    ensures
        (r is Some) == pem_holds_public_key(pem@),
        r matches Some(k) ==> k.pem() == pem@,
{
    match <rsa::RsaPublicKey as rsa::pkcs8::DecodePublicKey>::from_public_key_pem(pem) {
        Ok(key) => Some(PublicKey { key, pem: Ghost(pem@) }),
        Err(_) => None,
    }
}

/// Calls `EncodePublicKey::to_public_key_der` of the `rsa` crate and takes
/// the bytes of the DER document. Trusted: the bytes are those that
/// `spki_der_of_pem` names for the text the key was read from. Writing out
/// a key that `rsa` accepted does not fail: its modulus has at most 4096
/// bits.
#[verifier::external_body]
fn public_key_der(key: &PublicKey) -> (r: Vec<u8>)
    ensures
        r@ == spki_der_of_pem(key.pem()),
{
    <rsa::RsaPublicKey as rsa::pkcs8::EncodePublicKey>::to_public_key_der(&key.key).unwrap().to_vec()
}

/// Calls `DecodePrivateKey::from_pkcs8_pem` of the `rsa` crate, which reads
/// a PEM-encoded PKCS#8 private key; the key keeps the text it was read
/// from. Trusted: it succeeds exactly when `pem_holds_private_key` holds of
/// the text.
#[verifier::external_body]
fn private_key_from_pem(pem: &str) -> (r: Option<PrivateKey>)
    ensures
        (r is Some) == pem_holds_private_key(pem@),
        r matches Some(k) ==> k.pem() == pem@,
{
    match <rsa::RsaPrivateKey as rsa::pkcs8::DecodePrivateKey>::from_pkcs8_pem(pem) {
        Ok(key) => Some(PrivateKey { key, pem: Ghost(pem@) }),
        Err(_) => None,
    }
}

/// Calls `rand::thread_rng`, which hands out the thread's generator, seeded
/// from the operating system. Nothing is claimed of it.
#[verifier::external_body]
fn thread_rng() -> rand::rngs::ThreadRng {
    rand::thread_rng()
}

/// Calls `RsaPublicKey::encrypt` with PKCS#1 v1.5 padding, drawing the
/// padding string from `rng`. Trusted: it fails exactly when the message
/// is longer than the key size minus 11 bytes; the ciphertext has as many
/// bytes as the key, and is the one `pkcs1v15_ciphertext` names for some
/// padding string of non-zero bytes that fills the rest of the key size.
/// Which padding string comes out is left open: it is random.
#[verifier::external_body]
fn rsa_encrypt(key: &PublicKey, rng: &mut rand::rngs::ThreadRng, msg: &[u8]) -> (r: Option<
    Vec<u8>,
>)
    ensures
        (r is Some) == (msg@.len() + 11 <= public_key_size(key.pem())),
        r matches Some(c) ==> c@.len() == public_key_size(key.pem()),
        r matches Some(c) ==> exists|ps: Seq<u8>|
            ps.len() + msg@.len() + 3 == public_key_size(key.pem()) && (forall|i: int|
                0 <= i < ps.len() ==> ps[i] != 0) && c@ == pkcs1v15_ciphertext(key.pem(), msg@, ps),
{
    match key.key.encrypt(rng, rsa::Pkcs1v15Encrypt, msg) {
        Ok(c) => Some(c),
        Err(_) => None,
    }
}

/// Calls `RsaPrivateKey::decrypt` with PKCS#1 v1.5 padding; no random
/// blinding is used, so the result depends on the key and the ciphertext
/// alone. Trusted: the result is the one `pkcs1v15_decrypted` names for the
/// text the key was read from and the ciphertext.
#[verifier::external_body]
fn rsa_decrypt(key: &PrivateKey, ciphertext: &[u8]) -> (r: Option<Vec<u8>>)
    ensures
        (r is Some) == (pkcs1v15_decrypted(key.pem(), ciphertext@) is Some),
        r matches Some(p) ==> pkcs1v15_decrypted(key.pem(), ciphertext@) == Some(p@),
{
    match key.key.decrypt(rsa::Pkcs1v15Encrypt, ciphertext) {
        Ok(p) => Some(p),
        Err(_) => None,
    }
}

/// Calls `Engine::encode` of `base64`'s `STANDARD_NO_PAD` engine. Trusted:
/// the text is the one `base64_no_pad_encoded` names for the bytes, and has
/// four characters for every three bytes, rounded up (`encoded_len` of the
/// crate without padding).
#[verifier::external_body]
fn base64_encode_no_pad(bytes: &[u8]) -> (r: String)
    ensures
        r@ == base64_no_pad_encoded(bytes@),
        r@.len() == (4 * bytes@.len() + 2) / 3,
{
    <base64::engine::GeneralPurpose as base64::Engine>::encode(
        &base64::engine::general_purpose::STANDARD_NO_PAD,
        bytes,
    )
}

/// Calls `Engine::decode` of `base64`'s `STANDARD` engine on the bytes of
/// `text`. Trusted: the result is the one `base64_padded_decoded` names for
/// the text.
#[verifier::external_body]
fn base64_decode_padded(text: &str) -> (r: Option<Vec<u8>>)
    ensures
        (r is Some) == (base64_padded_decoded(text@) is Some),
        r matches Some(b) ==> base64_padded_decoded(text@) == Some(b@),
{
    match <base64::engine::GeneralPurpose as base64::Engine>::decode(
        &base64::engine::general_purpose::STANDARD,
        text,
    ) {
        Ok(b) => Some(b),
        Err(_) => None,
    }
}

/// The client's public key as the server expects it: the DER encoding of
/// the key in `pem`, in base64 without padding.
pub fn get_public_key(pem: &str) -> (r: Result<String, SecureError>)
    ensures
        (r is Ok) == pem_holds_public_key(pem@),
        r matches Ok(s) ==> s@ == base64_no_pad_encoded(spki_der_of_pem(pem@)),
        r matches Err(e) ==> e == SecureError::InvalidKey,
{
    let key = match public_key_from_pem(pem) {
        Some(k) => k,
        None => {
            return Err(SecureError::InvalidKey);
        },
    };
    let der = public_key_der(&key);
    Ok(base64_encode_no_pad(der.as_slice()))
}

/// `c` is a PKCS#1 v1.5 encryption of `msg` under the public key in `pem`:
/// it has as many bytes as the key, and is the ciphertext of `msg` for some
/// padding string of non-zero bytes filling the rest of the key size.
pub open spec fn encrypts(pem: Seq<char>, msg: Seq<u8>, c: Seq<u8>) -> bool {
    &&& c.len() == public_key_size(pem)
    &&& exists|ps: Seq<u8>|
        {
            &&& ps.len() + msg.len() + 3 == public_key_size(pem)
            &&& forall|i: int| 0 <= i < ps.len() ==> ps[i] != 0
            &&& c == pkcs1v15_ciphertext(pem, msg, ps)
        }
}

/// Whether `raw` can be encrypted under the public key in `pem`: the key
/// parses, and the message leaves room for the 11 bytes of padding.
pub open spec fn encryptable(pem: Seq<char>, raw: Seq<u8>) -> bool {
    pem_holds_public_key(pem) && raw.len() + 11 <= public_key_size(pem)
}

/// `s` is an encryption of `raw` under the key in `pem`, written in base64
/// without padding.
pub open spec fn encrypted_text(pem: Seq<char>, raw: Seq<u8>, s: Seq<char>) -> bool {
    exists|c: Seq<u8>| encrypts(pem, raw, c) && s == base64_no_pad_encoded(c)
}

/// Encrypts `raw` with the public key in `pem`; the ciphertext in base64
/// without padding, four characters for every three bytes of the key size.
pub fn encrypt_with(pem: &str, raw: &[u8]) -> (r: Result<String, SecureError>)
    ensures
        (r is Ok) == encryptable(pem@, raw@),
        (r == Err::<String, SecureError>(SecureError::InvalidKey)) == !pem_holds_public_key(pem@),
        (r == Err::<String, SecureError>(SecureError::EncryptionFailed)) == (pem_holds_public_key(
            pem@,
        ) && raw@.len() + 11 > public_key_size(pem@)),
        r matches Ok(s) ==> encrypted_text(pem@, raw@, s@) && s@.len() == (4 * public_key_size(
            pem@,
        ) + 2) / 3,
{
    let key = match public_key_from_pem(pem) {
        Some(k) => k,
        None => {
            return Err(SecureError::InvalidKey);
        },
    };
    let mut rng = thread_rng();
    let cipher = match rsa_encrypt(&key, &mut rng, raw) {
        Some(c) => c,
        None => {
            return Err(SecureError::EncryptionFailed);
        },
    };
    let text = base64_encode_no_pad(cipher.as_slice());
    assert(encrypts(pem@, raw@, cipher@));
    Ok(text)
}

/// Encrypts `raw` with the server's public key; the ciphertext in base64
/// without padding.
pub fn encode_msg(raw: &[u8]) -> (r: Result<String, SecureError>)
    ensures
        (r is Ok) == encryptable(SERVER_PUBLIC_KEY@, raw@),
        (r == Err::<String, SecureError>(SecureError::InvalidKey)) == !pem_holds_public_key(
            SERVER_PUBLIC_KEY@,
        ),
        (r == Err::<String, SecureError>(SecureError::EncryptionFailed)) == (pem_holds_public_key(
            SERVER_PUBLIC_KEY@,
        ) && raw@.len() + 11 > public_key_size(SERVER_PUBLIC_KEY@)),
        r matches Ok(s) ==> encrypted_text(SERVER_PUBLIC_KEY@, raw@, s@) && s@.len() == (4
            * public_key_size(SERVER_PUBLIC_KEY@) + 2) / 3,
{
    encrypt_with(SERVER_PUBLIC_KEY, raw)
}

/// The text of a decrypted plaintext: its characters if it is valid UTF-8,
/// else the empty string.
pub open spec fn plaintext_text(p: Seq<u8>) -> Seq<char> {
    if valid_utf8(p) {
        decode_utf8(p)
    } else {
        Seq::empty()
    }
}

/// The text of a decrypted plaintext: its characters if it is valid UTF-8,
/// else the empty string.
pub fn plaintext_to_string(plain: Vec<u8>) -> (r: String)
    ensures
        r@ == plaintext_text(plain@),
{
    match string_from_utf8(plain) {
        Some(s) => s,
        None => String::new(),
    }
}

/// What decrypting `msg` with the private key in `private_pem` gives: the
/// key must parse, the text must be standard padded base64, and the bytes
/// it holds must decrypt; the plaintext is then read as text.
pub open spec fn decoded_msg(msg: Seq<char>, private_pem: Seq<char>) -> Result<
    Seq<char>,
    SecureError,
> {
    if !pem_holds_private_key(private_pem) {
        Err(SecureError::InvalidKey)
    } else {
        match base64_padded_decoded(msg) {
            None => Err(SecureError::InvalidBase64),
            Some(c) => match pkcs1v15_decrypted(private_pem, c) {
                None => Err(SecureError::DecryptionFailed),
                Some(p) => Ok(plaintext_text(p)),
            },
        }
    }
}

/// The view of a text result.
pub open spec fn text_result_view(r: Result<String, SecureError>) -> Result<Seq<char>, SecureError> {
    match r {
        Ok(s) => Ok(s@),
        Err(e) => Err(e),
    }
}

/// Decrypts `msg`, standard padded base64, with the private key in
/// `private_pem`; the plaintext as text, empty if it is not UTF-8.
pub fn decode_msg(msg: &str, private_pem: &str) -> (r: Result<String, SecureError>)
    ensures
        text_result_view(r) == decoded_msg(msg@, private_pem@),
        !pem_holds_private_key(private_pem@) ==> r == Err::<String, SecureError>(
            SecureError::InvalidKey,
        ),
        pem_holds_private_key(private_pem@) && base64_padded_decoded(msg@) is None ==> r == Err::<
            String,
            SecureError,
        >(SecureError::InvalidBase64),
        pem_holds_private_key(private_pem@) ==> (base64_padded_decoded(msg@) matches Some(c) ==> (
        pkcs1v15_decrypted(private_pem@, c) is None ==> r == Err::<String, SecureError>(
            SecureError::DecryptionFailed,
        ))),
        pem_holds_private_key(private_pem@) ==> (base64_padded_decoded(msg@) matches Some(c) ==> (
        pkcs1v15_decrypted(private_pem@, c) matches Some(p) ==> (r matches Ok(s) && (valid_utf8(p)
            ==> s@ == decode_utf8(p)) && (!valid_utf8(p) ==> s@.len() == 0)))),
{
    let key = match private_key_from_pem(private_pem) {
        Some(k) => k,
        None => {
            return Err(SecureError::InvalidKey);
        },
    };
    let cipher = match base64_decode_padded(msg) {
        Some(c) => c,
        None => {
            return Err(SecureError::InvalidBase64);
        },
    };
    let plain = match rsa_decrypt(&key, cipher.as_slice()) {
        Some(p) => p,
        None => {
            return Err(SecureError::DecryptionFailed);
        },
    };
    Ok(plaintext_to_string(plain))
}

} // verus!
