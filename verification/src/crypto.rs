//! Credential encryption: AES-256-GCM sealing (`nonce || ciphertext || tag`),
//! the Base64 key text, and the keyring user a configuration directory uses.

use aes_gcm::aead::Aead;
use aes_gcm::{Aes256Gcm, KeyInit};
use aes_gcm::Error as AeadError;
use base64::prelude::{Engine, BASE64_STANDARD};
use rand::{Rng, RngExt};
use sha2::{Digest, Sha256};

use vstd::prelude::*;
use vstd::string::StringExecFns;

use crate::auth_error::AuthError;
use crate::paths::{join, normalize_path, normalize_text, path_join};
use crate::text::{push_char, trim_whitespace};

verus! {

broadcast use vstd::string::to_string_from_display_ensures_for_str;

/// AES-GCM nonce size (96 bits).
pub const NONCE_SIZE: usize = 12;

/// AES-GCM authentication tag size (128 bits).
pub const TAG_SIZE: usize = 16;

/// The longest plaintext AES-GCM seals: 2^36 - 32 bytes.
pub const GCM_MAX_PLAINTEXT: u64 = 68719476704;

/// Name of the key file in a configuration directory.
pub const KEY_FILE_NAME: &'static str = ".encryption_key";

/// Keyring service the key is kept under.
pub const KEYRING_SERVICE: &'static str = "wecom-cli";

#[verifier::external_type_specification]
#[verifier::external_body]
pub struct ExAeadError(AeadError);

#[verifier::external_type_specification]
#[verifier::external_body]
pub struct ExDecodeError(base64::DecodeError);

/// AES-256-GCM ciphertext-and-tag of `plaintext` under `key` and `nonce`
/// (no associated data).
pub uninterp spec fn aes256gcm_seal(key: Seq<u8>, nonce: Seq<u8>, plaintext: Seq<u8>) -> Seq<u8>;

/// AES-256-GCM opening of `sealed` (ciphertext-and-tag) under `key` and
/// `nonce`: the plaintext, or none when the tag does not authenticate.
pub uninterp spec fn aes256gcm_open(key: Seq<u8>, nonce: Seq<u8>, sealed: Seq<u8>) -> Option<Seq<u8>>;

/// Standard Base64 (with padding) of `data`.
pub uninterp spec fn base64_standard(data: Seq<u8>) -> Seq<char>;

/// Standard Base64 decoding of `text`; none when `text` is no valid Base64.
pub uninterp spec fn base64_standard_decode(text: Seq<char>) -> Option<Seq<u8>>;

/// SHA-256 digest of the UTF-8 bytes of `text`.
pub uninterp spec fn sha256_of_text(text: Seq<char>) -> Seq<u8>;

/// `Aead::encrypt` of aes-gcm with `Aes256Gcm`: fails exactly when the
/// plaintext is longer than `P_MAX` (2^36 - 32 bytes); otherwise returns the
/// ciphertext followed by the 16-byte tag, which the same key and nonce open
/// back to the plaintext.
#[verifier::external_body]
fn gcm_seal(key: &[u8; 32], nonce: &[u8; 12], plaintext: &[u8]) -> (r: Result<Vec<u8>, AeadError>)
    ensures
        r is Ok <==> plaintext@.len() <= GCM_MAX_PLAINTEXT,
        r matches Ok(c) ==> c@ == aes256gcm_seal(key@, nonce@, plaintext@),
        r matches Ok(c) ==> c@.len() == plaintext@.len() + 16,
        r matches Ok(c) ==> aes256gcm_open(key@, nonce@, c@) == Some(plaintext@),
{
    let cipher = Aes256Gcm::new(&(*key).into());
    cipher.encrypt(&aes_gcm::Nonce::from(*nonce), plaintext)
}

/// `Aead::decrypt` of aes-gcm with `Aes256Gcm`: the plaintext when the tag
/// authenticates; an error otherwise, and always for input shorter than the
/// 16-byte tag.
#[verifier::external_body]
fn gcm_open(key: &[u8; 32], nonce: &[u8; 12], sealed: &[u8]) -> (r: Result<Vec<u8>, AeadError>)
    ensures
        match r {
            Ok(p) => aes256gcm_open(key@, nonce@, sealed@) == Some(p@),
            Err(_) => aes256gcm_open(key@, nonce@, sealed@) is None,
        },
        sealed@.len() < 16 ==> r is Err,
{
    let cipher = Aes256Gcm::new(&(*key).into());
    cipher.decrypt(&aes_gcm::Nonce::from(*nonce), sealed)
}

/// The `Display` text of aead's error, which is always `aead::Error`.
#[verifier::external_body]
fn aead_error_text(e: &AeadError) -> (r: String)
    ensures
        r@ == "aead::Error"@,
{
    e.to_string()
}

/// Twelve bytes from rand's thread-local generator (`rand::rng`,
/// `Rng::fill_bytes`); nothing is promised of their value.
#[verifier::external_body]
fn random_nonce() -> [u8; 12] {
    let mut nonce = [0u8; 12];
    rand::rng().fill_bytes(&mut nonce);
    nonce
}

/// A fresh random 256-bit key from rand's thread-local generator
/// (`rand::rng`, `RngExt::random`); nothing is promised of its value.
#[verifier::external_body]
pub fn generate_random_key() -> [u8; 32] {
    rand::rng().random()
}

/// A character of the standard Base64 alphabet, or the `=` padding.
pub open spec fn is_base64_char(c: char) -> bool {
    ('A' <= c && c <= 'Z') || ('a' <= c && c <= 'z') || ('0' <= c && c <= '9') || c == '+' || c
        == '/' || c == '='
}

/// `Engine::encode` of base64's `BASE64_STANDARD`: text of the standard
/// alphabet with `=` padding, whose decoding gives the input back.
#[verifier::external_body]
fn b64_encode(data: &[u8]) -> (r: String)
    ensures
        r@ == base64_standard(data@),
        base64_standard_decode(r@) == Some(data@),
        forall|i: int| 0 <= i < r@.len() ==> is_base64_char(#[trigger] r@[i]),
{
    BASE64_STANDARD.encode(data)
}

/// `Engine::decode` of base64's `BASE64_STANDARD`.
#[verifier::external_body]
fn b64_decode(text: &str) -> (r: Result<Vec<u8>, base64::DecodeError>)
    ensures
        match r {
            Ok(b) => base64_standard_decode(text@) == Some(b@),
            Err(_) => base64_standard_decode(text@) is None,
        },
{
    BASE64_STANDARD.decode(text)
}

/// The `Display` text of base64's decode error (which names the offending
/// symbol or length); nothing is stated of it.
#[verifier::external_body]
fn decode_error_text(e: &base64::DecodeError) -> String {
    e.to_string()
}

/// `Sha256::digest` of sha2 over the UTF-8 bytes of `text`: 32 bytes.
#[verifier::external_body]
fn sha256_digest(text: &str) -> (r: Vec<u8>)
    ensures
        r@ == sha256_of_text(text@),
        r@.len() == 32,
{
    Sha256::digest(text.as_bytes()).to_vec()
}

/// Lower-case hex digit of `d` (`d < 16`).
pub open spec fn hex_digit(d: int) -> char {
    if d < 10 {
        (48 + d) as char
    } else {
        (87 + d) as char
    }
}

/// Lower-case hex text of `b`, two digits per byte.
pub open spec fn hex_text(b: Seq<u8>) -> Seq<char>
    decreases b.len(),
{
    if b.len() == 0 {
        Seq::empty()
    } else {
        hex_text(b.drop_last()) + seq![hex_digit((b.last() / 16) as int), hex_digit((b.last() % 16) as int)]
    }
}

fn hex_digit_char(d: u8) -> (c: char)
    requires
        d < 16,
    ensures
        c == hex_digit(d as int),
{
    if d < 10 {
        (48u8 + d) as char
    } else {
        (87u8 + d) as char
    }
}

/// Lower-case hex text of `data`, two digits per byte.
fn hex_encode(data: &[u8]) -> (r: String)
    ensures
        r@ == hex_text(data@),
{
    let mut s = String::new();
    let mut i: usize = 0;
    while i < data.len()
        invariant
            i <= data.len(),
            s@ == hex_text(data@.subrange(0, i as int)),
        decreases data.len() - i,
    {
        let b = data[i];
        let hi = hex_digit_char(b / 16);
        let lo = hex_digit_char(b % 16);
        push_char(&mut s, hi);
        push_char(&mut s, lo);
        proof {
            let next = data@.subrange(0, i as int + 1);
            assert(next.drop_last() =~= data@.subrange(0, i as int));
            assert(next.last() == b);
            assert(s@ =~= hex_text(next));
        }
        i = i + 1;
    }
    assert(data@.subrange(0, data.len() as int) =~= data@);
    s
}

/// `std::path::absolute`: `dir` made absolute without touching the file
/// system (none when it fails). A relative `dir` is resolved against the
/// working directory, so nothing is stated of it; an absolute one keeps its
/// components (`.` dropped, `..` kept).
#[verifier::external_body]
fn absolute_path(dir: &str) -> (r: Option<String>)
    ensures
        dir@.len() > 0 && dir@[0] == '/' ==> (r is Some && normalize_text(r->0@) == normalize_text(
            dir@,
        )),
{
    match std::path::absolute(dir) {
        Ok(p) => Some(p.to_string_lossy().into_owned()),
        Err(_) => None,
    }
}

pub open spec fn encrypt_failed_text() -> Seq<char> {
    "数据加密失败：aead::Error"@
}

pub open spec fn truncated_text() -> Seq<char> {
    "数据解密失败（数据可能已损坏或被截断）"@
}

pub open spec fn decrypt_failed_text() -> Seq<char> {
    "数据解密失败：aead::Error"@
}

/// `v` is a sealing of `plaintext` under `key`: a nonce, then what that nonce
/// and `key` open back to `plaintext`.
pub open spec fn sealed_for(key: Seq<u8>, plaintext: Seq<u8>, v: Seq<u8>) -> bool {
    &&& v.len() == NONCE_SIZE + plaintext.len() + TAG_SIZE
    &&& v.subrange(NONCE_SIZE as int, v.len() as int) == aes256gcm_seal(
        key,
        v.subrange(0, NONCE_SIZE as int),
        plaintext,
    )
    &&& aes256gcm_open(key, v.subrange(0, NONCE_SIZE as int), v.subrange(NONCE_SIZE as int, v.len() as int))
        == Some(plaintext)
}

/// What `data` (`nonce || ciphertext || tag`) opens to under `key`; none
/// when it is too short or does not authenticate.
pub open spec fn opened(key: Seq<u8>, data: Seq<u8>) -> Option<Seq<u8>> {
    if data.len() < NONCE_SIZE + TAG_SIZE {
        None
    } else {
        aes256gcm_open(key, data.subrange(0, NONCE_SIZE as int), data.subrange(NONCE_SIZE as int, data.len() as int))
    }
}

/// Encrypts `plaintext` with AES-256-GCM under a fresh random nonce and
/// returns `nonce || ciphertext || tag`.
pub fn encrypt(key: &[u8; 32], plaintext: &[u8]) -> (r: Result<Vec<u8>, AuthError>)
    ensures
        r is Ok <==> plaintext@.len() <= GCM_MAX_PLAINTEXT,
        r matches Ok(v) ==> sealed_for(key@, plaintext@, v@),
        r matches Err(AuthError::Crypto(m)) ==> m@ == encrypt_failed_text(),
        r is Err ==> r matches Err(AuthError::Crypto(_)),
{
    let nonce = random_nonce();
    let sealed = match gcm_seal(key, &nonce, plaintext) {
        Ok(c) => c,
        Err(e) => {
            let mut m = "数据加密失败：".to_string();
            let t = aead_error_text(&e);
            m.append(t.as_str());
            proof {
                reveal_strlit("数据加密失败：");
                reveal_strlit("aead::Error");
                reveal_strlit("数据加密失败：aead::Error");
                assert(m@ =~= "数据加密失败：aead::Error"@);
            }
            return Err(AuthError::Crypto(m));
        },
    };
    let mut out: Vec<u8> = Vec::new();
    let mut i: usize = 0;
    while i < NONCE_SIZE
        invariant
            i <= NONCE_SIZE,
            out@ == nonce@.subrange(0, i as int),
        decreases NONCE_SIZE - i,
    {
        out.push(nonce[i]);
        assert(nonce@.subrange(0, i as int + 1) =~= nonce@.subrange(0, i as int).push(nonce@[i as int]));
        i = i + 1;
    }
    assert(nonce@.subrange(0, 12) =~= nonce@);
    let mut j: usize = 0;
    while j < sealed.len()
        invariant
            j <= sealed.len(),
            out@ == nonce@ + sealed@.subrange(0, j as int),
        decreases sealed.len() - j,
    {
        out.push(sealed[j]);
        assert(sealed@.subrange(0, j as int + 1) =~= sealed@.subrange(0, j as int).push(sealed@[j as int]));
        j = j + 1;
    }
    assert(sealed@.subrange(0, sealed.len() as int) =~= sealed@);
    assert(out@.subrange(0, 12) =~= nonce@);
    assert(out@.subrange(12, out@.len() as int) =~= sealed@);
    Ok(out)
}

/// Decrypts `data` (`nonce || ciphertext || tag`) with AES-256-GCM.
pub fn decrypt(key: &[u8; 32], data: &[u8]) -> (r: Result<Vec<u8>, AuthError>)
    ensures
        match opened(key@, data@) {
            Some(p) => r matches Ok(v) && v@ == p,
            None => r matches Err(AuthError::Crypto(m)) && m@ == (if data@.len() < NONCE_SIZE
                + TAG_SIZE {
                truncated_text()
            } else {
                decrypt_failed_text()
            }),
        },
{
    if data.len() < NONCE_SIZE + TAG_SIZE {
        return Err(AuthError::Crypto("数据解密失败（数据可能已损坏或被截断）".to_string()));
    }
    let (head, rest) = data.split_at(NONCE_SIZE);
    let mut nonce = [0u8; 12];
    let mut i: usize = 0;
    while i < NONCE_SIZE
        invariant
            i <= NONCE_SIZE,
            head@.len() == NONCE_SIZE,
            forall|k: int| 0 <= k < i ==> nonce@[k] == head@[k],
        decreases NONCE_SIZE - i,
    {
        nonce[i] = head[i];
        i = i + 1;
    }
    assert(nonce@ =~= data@.subrange(0, 12));
    assert(rest@ =~= data@.subrange(12, data@.len() as int));
    match gcm_open(key, &nonce, rest) {
        Ok(p) => Ok(p),
        Err(e) => {
            let mut m = "数据解密失败：".to_string();
            let t = aead_error_text(&e);
            m.append(t.as_str());
            proof {
                reveal_strlit("数据解密失败：");
                reveal_strlit("aead::Error");
                reveal_strlit("数据解密失败：aead::Error");
                assert(m@ =~= "数据解密失败：aead::Error"@);
            }
            Err(AuthError::Crypto(m))
        },
    }
}

/// Law: what `encrypt` returns, `decrypt` under the same key opens back to
/// the plaintext.
pub proof fn law_decrypt_inverts_encrypt(key: Seq<u8>, plaintext: Seq<u8>, v: Seq<u8>)
    requires
        sealed_for(key, plaintext, v),
    ensures
        opened(key, v) == Some(plaintext),
{
}

/// The path of the key file under `dir` (`<dir>/.encryption_key`).
pub fn encryption_key_path(dir: &str) -> (r: String)
    ensures
        r@ == path_join(dir@, ".encryption_key"@),
{
    join(dir, ".encryption_key")
}

/// The Base64 text a key is kept as.
pub fn encode_key(key: &[u8; 32]) -> (r: String)
    ensures
        r@ == base64_standard(key@),
        base64_standard_decode(r@) == Some(key@),
        forall|i: int| 0 <= i < r@.len() ==> is_base64_char(#[trigger] r@[i]),
{
    b64_encode(key.as_slice())
}

pub open spec fn bad_key_length_text() -> Seq<char> {
    "Invalid encryption key length"@
}

pub open spec fn bad_key_prefix() -> Seq<char> {
    "加密密钥无效，base64 decode error: "@
}

/// The key Base64 text `s` holds: exactly 32 decoded bytes, else a crypto
/// error (invalid Base64, or the wrong length).
pub fn decode_key(s: &str) -> (r: Result<[u8; 32], AuthError>)
    ensures
        match base64_standard_decode(s@) {
            Some(b) => if b.len() == 32 {
                r matches Ok(k) && k@ == b
            } else {
                r matches Err(AuthError::Crypto(m)) && m@ == bad_key_length_text()
            },
            None => r matches Err(AuthError::Crypto(m)) && m@.len() >= bad_key_prefix().len()
                && m@.subrange(0, bad_key_prefix().len() as int) == bad_key_prefix(),
        },
{
    let bytes = match b64_decode(s) {
        Ok(b) => b,
        Err(e) => {
            let mut m = "加密密钥无效，base64 decode error: ".to_string();
            let ghost head = m@;
            let t = decode_error_text(&e);
            m.append(t.as_str());
            assert(m@.subrange(0, head.len() as int) =~= head);
            return Err(AuthError::Crypto(m));
        },
    };
    if bytes.len() != 32 {
        return Err(AuthError::Crypto("Invalid encryption key length".to_string()));
    }
    let mut key = [0u8; 32];
    let mut i: usize = 0;
    while i < 32
        invariant
            i <= 32,
            bytes@.len() == 32,
            forall|k: int| 0 <= k < i ==> key@[k] == bytes@[k],
        decreases 32 - i,
    {
        key[i] = bytes[i];
        i = i + 1;
    }
    assert(key@ =~= bytes@);
    Ok(key)
}

/// The key a key file or keyring entry holds: its text without surrounding
/// whitespace, decoded; none when that fails.
pub fn key_from_text(text: &str) -> (r: Option<[u8; 32]>)
    ensures
        match base64_standard_decode(crate::text::trimmed(text@)) {
            Some(b) if b.len() == 32 => r matches Some(k) && k@ == b,
            _ => r is None,
        },
{
    let t = trim_whitespace(text);
    match decode_key(t.as_str()) {
        Ok(k) => Some(k),
        Err(_) => None,
    }
}

/// The keyring user of the configuration directory whose absolute path is
/// `absolute`: `encryption-key:` and the lower-case hex SHA-256 of the
/// normalized path, so that every directory has its own key.
pub open spec fn keyring_user_text(absolute: Seq<char>) -> Seq<char> {
    "encryption-key:"@ + hex_text(sha256_of_text(normalize_text(absolute)))
}

/// The keyring user for a directory whose absolute path is `absolute`.
pub fn keyring_user_of(absolute: &str) -> (r: String)
    ensures
        r@ == keyring_user_text(absolute@),
{
    let n = normalize_path(absolute);
    let digest = sha256_digest(n.as_str());
    let hex = hex_encode(digest.as_slice());
    let mut user = "encryption-key:".to_string();
    user.append(hex.as_str());
    user
}

/// The keyring user for the configuration directory `dir`, made absolute
/// first (left as it is when that fails). An absolute `dir` names the same
/// user as every spelling of it with `.` or `..`.
pub fn keyring_user_for(dir: &str) -> (r: String)
    ensures
        exists|a: Seq<char>| r@ == keyring_user_text(a),
        dir@.len() > 0 && dir@[0] == '/' ==> r@ == "encryption-key:"@ + hex_text(
            sha256_of_text(normalize_text(dir@)),
        ),
{
    let abs = match absolute_path(dir) {
        Some(a) => a,
        None => dir.to_string(),
    };
    let user = keyring_user_of(abs.as_str());
    assert(user@ == keyring_user_text(abs@));
    user
}

/// Whether `data` opens under `key`; the plaintext if so.
fn open_with(key: Option<[u8; 32]>, data: &[u8]) -> (r: Option<Vec<u8>>)
    ensures
        match key {
            Some(k) => match opened(k@, data@) {
                Some(p) => r matches Some(v) && v@ == p,
                None => r is None,
            },
            None => r is None,
        },
{
    match key {
        Some(k) => match decrypt(&k, data) {
            Ok(p) => Some(p),
            Err(_) => None,
        },
        None => None,
    }
}

/// The plaintexts of `data` in the order the keys are tried: the file key
/// (the authoritative one), then the keyring key when the keyring is
/// enabled; a key that does not open `data` contributes nothing.
pub open spec fn candidate_plaintexts(
    data: Seq<u8>,
    file_key: Option<Seq<u8>>,
    keyring_key: Option<Seq<u8>>,
    use_keyring: bool,
) -> Seq<Seq<u8>> {
    let first = match file_key {
        Some(k) => match opened(k, data) {
            Some(p) => seq![p],
            None => Seq::empty(),
        },
        None => Seq::empty(),
    };
    let second = match keyring_key {
        Some(k) if use_keyring => match opened(k, data) {
            Some(p) => seq![p],
            None => Seq::empty(),
        },
        _ => Seq::empty(),
    };
    first + second
}

pub open spec fn key_view(k: Option<[u8; 32]>) -> Option<Seq<u8>> {
    match k {
        Some(a) => Some(a@),
        None => None,
    }
}

/// The plaintexts of the sealed ledger `data` under the file key and (when
/// enabled) the keyring key, in that order (see [`candidate_plaintexts`]);
/// the first that parses is the ledger.
pub fn decryption_candidates(
    data: &[u8],
    file_key: Option<[u8; 32]>,
    keyring_key: Option<[u8; 32]>,
    use_keyring: bool,
) -> (r: Vec<Vec<u8>>)
    ensures
        r@.map_values(|v: Vec<u8>| v@) == candidate_plaintexts(
            data@,
            key_view(file_key),
            key_view(keyring_key),
            use_keyring,
        ),
{
    let mut out: Vec<Vec<u8>> = Vec::new();
    let ghost e: Seq<Seq<u8>> = Seq::empty();
    assert(out@.map_values(|v: Vec<u8>| v@) =~= e);
    if let Some(p) = open_with(file_key, data) {
        out.push(p);
    }
    let ghost after_first = out@.map_values(|v: Vec<u8>| v@);
    let second = if use_keyring {
        open_with(keyring_key, data)
    } else {
        None
    };
    if let Some(p) = second {
        out.push(p);
    }
    assert(out@.map_values(|v: Vec<u8>| v@) =~= candidate_plaintexts(
        data@,
        key_view(file_key),
        key_view(keyring_key),
        use_keyring,
    ));
    out
}

/// The key a save seals with: the file key, else the keyring key when the
/// keyring is enabled, else a fresh random key.
pub fn choose_save_key(file_key: Option<[u8; 32]>, keyring_key: Option<[u8; 32]>, use_keyring: bool) -> (r:
    [u8; 32])
    ensures
        file_key matches Some(k) ==> r == k,
        file_key is None && use_keyring && keyring_key is Some ==> r == keyring_key->0,
{
    match file_key {
        Some(k) => k,
        None => match keyring_key {
            Some(k) if use_keyring => k,
            _ => generate_random_key(),
        },
    }
}

/// The bootstrap signature: lower-case hex SHA-256 of
/// `secret + bot_id + time + nonce`.
pub open spec fn signature_text(secret: Seq<char>, bot_id: Seq<char>, time: Seq<char>, nonce: Seq<char>) -> Seq<char> {
    hex_text(sha256_of_text(secret + bot_id + time + nonce))
}

/// Signs a bootstrap request: the lower-case hex SHA-256 of the secret, the
/// bot id, the time and the nonce, joined in that order.
pub fn sign(secret: &str, bot_id: &str, time: &str, nonce: &str) -> (r: String)
    ensures
        r@ == signature_text(secret@, bot_id@, time@, nonce@),
        r@ == hex_text(sha256_of_text(secret@ + bot_id@ + time@ + nonce@)),
        r@.len() == 64,
        forall|i: int|
            #![trigger sha256_of_text(secret@ + bot_id@ + time@ + nonce@)[i]]
            0 <= i < 32 ==> {
                &&& r@[2 * i] == hex_digit((sha256_of_text(secret@ + bot_id@ + time@ + nonce@)[i] / 16) as int)
                &&& r@[2 * i + 1] == hex_digit(
                    (sha256_of_text(secret@ + bot_id@ + time@ + nonce@)[i] % 16) as int,
                )
            },
{
    let mut text = secret.to_string();
    text.append(bot_id);
    text.append(time);
    text.append(nonce);
    assert(text@ =~= secret@ + bot_id@ + time@ + nonce@);
    let digest = sha256_digest(text.as_str());
    let r = hex_encode(digest.as_slice());
    proof {
        law_hex_text_digits(digest@);
    }
    r
}

/// Law (hex text): two digits per byte, the high nibble first, each a
/// lower-case hex digit (`0`-`9`, `a`-`f`).
pub proof fn law_hex_text_digits(b: Seq<u8>)
    ensures
        hex_text(b).len() == 2 * b.len(),
        forall|i: int|
            0 <= i < b.len() ==> {
                &&& hex_text(b)[2 * i] == hex_digit((#[trigger] b[i] / 16) as int)
                &&& hex_text(b)[2 * i + 1] == hex_digit((b[i] % 16) as int)
            },
        forall|j: int|
            0 <= j < hex_text(b).len() ==> {
                let c = #[trigger] hex_text(b)[j];
                ('0' <= c <= '9') || ('a' <= c <= 'f')
            },
    decreases b.len(),
{
    if b.len() > 0 {
        let p = b.drop_last();
        law_hex_text_digits(p);
        let last = b.last();
        let h = hex_text(b);
        assert(h == hex_text(p) + seq![hex_digit((last / 16) as int), hex_digit((last % 16) as int)]);
        assert forall|i: int| 0 <= i < b.len() implies {
            &&& h[2 * i] == hex_digit((#[trigger] b[i] / 16) as int)
            &&& h[2 * i + 1] == hex_digit((b[i] % 16) as int)
        } by {
            if i < p.len() {
                assert(b[i] == p[i]);
            }
        }
        assert forall|j: int| 0 <= j < h.len() implies {
            let c = #[trigger] h[j];
            ('0' <= c <= '9') || ('a' <= c <= 'f')
        } by {
            if j < hex_text(p).len() {
                assert(h[j] == hex_text(p)[j]);
            } else {
                assert(last / 16 < 16 && last % 16 < 16);
            }
        }
    }
}

} // verus!
