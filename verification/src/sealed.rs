//! Chat messages sealed to the enclave: the client derives an X25519
//! shared secret with the enclave's key, hashes it with SHA-256 under
//! the label `pinaivu-aes-key-v1` into an AES-256 key, and encrypts the
//! JSON messages with AES-256-GCM. The Diffie-Hellman step is the
//! `x25519-dalek` crate's, the cipher the `aes-gcm` crate's.

use vstd::prelude::*;
use vstd::string::StringSliceAdditionalSpecFns;

use aes_gcm::aead::{Aead, KeyInit};

use crate::codec::{base64_decode, base64_decoded, hex_decoded, sha256, sha256_of};
use crate::error::AppError;
use crate::inference::{decode_hex_pubkey, ChatCompletionRequest, PubkeyError};

verus! {

/// The X25519 shared secret of a secret key and a peer's public key
/// (RFC 7748, the secret clamped).
pub uninterp spec fn x25519_shared(secret: Seq<u8>, public: Seq<u8>) -> Seq<u8>;

/// `x25519_dalek::StaticSecret::from(secret).diffie_hellman(&PublicKey::from(public))`:
/// the 32-byte shared secret, a function of the two keys alone.
#[verifier::external_body]
fn x25519_diffie_hellman(secret: &[u8; 32], public: &[u8; 32]) -> (r: [u8; 32])
    ensures
        r@ == x25519_shared(secret@, public@),
{
    x25519_dalek::StaticSecret::from(*secret).diffie_hellman(&x25519_dalek::PublicKey::from(*public)).to_bytes()
}

/// The plaintext AES-256-GCM (96-bit nonce, no associated data) opens
/// from `ciphertext` under `key` and `nonce`, or `None` when the
/// authentication tag does not match.
pub uninterp spec fn aes256gcm_opened(key: Seq<u8>, nonce: Seq<u8>, ciphertext: Seq<u8>) -> Option<Seq<u8>>;

/// `aes_gcm::Aes256Gcm::new(key).decrypt(nonce, ciphertext)`: the
/// plaintext, or `None` when authentication fails.
#[verifier::external_body]
fn aes256gcm_decrypt(key: &[u8; 32], nonce: &[u8; 12], ciphertext: &[u8]) -> (r: Option<Vec<u8>>)
    ensures
        match r {
            Some(p) => aes256gcm_opened(key@, nonce@, ciphertext@) == Some(p@),
            None => aes256gcm_opened(key@, nonce@, ciphertext@) is None,
        },
{
    let cipher = aes_gcm::Aes256Gcm::new(aes_gcm::Key::<aes_gcm::Aes256Gcm>::from_slice(key));
    match cipher.decrypt(aes_gcm::Nonce::from_slice(nonce), ciphertext) {
        Ok(p) => Some(p),
        Err(_) => None,
    }
}

/// The AES-256 key of a shared secret: `SHA-256("pinaivu-aes-key-v1" ‖ shared)`.
pub open spec fn prompt_key(shared: Seq<u8>) -> Seq<u8> {
    sha256_of("pinaivu-aes-key-v1".spec_bytes() + shared)
}

/// `r` is a bad request with message `m`.
pub open spec fn refused_with(r: Result<Option<Vec<u8>>, AppError>, m: Seq<char>) -> bool {
    r matches Err(AppError::BadRequest(t)) && t@ == m
}

/// The messages a request carries sealed to the enclave whose X25519
/// secret key is `secret`, given the three fields' texts.
pub open spec fn sealed_outcome(
    secret: Seq<u8>,
    client_key: Seq<char>,
    ciphertext: Seq<char>,
    nonce: Seq<char>,
) -> Result<Seq<u8>, Seq<char>> {
    let k = hex_decoded(vstd::utf8::encode_utf8(client_key));
    let n = base64_decoded(vstd::utf8::encode_utf8(nonce));
    let c = base64_decoded(vstd::utf8::encode_utf8(ciphertext));
    if !(k matches Some(kb) && kb.len() == 32) {
        Err("client_x25519_pubkey_hex must be 32 bytes of hex"@)
    } else if !(n matches Some(nb) && nb.len() == 12) {
        Err("messages_nonce must be 12 bytes of base64"@)
    } else if c is None {
        Err("messages_encrypted must be base64"@)
    } else {
        match aes256gcm_opened(prompt_key(x25519_shared(secret, k->0)), n->0, c->0) {
            None => Err("messages could not be decrypted"@),
            Some(p) => Ok(p),
        }
    }
}

/// Open the sealed messages of a chat request with the enclave's X25519
/// secret key: `Ok(None)` for a plaintext request (none of the three
/// sealed fields), the decrypted JSON bytes when all three are present
/// and open, a bad request otherwise: when only some are present, when
/// the client key is not 32 bytes of hex, the nonce not 12 bytes of
/// Base64, the ciphertext not Base64, or the ciphertext does not
/// authenticate.
pub fn open_sealed_messages(secret: &[u8; 32], req: &ChatCompletionRequest) -> (r: Result<Option<Vec<u8>>, AppError>)
    ensures
        (req.client_x25519_pubkey_hex is None && req.messages_encrypted is None && req.messages_nonce is None)
            ==> r matches Ok(None),
        (req.client_x25519_pubkey_hex is Some && req.messages_encrypted is Some && req.messages_nonce is Some) ==> (
            match sealed_outcome(
                secret@,
                req.client_x25519_pubkey_hex->0@,
                req.messages_encrypted->0@,
                req.messages_nonce->0@,
            ) {
                Ok(p) => r matches Ok(Some(v)) && v@ == p,
                Err(m) => refused_with(r, m),
            }),
        !(req.client_x25519_pubkey_hex is None && req.messages_encrypted is None && req.messages_nonce is None)
            && !(req.client_x25519_pubkey_hex is Some && req.messages_encrypted is Some && req.messages_nonce is Some)
            ==> refused_with(r, "client_x25519_pubkey_hex, messages_encrypted and messages_nonce go together"@),
{
    let (key_hex, ct_b64, nonce_b64) = match (&req.client_x25519_pubkey_hex, &req.messages_encrypted, &req.messages_nonce) {
        (None, None, None) => return Ok(None),
        (Some(k), Some(c), Some(n)) => (k, c, n),
        _ => {
            return Err(AppError::BadRequest(
                "client_x25519_pubkey_hex, messages_encrypted and messages_nonce go together".to_string(),
            ))
        },
    };
    let client_key = match decode_hex_pubkey(key_hex.as_str()) {
        Ok(k) => k,
        Err(_) => return Err(AppError::BadRequest("client_x25519_pubkey_hex must be 32 bytes of hex".to_string())),
    };
    let nonce_bytes = match base64_decode(nonce_b64.as_str().as_bytes()) {
        Some(n) => n,
        None => return Err(AppError::BadRequest("messages_nonce must be 12 bytes of base64".to_string())),
    };
    if nonce_bytes.len() != 12 {
        return Err(AppError::BadRequest("messages_nonce must be 12 bytes of base64".to_string()));
    }
    let ciphertext = match base64_decode(ct_b64.as_str().as_bytes()) {
        Some(c) => c,
        None => return Err(AppError::BadRequest("messages_encrypted must be base64".to_string())),
    };
    let mut nonce = [0u8; 12];
    let mut i: usize = 0;
    while i < 12
        invariant
            nonce_bytes@.len() == 12,
            i <= 12,
            forall|k: int| 0 <= k < i ==> nonce@[k] == nonce_bytes@[k],
        decreases 12 - i,
    {
        nonce[i] = nonce_bytes[i];
        i = i + 1;
    }
    proof {
        assert(nonce@ =~= nonce_bytes@);
    }
    let shared = x25519_diffie_hellman(secret, &client_key);
    let label = "pinaivu-aes-key-v1".as_bytes();
    let mut input: Vec<u8> = Vec::new();
    let mut j: usize = 0;
    while j < label.len()
        invariant
            j <= label@.len(),
            input@ == label@.take(j as int),
        decreases label@.len() - j,
    {
        input.push(label[j]);
        proof {
            assert(label@.take(j + 1) =~= label@.take(j as int).push(label@[j as int]));
        }
        j = j + 1;
    }
    let mut m: usize = 0;
    while m < 32
        invariant
            m <= 32,
            label@.len() == j,
            input@ == label@ + shared@.take(m as int),
        decreases 32 - m,
    {
        input.push(shared[m]);
        proof {
            assert(shared@.take(m + 1) =~= shared@.take(m as int).push(shared@[m as int]));
            assert(label@ + shared@.take(m + 1) =~= (label@ + shared@.take(m as int)).push(shared@[m as int]));
        }
        m = m + 1;
    }
    proof {
        assert(label@.take(label@.len() as int) =~= label@);
        assert(shared@.take(32) =~= shared@);
    }
    let key = sha256(input.as_slice());
    match aes256gcm_decrypt(&key, &nonce, ciphertext.as_slice()) {
        Some(p) => Ok(Some(p)),
        None => Err(AppError::BadRequest("messages could not be decrypted".to_string())),
    }
}

} // verus!
