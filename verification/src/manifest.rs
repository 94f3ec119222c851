use vstd::prelude::*;
use crate::identity::{is_b64_char, SignKey, VerifyKey};
use crate::job::HashV;

verus! {

// ---------------------------------------------------------------------------
// Trusted encodings
// ---------------------------------------------------------------------------

/// The URL-safe base64 encoding (with padding) of a byte sequence, a
/// function of the bytes alone.
pub uninterp spec fn base64url_of(bytes: Seq<u8>) -> Seq<char>;

/// Relies on base64's `encode_config` with the `URL_SAFE` configuration:
/// it returns the URL-safe base64 encoding of the bytes — text over the
/// URL-safe alphabet and `=` padding, non-empty for non-empty input —
/// and `decode_config` with the same configuration inverts it.
#[verifier::external_body]
pub(crate) fn b64_encode(bytes: &[u8]) -> (r: String)
    ensures
        r@ == base64url_of(bytes@),
        base64url_decoded(r@) == Some(bytes@),
        bytes@.len() > 0 ==> r@.len() > 0,
        forall|i: int| 0 <= i < r@.len() ==> is_b64_char(#[trigger] r@[i]),
{
    base64::encode_config(bytes, base64::URL_SAFE)
}

/// What decoding a string as URL-safe base64 yields: the bytes, or
/// nothing where the string is not valid URL-safe base64. A function of
/// the characters alone.
pub uninterp spec fn base64url_decoded(s: Seq<char>) -> Option<Seq<u8>>;

/// Relies on base64's `decode_config` with the `URL_SAFE` configuration:
/// decoding succeeds exactly on valid URL-safe base64, and a rejected
/// string is reported as the library's base64 error.
#[verifier::external_body]
pub(crate) fn b64_decode(s: &str) -> (r: Result<Vec<u8>, crate::error::Error>)
    ensures
        match base64url_decoded(s@) {
            Some(b) => r matches Ok(v) && v@ == b,
            None => r matches Err(e) && e is Base64EncodingError,
        },
{
    base64::decode_config(s, base64::URL_SAFE).map_err(|e| match e {
        base64::DecodeError::InvalidByte(at, byte) | base64::DecodeError::InvalidLastSymbol(
            at,
            byte,
        ) => crate::error::Error::Base64EncodingError(
            format!("invalid base64 byte({}) at ({})", byte, at),
        ),
        base64::DecodeError::InvalidLength => crate::error::Error::Base64EncodingError(
            "invalid base64 length".to_string(),
        ),
    })
}

/// The detached Ed25519 signature of a string's UTF-8 bytes under a
/// 64-byte secret key, a function of message and key alone.
pub uninterp spec fn ed25519_sig_of(msg: Seq<char>, sk: Seq<u8>) -> Seq<u8>;

/// Relies on sodiumoxide's `crypto::sign::sign_detached`: it returns the
/// 64-byte detached Ed25519 signature of the message bytes, deterministic
/// in message and key (`SecretKey::from_slice` accepts any 64-byte slice).
#[verifier::external_body]
fn sign_detached_str(msg: &str, sk: &[u8]) -> (r: Vec<u8>)
    requires
        sk@.len() == 64,
    ensures
        r@ == ed25519_sig_of(msg@, sk@),
        r@.len() == 64,
{
    let key = sodiumoxide::crypto::sign::SecretKey::from_slice(sk).unwrap();
    let sig = sodiumoxide::crypto::sign::sign_detached(msg.as_bytes(), &key);
    let mut r = Vec::with_capacity(64);
    r.extend_from_slice(&sig.to_bytes());
    r
}

// ---------------------------------------------------------------------------
// Manifest text
// ---------------------------------------------------------------------------

/// One line of the files object: the path mapped to its digest, the
/// digest written as URL-safe base64 with the hash's name appended.
pub open spec fn file_entry_v(h: HashV) -> Seq<char> {
    "    \""@ + h.path + "\": \"&"@ + base64url_of(h.digest) + ".sha512_256\""@
}

/// The separator after the entry at position `i`: a comma before every
/// entry but the last.
pub open spec fn entry_sep_v(len: int, i: int) -> Seq<char> {
    if i + 1 < len {
        ",\n"@
    } else {
        "\n"@
    }
}

/// The first `n` entry lines of the files object.
pub open spec fn entries_upto_v(hs: Seq<HashV>, n: int) -> Seq<char>
    decreases n,
{
    if n <= 0 {
        Seq::empty()
    } else {
        entries_upto_v(hs, n - 1) + file_entry_v(hs[n - 1]) + entry_sep_v(hs.len() as int, n - 1)
    }
}

/// The files object of the manifest: every collected digest, one line
/// per file, in the order the digests were collected.
pub open spec fn files_json_v(hs: Seq<HashV>) -> Seq<char> {
    "{\n  \"files\": {\n"@ + entries_upto_v(hs, hs.len() as int) + "  }"@
}

/// The text that is signed: the files object closed off as a whole
/// JSON document.
pub open spec fn signing_payload_v(hs: Seq<HashV>) -> Seq<char> {
    files_json_v(hs) + "\n}"@
}

/// The signature field: the detached signature of the signing payload,
/// base64-encoded and named — or a fixed note when there is no sign key.
pub open spec fn signature_field_v(hs: Seq<HashV>, sk: Option<Seq<u8>>) -> Seq<char> {
    match sk {
        Some(k) => base64url_of(ed25519_sig_of(signing_payload_v(hs), k)) + ".sig.ed25519"@,
        None => "no sign key"@,
    }
}

/// The signer's name: the verify key, base64-encoded under the public-key
/// sigil — or a fixed note when there is no verify key.
pub open spec fn pkid_field_v(vk: Option<Seq<u8>>) -> Seq<char> {
    match vk {
        Some(k) => "@"@ + base64url_of(k) + ".ed25519"@,
        None => "no verify key"@,
    }
}

/// The complete signed manifest: the files object followed by a
/// signatures object mapping the signer's name to the signature.
pub open spec fn signed_manifest_v(hs: Seq<HashV>, sk: Option<Seq<u8>>, vk: Option<
    Seq<u8>,
>) -> Seq<char> {
    files_json_v(hs) + ",\n  \"signatures\": {\n    \""@ + pkid_field_v(vk) + "\": \""@
        + signature_field_v(hs, sk) + "\"\n  }\n}"@
}

/// The views of a sequence of collected digests.
pub open spec fn hash_views(s: Seq<crate::job::Hash>) -> Seq<HashV> {
    s.map_values(|h: crate::job::Hash| h@)
}

/// Builds the files object of the manifest from the collected digests.
pub fn manifest_files_json(hashes: &Vec<crate::job::Hash>) -> (r: String)
    ensures
        r@ == files_json_v(hash_views(hashes@)),
{
    let ghost hs = hash_views(hashes@);
    let mut r = String::new();
    r.append("{\n  \"files\": {\n");
    let n = hashes.len();
    for i in 0..n
        invariant
            n == hashes@.len(),
            hs == hash_views(hashes@),
            r@ == "{\n  \"files\": {\n"@ + entries_upto_v(hs, i as int),
    {
        let h = &hashes[i];
        r.append("    \"");
        r.append(h.path.as_str());
        r.append("\": \"&");
        let b64 = b64_encode(h.hash.as_slice());
        r.append(b64.as_str());
        r.append(".sha512_256\"");
        if i + 1 < n {
            r.append(",\n");
        } else {
            r.append("\n");
        }
        proof {
            assert(hs[i as int] == hashes@[i as int]@);
            assert(r@ == "{\n  \"files\": {\n"@ + entries_upto_v(hs, i + 1));
        }
    }
    r.append("  }");
    r
}

/// Builds the text to be signed: the files object closed off as a whole
/// JSON document.
pub fn signing_payload(files_json: &String) -> (r: String)
    ensures
        r@ == files_json@ + "\n}"@,
{
    let mut r = files_json.clone();
    r.append("\n}");
    r
}

/// Builds the signature field for the manifest: the detached signature of
/// the signing payload under the sign key, base64-encoded and named, or a
/// fixed note when the identity holds no sign key.
pub fn signature_field(payload: &String, sign_key: Option<&SignKey>) -> (r: String)
    requires
        match sign_key {
            Some(k) => k.wf(),
            None => true,
        },
    ensures
        match sign_key {
            Some(k) => r@ == base64url_of(ed25519_sig_of(payload@, k@)) + ".sig.ed25519"@,
            None => r@ == "no sign key"@,
        },
{
    match sign_key {
        Some(k) => {
            let sig = sign_detached_str(payload.as_str(), k.0.as_slice());
            let mut r = b64_encode(sig.as_slice());
            r.append(".sig.ed25519");
            r
        },
        None => {
            let mut r = String::new();
            r.append("no sign key");
            r
        },
    }
}

/// Builds the signer's name for the manifest: the verify key under the
/// public-key sigil, or a fixed note when the identity holds no verify
/// key. A well-formed key's name parses back to exactly that key: the
/// written sigil closes the round trip with the identity parser.
pub fn pkid_field(verify_key: Option<&VerifyKey>) -> (r: String)
    ensures
        match verify_key {
            Some(k) => r@ == pkid_field_v(Some(k@)) && (k.wf()
                ==> crate::identity::verify_key_v(r@) == Some(k@)),
            None => r@ == pkid_field_v(None),
        },
{
    match verify_key {
        Some(k) => {
            let mut r = String::new();
            r.append("@");
            let b64 = b64_encode(k.0.as_slice());
            r.append(b64.as_str());
            r.append(".ed25519");
            proof {
                assert(r@ =~= "@"@ + b64@ + ".ed25519"@);
                if k.wf() {
                    crate::identity::lemma_sigil_roundtrip(b64@);
                }
            }
            r
        },
        None => {
            let mut r = String::new();
            r.append("no verify key");
            r
        },
    }
}

/// Assembles the complete signed manifest from the collected digests and
/// the identity's keys: the files object, signed as a closed document,
/// with the signatures object appended.
pub fn signed_manifest(
    hashes: &Vec<crate::job::Hash>,
    sign_key: Option<&SignKey>,
    verify_key: Option<&VerifyKey>,
) -> (r: String)
    requires
        match sign_key {
            Some(k) => k.wf(),
            None => true,
        },
    ensures
        r@ == signed_manifest_v(
            hash_views(hashes@),
            match sign_key {
                Some(k) => Some(k@),
                None => None,
            },
            match verify_key {
                Some(k) => Some(k@),
                None => None,
            },
        ),
{
    let files_json = manifest_files_json(hashes);
    let payload = signing_payload(&files_json);
    let signature = signature_field(&payload, sign_key);
    let pkid = pkid_field(verify_key);
    let mut r = files_json;
    r.append(",\n  \"signatures\": {\n    \"");
    r.append(pkid.as_str());
    r.append("\": \"");
    r.append(signature.as_str());
    r.append("\"\n  }\n}");
    r
}

} // verus!
