use base64::{encode_config, URL_SAFE};
use bs::identity::{identity_from_doc, identity_from_json, resolve_poa};
use bs::{AnyIdentity, Error, Identity, IdentityDoc, SignKey, VerifyKey};

fn pkid_for(bytes: &[u8]) -> String {
    format!("@{}.ed25519", encode_config(bytes, URL_SAFE))
}

#[test]
fn verify_key_roundtrip() {
    let bytes = [9u8; 32];
    let vk = VerifyKey::try_from(&pkid_for(&bytes)).unwrap();
    assert_eq!(vk.0, bytes.to_vec());
}

#[test]
fn verify_key_tolerates_surrounding_text() {
    // the sigil is searched for, not anchored: leading text and a
    // trailing newline are accepted.
    let bytes = [1u8; 32];
    let sb = format!("key: {}\n", pkid_for(&bytes));
    let vk = VerifyKey::try_from(&sb).unwrap();
    assert_eq!(vk.0, bytes.to_vec());
}

#[test]
fn verify_key_rejects_missing_sigil() {
    let err = VerifyKey::try_from(&"no key here".to_string()).unwrap_err();
    assert!(matches!(&err, Error::InvalidEncoding(m) if m == "not valid sb public key"));
}

#[test]
fn verify_key_rejects_bad_base64() {
    // a lone base64 character is not a decodable quantum
    let err = VerifyKey::try_from(&"@A.ed25519".to_string()).unwrap_err();
    assert!(matches!(err, Error::Base64EncodingError(_)));
}

#[test]
fn verify_key_rejects_wrong_length() {
    let sb = format!("@{}.ed25519", encode_config(&[2u8; 16], URL_SAFE));
    let err = VerifyKey::try_from(&sb).unwrap_err();
    assert!(
        matches!(&err, Error::Syntax(m) if m == "not the right number of bytes for a verify key")
    );
}

#[test]
fn sign_key_rejects_missing_sigil() {
    let err = SignKey::try_from(&"???".to_string()).unwrap_err();
    assert!(matches!(&err, Error::InvalidEncoding(m) if m == "not valid sb secret box"));
}

#[test]
fn sign_key_rejects_bad_base64() {
    let err = SignKey::try_from(&"A.box.xsalsa20poly1305".to_string()).unwrap_err();
    assert!(matches!(err, Error::Base64EncodingError(_)));
}

#[test]
fn sign_key_rejects_short_box() {
    // eight bytes cannot hold the 24-byte nonce
    let sb = format!("{}.box.xsalsa20poly1305", encode_config(&[0u8; 8], URL_SAFE));
    let err = SignKey::try_from(&sb).unwrap_err();
    assert!(matches!(&err, Error::Syntax(m) if m == "secret box too short"));
}

#[test]
fn verify_key_skips_decoy_sigil() {
    // scanning searches: an '@' that opens no full sigil is passed over
    // and the real sigil later in the string is parsed
    let bytes = [3u8; 32];
    let sb = format!("@ {}", pkid_for(&bytes));
    let vk = VerifyKey::try_from(&sb).unwrap();
    assert_eq!(vk.0, bytes.to_vec());
}

#[test]
fn sign_key_scan_skips_decoy_run() {
    // "key" is base64 text but opens no full secret-box sigil; the scan
    // goes on and finds the real one
    let sb = format!(
        "key: {}.box.xsalsa20poly1305",
        encode_config(&[0u8; 8], URL_SAFE)
    );
    let err = SignKey::try_from(&sb).unwrap_err();
    // the real sigil is found (so not invalid-encoding) and its eight
    // bytes are again too short
    assert!(matches!(&err, Error::Syntax(m) if m == "secret box too short"));
}

#[test]
fn identity_from_json_reads_signing_key() {
    // the signing key under secrets is read out of the JSON: the identity
    // turns private, and the malformed secret box is then rejected
    let pkid = pkid_for(&[4u8; 32]);
    let err = identity_from_json(&pkid, "{\"secrets\": {\"signing_key\": \"???\"}}")
        .unwrap_err();
    assert!(matches!(&err, Error::InvalidEncoding(m) if m == "not valid sb secret box"));
}

#[test]
fn identity_from_json_without_secrets() {
    let pkid = pkid_for(&[4u8; 32]);
    let id = identity_from_json(&pkid, "{\"name\": \"x\"}").unwrap();
    assert!(matches!(id, AnyIdentity::Public(_)));
}

#[test]
fn identity_from_json_non_object() {
    let pkid = pkid_for(&[4u8; 32]);
    let err = identity_from_json(&pkid, "[1, 2]").unwrap_err();
    assert!(
        matches!(&err, Error::InvalidEncoding(m) if m == "Identity file contents is not a JSON map")
    );
}

#[test]
fn identity_from_json_rejects_invalid_json() {
    let pkid = pkid_for(&[4u8; 32]);
    let err = identity_from_json(&pkid, "{not json").unwrap_err();
    assert!(matches!(err, Error::Syntax(_)));
}

#[test]
fn identity_from_doc_rejects_non_object() {
    let doc = IdentityDoc { is_object: false, signing_key: None };
    let err = identity_from_doc(&"@x.ed25519".to_string(), &doc).unwrap_err();
    assert!(
        matches!(&err, Error::InvalidEncoding(m) if m == "Identity file contents is not a JSON map")
    );
}

#[test]
fn identity_from_doc_public() {
    let bytes = [4u8; 32];
    let pkid = pkid_for(&bytes);
    let doc = IdentityDoc { is_object: true, signing_key: None };
    let id = identity_from_doc(&pkid, &doc).unwrap();
    assert!(matches!(id, AnyIdentity::Public(_)));
    assert_eq!(id.pkid(), pkid);
    assert_eq!(id.verify_key().unwrap().0, bytes.to_vec());
    assert!(id.sign_key().is_none());
}

#[test]
fn identity_from_doc_private_needs_valid_box() {
    // carrying a signing key makes the identity private; a malformed
    // secret box fails before any key derivation
    let pkid = pkid_for(&[4u8; 32]);
    let doc = IdentityDoc { is_object: true, signing_key: Some("bad".to_string()) };
    let err = identity_from_doc(&pkid, &doc).unwrap_err();
    assert!(matches!(err, Error::InvalidEncoding(_)));
}

#[test]
fn pkid_field_roundtrip() {
    // the signer's name written by the manifest parses back to the key
    let vk = VerifyKey(vec![6u8; 32]);
    let name = bs::manifest::pkid_field(Some(&vk));
    let parsed = VerifyKey::try_from(&name).unwrap();
    assert_eq!(parsed.0, vec![6u8; 32]);
}

#[test]
fn resolve_poa_defaults() {
    assert_eq!(resolve_poa(&None), "default");
    assert_eq!(resolve_poa(&Some("alice".to_string())), "alice");
}

#[test]
fn error_description_carries_message() {
    let e = Error::Syntax("went wrong".to_string());
    assert_eq!(e.description().as_str(), "went wrong");
    let f = Error::scan_failed(&"/d".to_string());
    assert!(matches!(&f, Error::IoError(m) if m == "read_dir failed: /d"));
}
