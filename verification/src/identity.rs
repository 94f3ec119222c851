use vstd::prelude::*;
use crate::error::Error;
use crate::manifest::{base64url_decoded, b64_decode};
use sodiumoxide::crypto::pwhash::argon2id13;
use sodiumoxide::crypto::secretbox;

verus! {

// ---------------------------------------------------------------------------
// Keys
// ---------------------------------------------------------------------------

/// An Ed25519 verify (public) key: exactly 32 bytes.
#[derive(Debug)]
pub struct VerifyKey(pub Vec<u8>);

impl View for VerifyKey {
    type V = Seq<u8>;

    open spec fn view(&self) -> Seq<u8> {
        self.0@
    }
}

impl VerifyKey {
    pub open spec fn wf(&self) -> bool {
        self@.len() == 32
    }
}

impl Clone for VerifyKey {
    fn clone(&self) -> (r: Self)
        ensures
            r@ == self@,
    {
        VerifyKey(vstd::slice::slice_to_vec(self.0.as_slice()))
    }
}

/// An Ed25519 sign (secret) key: exactly 64 bytes.
#[derive(Debug)]
pub struct SignKey(pub Vec<u8>);

impl View for SignKey {
    type V = Seq<u8>;

    open spec fn view(&self) -> Seq<u8> {
        self.0@
    }
}

impl SignKey {
    pub open spec fn wf(&self) -> bool {
        self@.len() == 64
    }
}

impl Clone for SignKey {
    fn clone(&self) -> (r: Self)
        ensures
            r@ == self@,
    {
        SignKey(vstd::slice::slice_to_vec(self.0.as_slice()))
    }
}

// ---------------------------------------------------------------------------
// Sigil scanning
// ---------------------------------------------------------------------------

/// The characters URL-safe base64 data is written in.
pub open spec fn is_b64_char(c: char) -> bool {
    let u = c as u32;
    (65 <= u <= 90)  // 'A' to 'Z'
     || (97 <= u <= 122)  // 'a' to 'z'
     || (48 <= u <= 57)  // '0' to '9'
     || c == '-' || c == '_' || c == '='
}

/// The end of the run of base64 characters starting at `from`.
pub open spec fn run_end(s: Seq<char>, from: int) -> int
    decreases s.len() - from,
{
    if from < 0 || from >= s.len() || !is_b64_char(s[from]) {
        from
    } else {
        run_end(s, from + 1)
    }
}

/// The public-key sigil searched for at or after `from`: at each '@' in
/// turn, a non-empty run of base64 characters right after it, then one
/// character of any kind, then the name `ed25519`. A candidate that does
/// not carry the whole shape is passed over and the search goes on at the
/// next position; the leftmost full sigil's data is captured.
pub open spec fn verify_key_capture_from(s: Seq<char>, from: int) -> Option<Seq<char>>
    decreases s.len() - from,
{
    if from < 0 || from >= s.len() {
        None
    } else if s[from] == '@' {
        let d0 = from + 1;
        let d1 = run_end(s, d0);
        if d1 > d0 && d1 + 8 <= s.len() && s.subrange(d1 + 1, d1 + 8) == "ed25519"@ {
            Some(s.subrange(d0, d1))
        } else {
            verify_key_capture_from(s, from + 1)
        }
    } else {
        verify_key_capture_from(s, from + 1)
    }
}

/// The base64 data of the leftmost public-key sigil in the string.
pub open spec fn verify_key_capture(s: Seq<char>) -> Option<Seq<char>> {
    verify_key_capture_from(s, 0)
}

/// The secret-box sigil searched for at or after `from`: at each base64
/// character in turn, the run of base64 characters from it, then one
/// character of any kind, the name `box`, one more character, and the
/// name `xsalsa20poly1305`. A candidate that does not carry the whole
/// shape is passed over; the leftmost full sigil's data is captured.
pub open spec fn secret_box_capture_from(s: Seq<char>, from: int) -> Option<Seq<char>>
    decreases s.len() - from,
{
    if from < 0 || from >= s.len() {
        None
    } else if is_b64_char(s[from]) {
        let d1 = run_end(s, from);
        if d1 + 21 <= s.len() && s.subrange(d1 + 1, d1 + 4) == "box"@ && s.subrange(
            d1 + 5,
            d1 + 21,
        ) == "xsalsa20poly1305"@ {
            Some(s.subrange(from, d1))
        } else {
            secret_box_capture_from(s, from + 1)
        }
    } else {
        secret_box_capture_from(s, from + 1)
    }
}

/// The base64 data of the leftmost secret-box sigil in the string.
pub open spec fn secret_box_capture(s: Seq<char>) -> Option<Seq<char>> {
    secret_box_capture_from(s, 0)
}

/// A run of base64 characters bounded by a non-base64 character (or the
/// end) runs exactly to that bound.
proof fn lemma_run_end_exact(s: Seq<char>, from: int, end: int)
    requires
        0 <= from <= end <= s.len(),
        forall|k: int| from <= k < end ==> is_b64_char(#[trigger] s[k]),
        end < s.len() ==> !is_b64_char(s[end]),
    ensures
        run_end(s, from) == end,
    decreases end - from,
{
    if from < end {
        lemma_run_end_exact(s, from + 1, end);
    }
}

/// Round trip of the public-key sigil: base64 data written in the sigil
/// shape is captured back exactly, whatever the data.
pub proof fn lemma_sigil_roundtrip(data: Seq<char>)
    requires
        data.len() > 0,
        forall|i: int| 0 <= i < data.len() ==> is_b64_char(#[trigger] data[i]),
    ensures
        verify_key_capture("@"@ + data + ".ed25519"@) == Some(data),
{
    reveal_strlit("@");
    reveal_strlit(".ed25519");
    reveal_strlit("ed25519");
    let s = "@"@ + data + ".ed25519"@;
    let d1 = 1 + data.len() as int;
    assert(s[0] == '@');
    assert forall|k: int| 1 <= k < d1 implies is_b64_char(#[trigger] s[k]) by {
        assert(s[k] == data[k - 1]);
    }
    assert(s[d1] == '.');
    assert(!is_b64_char('.'));
    lemma_run_end_exact(s, 1, d1);
    assert(s.subrange(d1 + 1, d1 + 8) =~= "ed25519"@);
    assert(s.subrange(1, d1) =~= data);
}

/// Round trip of the secret-box sigil: base64 data written in the
/// secret-box shape is captured back exactly, whatever the data.
pub proof fn lemma_secret_box_sigil_roundtrip(data: Seq<char>)
    requires
        data.len() > 0,
        forall|i: int| 0 <= i < data.len() ==> is_b64_char(#[trigger] data[i]),
    ensures
        secret_box_capture(data + ".box.xsalsa20poly1305"@) == Some(data),
{
    reveal_strlit(".box.xsalsa20poly1305");
    reveal_strlit("box");
    reveal_strlit("xsalsa20poly1305");
    let s = data + ".box.xsalsa20poly1305"@;
    let d1 = data.len() as int;
    assert(is_b64_char(s[0]));
    assert forall|k: int| 0 <= k < d1 implies is_b64_char(#[trigger] s[k]) by {
        assert(s[k] == data[k]);
    }
    assert(s[d1] == '.');
    assert(!is_b64_char('.'));
    lemma_run_end_exact(s, 0, d1);
    assert(s.subrange(d1 + 1, d1 + 4) =~= "box"@);
    assert(s.subrange(d1 + 5, d1 + 21) =~= "xsalsa20poly1305"@);
    assert(s.subrange(0, d1) =~= data);
}

/// Whether `c` is a base64 character, decided as the model says.
fn b64_char(c: char) -> (r: bool)
    ensures
        r == is_b64_char(c),
{
    let u = c as u32;
    (65 <= u && u <= 90) || (97 <= u && u <= 122) || (48 <= u && u <= 57) || c == '-' || c == '_'
        || c == '='
}

/// Searches the string for the leftmost full public-key sigil, handing
/// back its base64 data.
fn scan_pkid(s: &str, n: usize) -> (r: Option<String>)
    requires
        n == s@.len(),
    ensures
        match r {
            Some(d) => verify_key_capture(s@) == Some(d@),
            None => verify_key_capture(s@) is None,
        },
{
    proof {
        reveal_strlit("ed25519");
    }
    let mut i: usize = 0;
    while i < n
        invariant
            i <= n,
            n == s@.len(),
            verify_key_capture(s@) == verify_key_capture_from(s@, i as int),
        decreases n - i,
    {
        proof {
            reveal_strlit("ed25519");
        }
        if s.get_char(i) == '@' {
            let d0 = i + 1;
            let d1 = find_run_end(s, n, d0);
            if d1 > d0 && d1 < n && has_pat_at(s, n, d1 + 1, "ed25519") {
                proof {
                    assert(verify_key_capture_from(s@, i as int) == Some(
                        s@.subrange(d0 as int, d1 as int),
                    ));
                }
                return Some(s.substring_char(d0, d1).to_owned());
            }
        }
        i = i + 1;
    }
    None
}

/// Searches the string for the leftmost full secret-box sigil, handing
/// back its base64 data.
fn scan_secret_box(s: &str, n: usize) -> (r: Option<String>)
    requires
        n == s@.len(),
    ensures
        match r {
            Some(d) => secret_box_capture(s@) == Some(d@),
            None => secret_box_capture(s@) is None,
        },
{
    proof {
        reveal_strlit("box");
        reveal_strlit("xsalsa20poly1305");
    }
    let mut i: usize = 0;
    while i < n
        invariant
            i <= n,
            n == s@.len(),
            secret_box_capture(s@) == secret_box_capture_from(s@, i as int),
        decreases n - i,
    {
        proof {
            reveal_strlit("box");
            reveal_strlit("xsalsa20poly1305");
        }
        if b64_char(s.get_char(i)) {
            let d1 = find_run_end(s, n, i);
            if n >= 21 && d1 <= n - 21 && has_pat_at(s, n, d1 + 1, "box") && has_pat_at(
                s,
                n,
                d1 + 5,
                "xsalsa20poly1305",
            ) {
                proof {
                    assert(secret_box_capture_from(s@, i as int) == Some(
                        s@.subrange(i as int, d1 as int),
                    ));
                }
                return Some(s.substring_char(i, d1).to_owned());
            }
        }
        i = i + 1;
    }
    None
}

/// Finds the end of the base64 run starting at `from`.
fn find_run_end(s: &str, n: usize, from: usize) -> (r: usize)
    requires
        n == s@.len(),
        from <= n,
    ensures
        r as int == run_end(s@, from as int),
        from <= r <= n,
{
    let mut i = from;
    while i < n
        invariant
            from <= i <= n,
            n == s@.len(),
            run_end(s@, from as int) == run_end(s@, i as int),
            forall|k: int| from <= k < i ==> is_b64_char(s@[k]),
        decreases n - i,
    {
        if !b64_char(s.get_char(i)) {
            return i;
        }
        i = i + 1;
    }
    n
}

/// Whether the pattern stands in `s` at position `pos`.
fn has_pat_at(s: &str, n: usize, pos: usize, pat: &str) -> (r: bool)
    requires
        n == s@.len(),
    ensures
        r == (pos + pat@.len() <= s@.len() && s@.subrange(
            pos as int,
            pos as int + pat@.len(),
        ) == pat@),
{
    let m = pat.unicode_len();
    if pos > n || m > n - pos {
        return false;
    }
    let mut k: usize = 0;
    while k < m
        invariant
            k <= m,
            n == s@.len(),
            m == pat@.len(),
            pos + m <= n,
            forall|t: int| 0 <= t < k ==> s@[pos + t] == pat@[t],
        decreases m - k,
    {
        if s.get_char(pos + k) != pat.get_char(k) {
            proof {
                assert(s@.subrange(pos as int, pos as int + pat@.len())[k as int] != pat@[
                k as int]);
            }
            return false;
        }
        k = k + 1;
    }
    proof {
        assert(s@.subrange(pos as int, pos as int + pat@.len()) =~= pat@);
    }
    true
}

// ---------------------------------------------------------------------------
// Verify key parsing
// ---------------------------------------------------------------------------

/// The verify key a public-key sigil string denotes: the captured base64
/// data, decoded, when it decodes to exactly 32 bytes.
pub open spec fn verify_key_v(s: Seq<char>) -> Option<Seq<u8>> {
    match verify_key_capture(s) {
        Some(d) => match base64url_decoded(d) {
            Some(b) => if b.len() == 32 {
                Some(b)
            } else {
                None
            },
            None => None,
        },
        None => None,
    }
}

/// The error owed for a string that denotes no verify key, exactly by
/// cause: the invalid-encoding report where no full sigil is found, the
/// base64 error where the captured data does not decode, and the
/// wrong-length report where it decodes to anything but 32 bytes.
pub open spec fn verify_key_err(s: Seq<char>, e: Error) -> bool {
    match verify_key_capture(s) {
        None => e matches Error::InvalidEncoding(m) && m@ == "not valid sb public key"@,
        Some(d) => match base64url_decoded(d) {
            None => e is Base64EncodingError,
            Some(b) => b.len() != 32 && (e matches Error::Syntax(m) && m@
                == "not the right number of bytes for a verify key"@),
        },
    }
}

impl VerifyKey {
    /// Reads a verify key from a public-key sigil string of the shape
    /// `@<base64 data>.ed25519`. Succeeds exactly when the sigil is
    /// present, its data is valid URL-safe base64 and decodes to 32
    /// bytes; each failure names what was wrong.
    pub fn try_from(sb: &String) -> (r: Result<VerifyKey, Error>)
        ensures
            match r {
                Ok(vk) => verify_key_v(sb@) == Some(vk@) && vk.wf(),
                Err(e) => verify_key_v(sb@) is None && verify_key_err(sb@, e),
            },
    {
        let s = sb.as_str();
        let n = s.unicode_len();
        let captured = scan_pkid(s, n);
        match captured {
            None => Err(
                Error::InvalidEncoding(String::from_str("not valid sb public key")),
            ),
            Some(data) => match b64_decode(data.as_str()) {
                Err(e) => Err(e),
                Ok(bytes) => {
                    if bytes.len() != 32 {
                        Err(
                            Error::Syntax(
                                String::from_str(
                                    "not the right number of bytes for a verify key",
                                ),
                            ),
                        )
                    } else {
                        Ok(VerifyKey(bytes))
                    }
                },
            },
        }
    }
}

/// Decides what identity an identity document's text describes: rejected
/// text is a syntax error; a document that is not a JSON object is
/// rejected; one carrying a signing key yields a private identity, any
/// other a public one, the keys read as `identity_from_doc` says.
pub fn identity_from_json(pkid: &String, json_text: &str) -> (r: Result<AnyIdentity, Error>)
    ensures
        match identity_doc_of(json_text@) {
            None => r matches Err(e) && e is Syntax,
            Some((obj, key)) => {
                &&& !obj ==> (r matches Err(e) && e is InvalidEncoding)
                &&& obj ==> match r {
                    Ok(id) => {
                        &&& id.spec_pkid() == pkid@
                        &&& verify_key_v(pkid@) == id.spec_verify_key()
                        &&& (id is Private <==> key is Some)
                        &&& match (key, id.spec_sign_key()) {
                            (Some(sk), Some(k)) => secret_box_data_v(sk) matches Some(data)
                                && unlocked_sign_key_v(data) == Some(k),
                            (None, None) => true,
                            _ => false,
                        }
                    },
                    Err(e) => match key {
                        None => verify_key_v(pkid@) is None && verify_key_err(pkid@, e),
                        Some(sks) => {
                            ||| verify_key_v(pkid@) is None && verify_key_err(pkid@, e)
                            ||| verify_key_v(pkid@) is Some && sign_key_err(sks, e)
                        },
                    },
                }
                &&& (obj && verify_key_v(pkid@) is None) ==> r is Err
                // a public identity is owed whenever the name parses
                &&& (obj && key is None) ==> ((r is Ok) <==> verify_key_v(pkid@) is Some)
                // a private identity is owed from a good name and a box
                // that unlocks, short of the derivation resource failure
                &&& (obj && (match key {
                    Some(sks) => verify_key_v(pkid@) is Some && (secret_box_data_v(
                        sks,
                    ) matches Some(data) && unlocked_sign_key_v(data) is Some),
                    None => false,
                })) ==> (r is Ok || (r matches Err(e) && (e matches Error::Syntax(m) && m@
                    == "unknown error"@)))
            },
        },
{
    let doc = match parse_identity_doc(json_text) {
        Ok(doc) => doc,
        Err(e) => {
            return Err(e);
        },
    };
    identity_from_doc(pkid, &doc)
}

// ---------------------------------------------------------------------------
// Unlocking the sign key
// ---------------------------------------------------------------------------

/// The 32-byte key argon2id derives from a password and a 16-byte salt,
/// under the sensitive op and memory limits. With the limits fixed, the
/// key is a function of password and salt alone: the same password and
/// salt always derive the same key.
pub uninterp spec fn argon2id_key_of(passwd: Seq<u8>, salt: Seq<u8>) -> Seq<u8>;

/// Relies on sodiumoxide's `argon2id13::derive_key`, called with
/// `OPSLIMIT_SENSITIVE` and `MEMLIMIT_SENSITIVE` and a 32-byte output:
/// on success the derived key is determined by password and salt; the
/// call may fail for want of resources, and then there is no key.
#[verifier::external_body]
fn derive_box_key(passwd: &[u8], salt: &[u8]) -> (r: Option<Vec<u8>>)
    requires
        salt@.len() == 16,
    ensures
        r matches Some(k) ==> k@ == argon2id_key_of(passwd@, salt@) && k@.len() == 32,
{
    let salt = argon2id13::Salt::from_slice(salt).unwrap();
    let mut key = [0u8; 32];
    let ops = argon2id13::OPSLIMIT_SENSITIVE;
    let mem = argon2id13::MEMLIMIT_SENSITIVE;
    match argon2id13::derive_key(&mut key, passwd, &salt, ops, mem) {
        Ok(_) => Some(key.to_vec()),
        Err(()) => None,
    }
}

/// What opening an XSalsa20-Poly1305 secret box yields: the plaintext, or
/// nothing where the ciphertext does not authenticate under the nonce and
/// key. A function of ciphertext, nonce and key alone.
pub uninterp spec fn secretbox_opened(c: Seq<u8>, nonce: Seq<u8>, key: Seq<u8>) -> Option<Seq<u8>>;

/// Relies on sodiumoxide's `secretbox::open`: the outcome is determined
/// by ciphertext, nonce and key; a box that does not authenticate yields
/// no plaintext.
#[verifier::external_body]
fn open_secret_box(c: &[u8], nonce: &[u8], key: &[u8]) -> (r: Option<Vec<u8>>)
    requires
        nonce@.len() == 24,
        key@.len() == 32,
    ensures
        match secretbox_opened(c@, nonce@, key@) {
            Some(m) => r matches Some(v) && v@ == m,
            None => r is None,
        },
{
    let nonce = secretbox::Nonce::from_slice(nonce).unwrap();
    let key = secretbox::Key::from_slice(key).unwrap();
    match secretbox::open(c, &nonce, &key) {
        Ok(m) => Some(m),
        Err(()) => None,
    }
}

/// The password the signing key's secret box is derived from (fixed in
/// the tool for now).
pub open spec fn password_v() -> Seq<u8> {
    seq![116u8, 101u8, 115u8, 116u8]
}

/// The password as bytes.
fn password() -> (r: Vec<u8>)
    ensures
        r@ == password_v(),
{
    let mut v: Vec<u8> = Vec::new();
    v.push(116);
    v.push(101);
    v.push(115);
    v.push(116);
    proof {
        assert(v@ =~= password_v());
    }
    v
}

/// The decoded secret box a signing-key string denotes: the captured
/// base64 data, decoded.
pub open spec fn secret_box_data_v(s: Seq<char>) -> Option<Seq<u8>> {
    match secret_box_capture(s) {
        Some(d) => base64url_decoded(d),
        None => None,
    }
}

/// The sign key locked inside a decoded secret box: the first 24 bytes
/// are the nonce, whose last 16 bytes salt the key derivation; the rest
/// is the ciphertext, which must open to exactly 64 bytes.
pub open spec fn unlocked_sign_key_v(box_data: Seq<u8>) -> Option<Seq<u8>> {
    if box_data.len() < 24 {
        None
    } else {
        let nonce = box_data.take(24);
        let salt = nonce.skip(8);
        let key = argon2id_key_of(password_v(), salt);
        match secretbox_opened(box_data.skip(24), nonce, key) {
            Some(m) => if m.len() == 64 {
                Some(m)
            } else {
                None
            },
            None => None,
        }
    }
}

/// The failure owed for a signing-key string, exactly by cause: each
/// deterministic failure of the unlocking pipeline carries its own
/// report, and the resource failure of key derivation — possible on any
/// input that reaches it — carries the fixed unknown-error report.
pub open spec fn sign_key_err(s: Seq<char>, e: Error) -> bool {
    match secret_box_capture(s) {
        None => e matches Error::InvalidEncoding(m) && m@ == "not valid sb secret box"@,
        Some(d) => match base64url_decoded(d) {
            None => e is Base64EncodingError,
            Some(data) => if data.len() < 24 {
                e matches Error::Syntax(m) && m@ == "secret box too short"@
            } else {
                let nonce = data.take(24);
                let key = argon2id_key_of(password_v(), nonce.skip(8));
                match secretbox_opened(data.skip(24), nonce, key) {
                    None => e matches Error::Syntax(m) && (m@ == "unknown error"@ || m@
                        == "decryption failed"@),
                    Some(p) => if p.len() == 64 {
                        e matches Error::Syntax(m) && m@ == "unknown error"@
                    } else {
                        e matches Error::Syntax(m) && (m@ == "unknown error"@ || m@
                            == "not the right number of bytes for a SignKey"@)
                    },
                }
            },
        },
    }
}

impl SignKey {
    /// Unlocks a sign key from a signing-key string of the shape
    /// `<base64 data>.box.xsalsa20poly1305`: the data decodes to a nonce
    /// followed by a secret box, the box key is derived from the password
    /// and the salt carried in the nonce, and the box must open to the
    /// 64 key bytes. Key derivation may fail for want of resources; every
    /// other outcome is determined by the string alone.
    pub fn try_from(sb_box: &String) -> (r: Result<SignKey, Error>)
        ensures
            match r {
                Ok(sk) => {
                    &&& secret_box_data_v(sb_box@) matches Some(data) && unlocked_sign_key_v(data)
                        == Some(sk@)
                    &&& sk.wf()
                },
                Err(e) => sign_key_err(sb_box@, e),
            },
            // on a box that unlocks, only the derivation resource failure
            // stands between the caller and the key
            (secret_box_data_v(sb_box@) matches Some(data) && unlocked_sign_key_v(data) is Some)
                ==> (r is Ok || (r matches Err(e) && e matches Error::Syntax(m) && m@
                == "unknown error"@)),
            // a decoded box too short for the nonce is reported as such,
            // and nothing else ever is
            (secret_box_data_v(sb_box@) matches Some(data) && data.len() < 24) <==> (r matches Err(
                e,
            ) && e matches Error::Syntax(m) && m@ == "secret box too short"@),
    {
        proof {
            reveal_strlit("secret box too short");
            reveal_strlit("unknown error");
            reveal_strlit("decryption failed");
            reveal_strlit("not the right number of bytes for a SignKey");
        }
        let s = sb_box.as_str();
        let n = s.unicode_len();
        let captured = scan_secret_box(s, n);
        let data = match captured {
            None => {
                return Err(Error::InvalidEncoding(String::from_str("not valid sb secret box")));
            },
            Some(data) => data,
        };
        let box_data = match b64_decode(data.as_str()) {
            Err(e) => {
                return Err(e);
            },
            Ok(bytes) => bytes,
        };
        if box_data.len() < 24 {
            return Err(Error::Syntax(String::from_str("secret box too short")));
        }
        proof {
            assert(box_data@.take(24) =~= box_data@.subrange(0, 24));
            assert(box_data@.skip(24) =~= box_data@.subrange(24, box_data@.len() as int));
            assert(box_data@.take(24).skip(8) =~= box_data@.subrange(0, 24).subrange(8, 24));
        }
        let nonce = vstd::slice::slice_subrange(box_data.as_slice(), 0, 24);
        let salt = vstd::slice::slice_subrange(nonce, 8, 24);
        let pw = password();
        let key = match derive_box_key(pw.as_slice(), salt) {
            None => {
                proof {
                    assert("unknown error"@.len() == 13);
                    assert("secret box too short"@.len() == 20);
                    assert("unknown error"@ != "secret box too short"@);
                }
                return Err(Error::Syntax(String::from_str("unknown error")));
            },
            Some(k) => k,
        };
        let cipher = vstd::slice::slice_subrange(box_data.as_slice(), 24, box_data.len());
        let plain = match open_secret_box(cipher, nonce, key.as_slice()) {
            None => {
                proof {
                    assert("decryption failed"@.len() == 17);
                    assert("secret box too short"@.len() == 20);
                    assert("decryption failed"@ != "secret box too short"@);
                }
                return Err(Error::Syntax(String::from_str("decryption failed")));
            },
            Some(m) => m,
        };
        if plain.len() != 64 {
            proof {
                assert("not the right number of bytes for a SignKey"@.len() == 43);
                assert("secret box too short"@.len() == 20);
                assert("not the right number of bytes for a SignKey"@ != "secret box too short"@);
            }
            return Err(
                Error::Syntax(String::from_str("not the right number of bytes for a SignKey")),
            );
        }
        Ok(SignKey(plain))
    }
}

// ---------------------------------------------------------------------------
// Identity documents
// ---------------------------------------------------------------------------

/// What the library reads of an identity document: whether the text is a
/// JSON object, and the signing-key string under `secrets.signing_key`
/// when that entry is a string.
#[derive(Debug)]
pub struct IdentityDoc {
    pub is_object: bool,
    pub signing_key: Option<String>,
}

/// What an identity document's text holds, a function of the text alone:
/// nothing when the text is not JSON; otherwise whether it is an object,
/// and the string under `secrets.signing_key` when that entry is a string.
pub uninterp spec fn identity_doc_of(s: Seq<char>) -> Option<(bool, Option<Seq<char>>)>;

/// Relies on serde_json's `from_str` for `Value`, `Value::is_object` and
/// the `Value` index and `as_str` accessors: parsing either rejects the
/// text or yields a value determined by the text, of which this reads the
/// two facts named by `identity_doc_of`.
#[verifier::external_body]
pub(crate) fn parse_identity_doc(s: &str) -> (r: Result<IdentityDoc, Error>)
    ensures
        match identity_doc_of(s@) {
            Some((obj, key)) => r matches Ok(doc) && doc.is_object == obj && (match (
                doc.signing_key,
                key,
            ) {
                (Some(v), Some(kv)) => v@ == kv,
                (None, None) => true,
                _ => false,
            }),
            None => r matches Err(e) && e is Syntax,
        },
{
    match serde_json::from_str::<serde_json::Value>(s) {
        Ok(v) => Ok(
            IdentityDoc {
                is_object: v.is_object(),
                signing_key: v["secrets"]["signing_key"].as_str().map(|k| k.to_string()),
            },
        ),
        Err(e) => Err(Error::Syntax(format!("{}", e))),
    }
}

// ---------------------------------------------------------------------------
// Identities
// ---------------------------------------------------------------------------

/// A signer or verifier: a name (the public-key sigil string), always a
/// verify key, and a sign key where the identity is private.
pub trait Identity {
    spec fn spec_pkid(&self) -> Seq<char>;

    spec fn spec_verify_key(&self) -> Option<Seq<u8>>;

    spec fn spec_sign_key(&self) -> Option<Seq<u8>>;

    fn pkid(&self) -> (r: String)
        ensures
            r@ == self.spec_pkid(),
    ;

    fn verify_key(&self) -> (r: Option<VerifyKey>)
        ensures
            match (r, self.spec_verify_key()) {
                (Some(k), Some(v)) => k@ == v,
                (None, None) => true,
                _ => false,
            },
    ;

    fn sign_key(&self) -> (r: Option<SignKey>)
        ensures
            match (r, self.spec_sign_key()) {
                (Some(k), Some(v)) => k@ == v,
                (None, None) => true,
                _ => false,
            },
    ;
}

/// An identity that can verify but not sign.
#[derive(Debug)]
pub struct PublicIdentity {
    pub pkid: String,
    pub verify_key: VerifyKey,
}

impl Identity for PublicIdentity {
    open spec fn spec_pkid(&self) -> Seq<char> {
        self.pkid@
    }

    open spec fn spec_verify_key(&self) -> Option<Seq<u8>> {
        Some(self.verify_key@)
    }

    open spec fn spec_sign_key(&self) -> Option<Seq<u8>> {
        None
    }

    fn pkid(&self) -> (r: String) {
        self.pkid.clone()
    }

    fn verify_key(&self) -> (r: Option<VerifyKey>) {
        Some(self.verify_key.clone())
    }

    fn sign_key(&self) -> (r: Option<SignKey>) {
        None
    }
}

impl PublicIdentity {
    /// Builds a public identity from its name: the verify key is read
    /// from the public-key sigil the name is.
    pub fn try_from(pkid: &String) -> (r: Result<PublicIdentity, Error>)
        ensures
            match r {
                Ok(id) => id.pkid@ == pkid@ && verify_key_v(pkid@) == Some(id.verify_key@)
                    && id.verify_key.wf(),
                Err(e) => verify_key_v(pkid@) is None && verify_key_err(pkid@, e),
            },
    {
        let verify_key = match VerifyKey::try_from(pkid) {
            Ok(vk) => vk,
            Err(e) => {
                return Err(e);
            },
        };
        Ok(PublicIdentity { pkid: pkid.clone(), verify_key })
    }
}

/// An identity that can verify and sign.
#[derive(Debug)]
pub struct PrivateIdentity {
    pub pkid: String,
    pub verify_key: VerifyKey,
    pub sign_key: SignKey,
}

impl Identity for PrivateIdentity {
    open spec fn spec_pkid(&self) -> Seq<char> {
        self.pkid@
    }

    open spec fn spec_verify_key(&self) -> Option<Seq<u8>> {
        Some(self.verify_key@)
    }

    open spec fn spec_sign_key(&self) -> Option<Seq<u8>> {
        Some(self.sign_key@)
    }

    fn pkid(&self) -> (r: String) {
        self.pkid.clone()
    }

    fn verify_key(&self) -> (r: Option<VerifyKey>) {
        Some(self.verify_key.clone())
    }

    fn sign_key(&self) -> (r: Option<SignKey>) {
        Some(self.sign_key.clone())
    }
}

impl PrivateIdentity {
    /// Builds a private identity from its name and its signing-key
    /// string: the verify key is read from the name, the sign key
    /// unlocked from the secret box.
    pub fn try_from(pkid: &String, signing_key: &String) -> (r: Result<PrivateIdentity, Error>)
        ensures
            match r {
                Ok(id) => {
                    &&& id.pkid@ == pkid@
                    &&& verify_key_v(pkid@) == Some(id.verify_key@)
                    &&& id.verify_key.wf()
                    &&& secret_box_data_v(signing_key@) matches Some(data)
                        && unlocked_sign_key_v(data) == Some(id.sign_key@)
                    &&& id.sign_key.wf()
                },
                Err(e) => {
                    ||| verify_key_v(pkid@) is None && verify_key_err(pkid@, e)
                    ||| verify_key_v(pkid@) is Some && sign_key_err(signing_key@, e)
                },
            },
            verify_key_v(pkid@) is None ==> r is Err,
            // with a good name and a box that unlocks, only the derivation
            // resource failure stands between the caller and the identity
            (verify_key_v(pkid@) is Some && (secret_box_data_v(signing_key@) matches Some(data)
                && unlocked_sign_key_v(data) is Some)) ==> (r is Ok || (r matches Err(e)
                && (e matches Error::Syntax(m) && m@ == "unknown error"@))),
    {
        let verify_key = match VerifyKey::try_from(pkid) {
            Ok(vk) => vk,
            Err(e) => {
                return Err(e);
            },
        };
        let sign_key = match SignKey::try_from(signing_key) {
            Ok(sk) => sk,
            Err(e) => {
                return Err(e);
            },
        };
        Ok(PrivateIdentity { pkid: pkid.clone(), verify_key, sign_key })
    }
}

/// Whichever of the two identities an identity document yields.
#[derive(Debug)]
pub enum AnyIdentity {
    Public(PublicIdentity),
    Private(PrivateIdentity),
}

impl Identity for AnyIdentity {
    open spec fn spec_pkid(&self) -> Seq<char> {
        match self {
            AnyIdentity::Public(p) => p.pkid@,
            AnyIdentity::Private(p) => p.pkid@,
        }
    }

    open spec fn spec_verify_key(&self) -> Option<Seq<u8>> {
        match self {
            AnyIdentity::Public(p) => Some(p.verify_key@),
            AnyIdentity::Private(p) => Some(p.verify_key@),
        }
    }

    open spec fn spec_sign_key(&self) -> Option<Seq<u8>> {
        match self {
            AnyIdentity::Public(p) => None,
            AnyIdentity::Private(p) => Some(p.sign_key@),
        }
    }

    fn pkid(&self) -> (r: String) {
        match self {
            AnyIdentity::Public(p) => p.pkid.clone(),
            AnyIdentity::Private(p) => p.pkid.clone(),
        }
    }

    fn verify_key(&self) -> (r: Option<VerifyKey>) {
        match self {
            AnyIdentity::Public(p) => Some(p.verify_key.clone()),
            AnyIdentity::Private(p) => Some(p.verify_key.clone()),
        }
    }

    fn sign_key(&self) -> (r: Option<SignKey>) {
        match self {
            AnyIdentity::Public(p) => None,
            AnyIdentity::Private(p) => Some(p.sign_key.clone()),
        }
    }
}

/// The name to look an identity up under: the one the caller gave, or
/// `default` where none was given.
pub fn resolve_poa(pkid_or_alias: &Option<String>) -> (r: String)
    ensures
        match pkid_or_alias {
            Some(v) => r@ == v@,
            None => r@ == "default"@,
        },
{
    match pkid_or_alias {
        Some(v) => v.clone(),
        None => String::from_str("default"),
    }
}

/// Decides what identity an identity document describes: a document that
/// is not a JSON object is rejected; one that carries a signing key
/// yields a private identity, any other a public one.
pub fn identity_from_doc(pkid: &String, doc: &IdentityDoc) -> (r: Result<AnyIdentity, Error>)
    ensures
        !doc.is_object ==> (r matches Err(e) && (e matches Error::InvalidEncoding(m) && m@
            == "Identity file contents is not a JSON map"@)),
        doc.is_object ==> match r {
            Ok(id) => {
                &&& id.spec_pkid() == pkid@
                &&& verify_key_v(pkid@) == id.spec_verify_key()
                &&& (id is Private <==> doc.signing_key is Some)
                &&& match (doc.signing_key, id.spec_sign_key()) {
                    (Some(s), Some(k)) => secret_box_data_v(s@) matches Some(data)
                        && unlocked_sign_key_v(data) == Some(k),
                    (None, None) => true,
                    _ => false,
                }
            },
            Err(e) => match doc.signing_key {
                None => verify_key_v(pkid@) is None && verify_key_err(pkid@, e),
                Some(sks) => {
                    ||| verify_key_v(pkid@) is None && verify_key_err(pkid@, e)
                    ||| verify_key_v(pkid@) is Some && sign_key_err(sks@, e)
                },
            },
        },
        doc.is_object && verify_key_v(pkid@) is None ==> r is Err,
        // a public identity is owed whenever the name parses: no fallible
        // outside call stands on that path
        (doc.is_object && doc.signing_key is None) ==> ((r is Ok) <==> verify_key_v(
            pkid@,
        ) is Some),
        // a private identity is owed from a good name and a box that
        // unlocks, short of the derivation resource failure
        (doc.is_object && (match doc.signing_key {
            Some(sks) => verify_key_v(pkid@) is Some && (secret_box_data_v(sks@) matches Some(
                data,
            ) && unlocked_sign_key_v(data) is Some),
            None => false,
        })) ==> (r is Ok || (r matches Err(e) && e matches Error::Syntax(m) && m@
            == "unknown error"@)),
{
    if !doc.is_object {
        return Err(
            Error::InvalidEncoding(String::from_str("Identity file contents is not a JSON map")),
        );
    }
    match &doc.signing_key {
        Some(signing_key) => match PrivateIdentity::try_from(pkid, signing_key) {
            Ok(id) => Ok(AnyIdentity::Private(id)),
            Err(e) => Err(e),
        },
        None => match PublicIdentity::try_from(pkid) {
            Ok(id) => Ok(AnyIdentity::Public(id)),
            Err(e) => Err(e),
        },
    }
}

} // verus!
