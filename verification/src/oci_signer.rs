//! Signing of Oracle Cloud API requests (draft-cavage HTTP signatures with
//! RSA PKCS#1 v1.5 over SHA-256): the signing string, the digest input and
//! the `Authorization` header.

use vstd::prelude::*;
use crate::oci_auth::{key_id_outcome, AuthError, AuthErrorView, ConfigurationProvider};
use crate::text::{casefold, concat2, decimal, decimal_string, lowercase, str_eq, to_lowercase};
use base64::Engine;
use rsa::pkcs1::DecodeRsaPrivateKey;
use rsa::pkcs8::DecodePrivateKey;
use rsa::signature::{SignatureEncoding, Signer};
use rsa::RsaPrivateKey;
use sha2::{Digest, Sha256};

verus! {

/// Declares `rsa::RsaPrivateKey`.
#[verifier::external_type_specification]
#[verifier::external_body]
pub struct ExRsaPrivateKey(RsaPrivateKey);

/// What `pem::parse` yields for a text: the contents of its first PEM
/// block, or the displayed parse error.
pub uninterp spec fn pem_decode(text: Seq<char>) -> Result<Seq<u8>, Seq<char>>;

/// Whether `RsaPrivateKey::from_pkcs1_der` accepts the bytes.
pub uninterp spec fn pkcs1_accepts(der: Seq<u8>) -> bool;

/// What `RsaPrivateKey::from_pkcs8_der` reports: `None` when it accepts the
/// bytes, else the displayed error.
pub uninterp spec fn pkcs8_error(der: Seq<u8>) -> Option<Seq<char>>;

/// The SHA-256 digest of the bytes.
pub uninterp spec fn sha256_spec(data: Seq<u8>) -> Seq<u8>;

/// Standard base64 (with padding) of the bytes.
pub uninterp spec fn base64_spec(data: Seq<u8>) -> Seq<char>;

/// Calls `pem::parse` and takes the block's contents. Claimed: the result
/// is `pem_decode` of the text, error messages included.
#[verifier::external_body]
fn pem_contents(text: &str) -> (r: Result<Vec<u8>, String>)
    ensures
        match r {
            Ok(c) => pem_decode(text@) == Ok::<Seq<u8>, Seq<char>>(c@),
            Err(e) => pem_decode(text@) == Err::<Seq<u8>, Seq<char>>(e@),
        },
{
    match pem::parse(text) {
        Ok(p) => Ok(p.into_contents()),
        Err(e) => Err(e.to_string()),
    }
}

/// Calls `RsaPrivateKey::from_pkcs1_der`. Claimed: a key comes back exactly
/// when `pkcs1_accepts` holds of the bytes; nothing is claimed of the key.
#[verifier::external_body]
fn rsa_from_pkcs1_der(der: &[u8]) -> (r: Option<RsaPrivateKey>)
    ensures
        r is Some <==> pkcs1_accepts(der@),
{
    RsaPrivateKey::from_pkcs1_der(der).ok()
}

/// Calls `RsaPrivateKey::from_pkcs8_der`. Claimed: it fails exactly when
/// `pkcs8_error` names an error, with that message; nothing is claimed of
/// the key.
#[verifier::external_body]
fn rsa_from_pkcs8_der(der: &[u8]) -> (r: Result<RsaPrivateKey, String>)
    ensures
        match r {
            Ok(_) => pkcs8_error(der@) is None,
            Err(e) => pkcs8_error(der@) == Some(e@),
        },
{
    RsaPrivateKey::from_pkcs8_der(der).map_err(|e| e.to_string())
}

/// Calls `Sha256::digest`. Claimed: the digest is `sha256_spec` of the
/// bytes and is 32 bytes long.
#[verifier::external_body]
fn sha256(data: &[u8]) -> (r: Vec<u8>)
    ensures
        r@ == sha256_spec(data@),
        r@.len() == 32,
{
    Sha256::digest(data).to_vec()
}

/// Calls `base64::engine::general_purpose::STANDARD.encode`. Claimed: the
/// text is `base64_spec` of the bytes.
#[verifier::external_body]
fn base64_encode(data: &[u8]) -> (r: String)
    ensures
        r@ == base64_spec(data@),
{
    base64::engine::general_purpose::STANDARD.encode(data)
}

/// Calls `rsa::pkcs1v15::SigningKey::<Sha256>::new_unprefixed` on a copy of
/// the key and `Signer::try_sign` on the message, giving the signature
/// bytes. The signing key digests the message with SHA-256 before signing.
/// Nothing is claimed of the result: it depends on the key, which is opaque.
/// Contracts that speak of signatures (`RequestSigner::signs`) say only that
/// a signature is an output of this call on the given key and bytes.
#[verifier::external_body]
fn rsa_sign_unprefixed(key: &RsaPrivateKey, msg: &[u8]) -> (r: Result<Vec<u8>, String>) {
    let signing_key = rsa::pkcs1v15::SigningKey::<Sha256>::new_unprefixed(key.clone());
    signing_key.try_sign(msg).map(|s| s.to_vec()).map_err(|e| e.to_string())
}

/// What a signer made from a provider holds: the provider's key id once
/// its private key loads, or the first error among the key id, the private
/// key and the key's checks.
pub open spec fn provider_signer_outcome<C: ConfigurationProvider>(config: &C) -> Result<
    Seq<char>,
    AuthErrorView,
> {
    match key_id_outcome(
        config.tenancy_id_result(),
        config.user_id_result(),
        config.fingerprint_result(),
    ) {
        Err(e) => Err(e),
        Ok(k) => match config.private_key_result() {
            Err(e) => Err(e),
            Ok(pem) => match key_load_error(pem) {
                None => Ok(k),
                Some(e) => Err(e),
            },
        },
    }
}

/// The DER `DigestInfo` prefix for SHA-256 (RFC 8017).
pub open spec fn sha256_digest_info_prefix() -> Seq<u8> {
    seq![
        0x30u8, 0x31u8, 0x30u8, 0x0du8, 0x06u8, 0x09u8, 0x60u8, 0x86u8, 0x48u8, 0x01u8, 0x65u8, 0x03u8,
        0x04u8, 0x02u8, 0x01u8, 0x05u8, 0x00u8, 0x04u8, 0x20u8,
    ]
}

/// The value of the first header named `content-type` (compared in lower
/// case).
pub open spec fn first_content_type(headers: Seq<(&str, &str)>) -> Option<Seq<char>>
    decreases headers.len(),
{
    if headers.len() == 0 {
        None
    } else if casefold(headers[0].0@) == "content-type"@ {
        Some(headers[0].1@)
    } else {
        first_content_type(headers.drop_first())
    }
}

/// The signing string: request target, host and date, and for a request
/// with a body its length, the content type when one is given, and the
/// base64 SHA-256 of the body.
pub open spec fn signing_string_spec(
    method: Seq<char>,
    path: Seq<char>,
    host: Seq<char>,
    date: Seq<char>,
    body: Option<Seq<u8>>,
    headers: Seq<(&str, &str)>,
) -> Seq<char> {
    signing_string_with(method, path, host, date, body, first_content_type(headers))
}

/// The signing string for a request whose content type, if it gives one,
/// is `content_type`.
pub open spec fn signing_string_with(
    method: Seq<char>,
    path: Seq<char>,
    host: Seq<char>,
    date: Seq<char>,
    body: Option<Seq<u8>>,
    content_type: Option<Seq<char>>,
) -> Seq<char> {
    let base = "(request-target): "@ + lowercase(method) + " "@ + path + "\nhost: "@ + host
        + "\ndate: "@ + date;
    match body {
        None => base,
        Some(b) => base + "\ncontent-length: "@ + decimal(b.len()) + (match content_type {
            Some(ct) => "\ncontent-type: "@ + ct,
            None => Seq::<char>::empty(),
        }) + "\nx-content-sha256: "@ + base64_spec(sha256_spec(b)),
    }
}

/// The bytes of an optional body.
pub open spec fn opt_bytes(body: Option<&[u8]>) -> Option<Seq<u8>> {
    match body {
        Some(b) => Some(b@),
        None => None,
    }
}

/// What is signed for a signing string: the SHA-256 `DigestInfo` prefix
/// followed by the SHA-256 digest of its UTF-8 bytes.
pub open spec fn digest_info_spec(signing: Seq<char>) -> Seq<u8> {
    sha256_digest_info_prefix() + sha256_spec(vstd::utf8::encode_utf8(signing))
}

/// A signing string opens with the request target (the lower-cased method
/// and the path exactly as given), then the host, then the date.
pub proof fn law_signing_string_opens_with_target(
    method: Seq<char>,
    path: Seq<char>,
    host: Seq<char>,
    date: Seq<char>,
    body: Option<Seq<u8>>,
    content_type: Option<Seq<char>>,
)
    ensures
        ("(request-target): "@ + lowercase(method) + " "@ + path + "\nhost: "@ + host + "\ndate: "@
            + date).is_prefix_of(signing_string_with(method, path, host, date, body, content_type)),
{
    let base = "(request-target): "@ + lowercase(method) + " "@ + path + "\nhost: "@ + host
        + "\ndate: "@ + date;
    let s = signing_string_with(method, path, host, date, body, content_type);
    match body {
        None => {
            assert(s.subrange(0, base.len() as int) =~= base);
        },
        Some(b) => {
            assert(s.subrange(0, base.len() as int) =~= base);
        },
    }
}

/// The names of the signed headers, space separated, in signing order.
pub open spec fn signed_headers_spec(has_body: bool, has_content_type: bool) -> Seq<char> {
    if !has_body {
        "(request-target) host date"@
    } else if has_content_type {
        "(request-target) host date content-length content-type x-content-sha256"@
    } else {
        "(request-target) host date content-length x-content-sha256"@
    }
}

/// The `Authorization` header value.
pub open spec fn authorization_spec(
    signed_headers: Seq<char>,
    key_id: Seq<char>,
    signature_b64: Seq<char>,
) -> Seq<char> {
    "Signature version=\"1\",headers=\""@ + signed_headers + "\",keyId=\""@ + key_id
        + "\",algorithm=\"rsa-sha256\",signature=\""@ + signature_b64 + "\""@
}

fn find_content_type(headers: &[(&str, &str)]) -> (r: Option<String>)
    ensures
        match r {
            Some(v) => first_content_type(headers@) == Some(v@),
            None => first_content_type(headers@) is None,
        },
{
    let n = headers.len();
    let mut i: usize = 0;
    proof {
        assert(headers@.skip(0) =~= headers@);
    }
    while i < n
        invariant
            n == headers@.len(),
            i <= n,
            first_content_type(headers@) == first_content_type(headers@.skip(i as int)),
        decreases n - i,
    {
        let key = to_lowercase(headers[i].0);
        proof {
            assert(headers@.skip(i as int)[0] == headers@[i as int]);
            assert(headers@.skip(i as int).drop_first() =~= headers@.skip(i + 1));
        }
        if str_eq(key.as_str(), "content-type") {
            return Some(String::from_str(headers[i].1));
        }
        i = i + 1;
    }
    proof {
        assert(headers@.skip(n as int).len() == 0);
    }
    None
}

/// The signing string and the signed header names of a request.
pub fn signing_string(
    method: &str,
    path: &str,
    host: &str,
    date: &str,
    body: Option<&[u8]>,
    headers: &[(&str, &str)],
) -> (r: (String, String))
    ensures
        r.0@ == signing_string_spec(
            method@,
            path@,
            host@,
            date@,
            match body {
                Some(b) => Some(b@),
                None => None,
            },
            headers@,
        ),
        r.1@ == signed_headers_spec(body is Some, first_content_type(headers@) is Some),
{
    proof {
        reveal_strlit("(request-target) host date");
        reveal_strlit(" content-length");
        reveal_strlit(" content-type");
        reveal_strlit(" x-content-sha256");
        reveal_strlit("(request-target) host date content-length content-type x-content-sha256");
        reveal_strlit("(request-target) host date content-length x-content-sha256");
        assert("(request-target) host date"@ + " content-length"@ + " content-type"@
            + " x-content-sha256"@
            =~= "(request-target) host date content-length content-type x-content-sha256"@);
        assert("(request-target) host date"@ + " content-length"@ + " x-content-sha256"@
            =~= "(request-target) host date content-length x-content-sha256"@);
    }
    let m = to_lowercase(method);
    let mut s = String::from_str("(request-target): ");
    s.append(m.as_str());
    s.append(" ");
    s.append(path);
    s.append("\nhost: ");
    s.append(host);
    s.append("\ndate: ");
    s.append(date);
    let mut names = String::from_str("(request-target) host date");
    match body {
        None => (s, names),
        Some(b) => {
            let digest = sha256(b);
            let content_sha256 = base64_encode(digest.as_slice());
            let len = decimal_string(b.len() as u64);
            s.append("\ncontent-length: ");
            s.append(len.as_str());
            names.append(" content-length");
            match find_content_type(headers) {
                Some(ct) => {
                    s.append("\ncontent-type: ");
                    s.append(ct.as_str());
                    names.append(" content-type");
                },
                None => {},
            }
            s.append("\nx-content-sha256: ");
            s.append(content_sha256.as_str());
            names.append(" x-content-sha256");
            (s, names)
        },
    }
}

/// The signature input: the SHA-256 `DigestInfo` prefix followed by the
/// SHA-256 digest of the UTF-8 signing string.
pub fn digest_info(signing: &str) -> (r: Vec<u8>)
    ensures
        r@ == digest_info_spec(signing@),
{
    let digest = sha256(signing.as_bytes());
    let mut r: Vec<u8> = vec![
        0x30, 0x31, 0x30, 0x0d, 0x06, 0x09, 0x60, 0x86, 0x48, 0x01, 0x65, 0x03, 0x04, 0x02, 0x01,
        0x05, 0x00, 0x04, 0x20,
    ];
    let n = digest.len();
    let mut i: usize = 0;
    let ghost p = r@;
    proof {
        assert(p =~= sha256_digest_info_prefix());
    }
    while i < n
        invariant
            n == digest@.len(),
            i <= n,
            r@ == p + digest@.take(i as int),
        decreases n - i,
    {
        r.push(digest[i]);
        proof {
            assert(digest@.take(i + 1) =~= digest@.take(i as int).push(digest@[i as int]));
        }
        i = i + 1;
    }
    proof {
        assert(digest@.take(n as int) =~= digest@);
    }
    r
}

/// The `x-content-sha256` value of a body: the base64 SHA-256 digest.
pub fn content_sha256(body: &[u8]) -> (r: String)
    ensures
        r@ == base64_spec(sha256_spec(body@)),
{
    let digest = sha256(body);
    base64_encode(digest.as_slice())
}

/// Builds the `Authorization` header from the signed header names, the key
/// id and the signature bytes.
pub fn authorization_header(signed_headers: &str, key_id: &str, signature: &[u8]) -> (r: String)
    ensures
        r@ == authorization_spec(signed_headers@, key_id@, base64_spec(signature@)),
{
    let sig = base64_encode(signature);
    let mut h = String::from_str("Signature version=\"1\",headers=\"");
    h.append(signed_headers);
    h.append("\",keyId=\"");
    h.append(key_id);
    h.append("\",algorithm=\"rsa-sha256\",signature=\"");
    h.append(sig.as_str());
    h.append("\"");
    h
}

/// Signs Oracle Cloud API requests with an RSA key.
pub struct RequestSigner {
    key_id: String,
    private_key: RsaPrivateKey,
}

/// How a PEM private key is accepted: the first PEM block must parse and
/// its contents must be a PKCS#1 or else a PKCS#8 RSA key.
pub open spec fn key_load_error(pem_text: Seq<char>) -> Option<AuthErrorView> {
    match pem_decode(pem_text) {
        Err(e) => Some(AuthErrorView::Crypto("Failed to parse PEM: "@ + e)),
        Ok(der) => if pkcs1_accepts(der) {
            None
        } else {
            match pkcs8_error(der) {
                None => None,
                Some(e) => Some(AuthErrorView::Crypto("Failed to parse private key: "@ + e)),
            }
        },
    }
}

impl RequestSigner {
    /// Calls `chrono::Utc::now()` and formats it as an HTTP date
    /// (`%a, %d %b %Y %H:%M:%S GMT`). Nothing is claimed: it reads the clock.
    #[verifier::external_body]
    pub fn get_date_header() -> String {
        chrono::Utc::now().format("%a, %d %b %Y %H:%M:%S GMT").to_string()
    }

    /// The key id that signatures name.
    pub closed spec fn key_id_view(&self) -> Seq<char> {
        self.key_id@
    }

    /// `sig` is what signing `msg` with the signer's private key can give:
    /// an output of the RSA signing call on this key and these bytes.
    pub closed spec fn signs(&self, msg: Seq<u8>, sig: Seq<u8>) -> bool {
        exists|m: &[u8], v: Vec<u8>|
            m@ == msg && v@ == sig && #[trigger] call_ensures(
                rsa_sign_unprefixed,
                (&self.private_key, m),
                Ok::<Vec<u8>, String>(v),
            )
    }

    /// Makes a signer from a key id and a PEM private key (PKCS#1 tried
    /// first, then PKCS#8). Only the first PEM block is read.
    pub fn from_parts(key_id: String, private_key_pem: &str) -> (r: Result<Self, AuthError>)
        ensures
            match key_load_error(private_key_pem@) {
                None => r matches Ok(s) && s.key_id_view() == key_id@,
                Some(e) => r matches Err(x) && x@ == e,
            },
    {
        let der = match pem_contents(private_key_pem) {
            Ok(d) => d,
            Err(e) => {
                return Err(AuthError::CryptoError(concat2("Failed to parse PEM: ", e.as_str())));
            },
        };
        let private_key = match rsa_from_pkcs1_der(der.as_slice()) {
            Some(k) => k,
            None => match rsa_from_pkcs8_der(der.as_slice()) {
                Ok(k) => k,
                Err(e) => {
                    return Err(
                        AuthError::CryptoError(concat2("Failed to parse private key: ", e.as_str())),
                    );
                },
            },
        };
        Ok(RequestSigner { key_id, private_key })
    }

    /// Makes a signer from a configuration provider: its key id, then its
    /// private key, then the key checks of [`RequestSigner::from_parts`].
    pub fn new<C: ConfigurationProvider>(config: &C) -> (r: Result<Self, AuthError>)
        ensures
            match provider_signer_outcome(config) {
                Ok(k) => r matches Ok(s) && s.key_id_view() == k,
                Err(e) => r matches Err(x) && x@ == e,
            },
    {
        let key_id = match config.key_id() {
            Ok(k) => k,
            Err(e) => {
                return Err(e);
            },
        };
        let private_key_pem = match config.private_key() {
            Ok(p) => p,
            Err(e) => {
                return Err(e);
            },
        };
        Self::from_parts(key_id, private_key_pem.as_str())
    }

    /// Signs a request at the given date, returning the `Authorization`
    /// header. The signature covers `digest_info` of the signing string.
    pub fn sign_request_at(
        &self,
        date: &str,
        method: &str,
        path: &str,
        host: &str,
        body: Option<&[u8]>,
        headers: &[(&str, &str)],
    ) -> (r: Result<String, AuthError>)
        ensures
            match r {
                Ok(h) => exists|sig: Seq<u8>|
                    #[trigger] self.signs(
                        digest_info_spec(
                            signing_string_spec(
                                method@,
                                path@,
                                host@,
                                date@,
                                opt_bytes(body),
                                headers@,
                            ),
                        ),
                        sig,
                    ) && h@ == authorization_spec(
                        signed_headers_spec(body is Some, first_content_type(headers@) is Some),
                        self.key_id_view(),
                        base64_spec(sig),
                    ),
                Err(e) => e@ matches AuthErrorView::Crypto(m) && "Failed to sign request: "@.is_prefix_of(
                    m,
                ),
            },
    {
        let (s, names) = signing_string(method, path, host, date, body, headers);
        let input = digest_info(s.as_str());
        let msg = input.as_slice();
        let signed = rsa_sign_unprefixed(&self.private_key, msg);
        proof {
            assert(call_ensures(rsa_sign_unprefixed, (&self.private_key, msg), signed));
        }
        match signed {
            Ok(sig) => {
                proof {
                    assert(self.signs(input@, sig@));
                }
                Ok(authorization_header(names.as_str(), self.key_id.as_str(), sig.as_slice()))
            },
            Err(e) => {
                let m = concat2("Failed to sign request: ", e.as_str());
                proof {
                    assert(m@.subrange(0, "Failed to sign request: "@.len() as int)
                        =~= "Failed to sign request: "@);
                }
                Err(AuthError::CryptoError(m))
            },
        }
    }

    /// Signs a request now, returning the `Authorization` header.
    pub fn sign_request(
        &self,
        method: &str,
        path: &str,
        host: &str,
        body: Option<&[u8]>,
        headers: &[(&str, &str)],
    ) -> (r: Result<String, AuthError>)
        ensures
            match r {
                Ok(h) => exists|date: Seq<char>, sig: Seq<u8>|
                    #[trigger] self.signs(
                        digest_info_spec(
                            signing_string_spec(
                                method@,
                                path@,
                                host@,
                                date,
                                opt_bytes(body),
                                headers@,
                            ),
                        ),
                        sig,
                    ) && h@ == authorization_spec(
                        signed_headers_spec(body is Some, first_content_type(headers@) is Some),
                        self.key_id_view(),
                        base64_spec(sig),
                    ),
                Err(e) => e@ matches AuthErrorView::Crypto(m) && "Failed to sign request: "@.is_prefix_of(
                    m,
                ),
            },
    {
        let date = Self::get_date_header();
        self.sign_request_at(date.as_str(), method, path, host, body, headers)
    }
}

} // verus!
