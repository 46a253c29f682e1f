use cloud_manage::oci_auth::{
    compose_key_id, default_config_path, expand_path, join_path, parse_profile, AuthError,
    ConfigurationProvider, FileConfigProvider, ProfileSettings,
};
use base64::Engine;
use cloud_manage::oci_compute::ComputeClient;
use cloud_manage::oci_signer::{authorization_header, digest_info, signing_string, RequestSigner};

// Throwaway 512-bit RSA key made for these tests only (small, so signing is fast),
// kept as DER bytes and armoured at run time.
const PKCS1_DER: [u8; 319] = [
    0x30, 0x82, 0x01, 0x3b, 0x02, 0x01, 0x00, 0x02, 0x41, 0x00, 0xc6, 0x2f, 0x1b, 0x76, 0x47, 0x25,
    0x9b, 0xb7, 0x33, 0x0d, 0xce, 0x77, 0x4f, 0x07, 0x6e, 0xe8, 0x12, 0xeb, 0xf4, 0xe1, 0x04, 0x0d,
    0x5e, 0xef, 0x0b, 0x5e, 0x18, 0x61, 0xce, 0x56, 0xce, 0x2c, 0x57, 0x92, 0x57, 0x36, 0x2e, 0xb3,
    0x6b, 0x05, 0x45, 0xfe, 0x43, 0x1e, 0x7a, 0xb1, 0x1a, 0x71, 0xfb, 0x4b, 0xe1, 0x03, 0x53, 0x08,
    0x9b, 0xf9, 0xe6, 0x18, 0x7f, 0x89, 0x64, 0x14, 0xfd, 0x61, 0x02, 0x03, 0x01, 0x00, 0x01, 0x02,
    0x40, 0x26, 0x7b, 0xc3, 0x43, 0x66, 0x71, 0x61, 0x19, 0x63, 0xea, 0x8c, 0x6b, 0x12, 0x87, 0x88,
    0xfb, 0xbb, 0xa0, 0xe1, 0xfe, 0x47, 0xc1, 0x28, 0xec, 0x16, 0x33, 0x01, 0x5d, 0x0c, 0xaa, 0x42,
    0x82, 0x75, 0xe5, 0xd3, 0x20, 0x45, 0x56, 0xc7, 0xe2, 0x6c, 0xaf, 0x2e, 0xa1, 0xa6, 0x49, 0x2b,
    0x64, 0xbd, 0x77, 0x02, 0x82, 0xf1, 0xed, 0x8b, 0x4d, 0x41, 0x3b, 0xbf, 0x89, 0x78, 0x98, 0xf0,
    0x01, 0x02, 0x21, 0x00, 0xf7, 0xe1, 0x2a, 0x48, 0xdc, 0xd6, 0x2a, 0x1d, 0xd5, 0x60, 0x5a, 0x2e,
    0x2e, 0x98, 0x54, 0x7e, 0xcd, 0xdd, 0xab, 0x4b, 0xe9, 0xd8, 0x08, 0x4d, 0x62, 0xbf, 0xf9, 0x80,
    0xca, 0xae, 0xd7, 0x41, 0x02, 0x21, 0x00, 0xcc, 0xad, 0x2b, 0xff, 0xf0, 0x28, 0x8b, 0x59, 0xb0,
    0x64, 0xb6, 0x82, 0xaf, 0x6a, 0x21, 0x47, 0x9b, 0xc0, 0xd9, 0x1a, 0x17, 0xb5, 0x7b, 0x09, 0x13,
    0xd7, 0x52, 0x3a, 0xce, 0x89, 0xbe, 0x21, 0x02, 0x21, 0x00, 0xb6, 0x1c, 0x02, 0x88, 0xcd, 0x55,
    0xba, 0x53, 0x78, 0xb3, 0xf5, 0x0d, 0x00, 0xc6, 0x81, 0x2d, 0x37, 0xe9, 0xa7, 0x33, 0x7a, 0x75,
    0x70, 0x84, 0x0a, 0x0c, 0xa8, 0x2d, 0x6a, 0xba, 0xd1, 0x01, 0x02, 0x21, 0x00, 0xac, 0xbb, 0xd5,
    0x2f, 0x59, 0x72, 0x0e, 0x30, 0xb2, 0x32, 0x3c, 0xe9, 0x4b, 0xbb, 0x28, 0xbc, 0xf3, 0x50, 0xac,
    0xa8, 0x5d, 0xab, 0xf6, 0x5a, 0xf1, 0xd8, 0xbd, 0x78, 0x0d, 0xc8, 0xa7, 0xa1, 0x02, 0x20, 0x2d,
    0x80, 0x97, 0xd0, 0x22, 0xb5, 0xd9, 0xc7, 0xd1, 0x0c, 0x81, 0xbd, 0xf5, 0x6c, 0xd7, 0x4b, 0x1c,
    0x1a, 0xe5, 0x37, 0xab, 0x3a, 0x4d, 0x81, 0x33, 0x4a, 0x3f, 0xd6, 0x31, 0xfa, 0xb9, 0x92,
];

const PKCS8_DER: [u8; 345] = [
    0x30, 0x82, 0x01, 0x55, 0x02, 0x01, 0x00, 0x30, 0x0d, 0x06, 0x09, 0x2a, 0x86, 0x48, 0x86, 0xf7,
    0x0d, 0x01, 0x01, 0x01, 0x05, 0x00, 0x04, 0x82, 0x01, 0x3f, 0x30, 0x82, 0x01, 0x3b, 0x02, 0x01,
    0x00, 0x02, 0x41, 0x00, 0xc6, 0x2f, 0x1b, 0x76, 0x47, 0x25, 0x9b, 0xb7, 0x33, 0x0d, 0xce, 0x77,
    0x4f, 0x07, 0x6e, 0xe8, 0x12, 0xeb, 0xf4, 0xe1, 0x04, 0x0d, 0x5e, 0xef, 0x0b, 0x5e, 0x18, 0x61,
    0xce, 0x56, 0xce, 0x2c, 0x57, 0x92, 0x57, 0x36, 0x2e, 0xb3, 0x6b, 0x05, 0x45, 0xfe, 0x43, 0x1e,
    0x7a, 0xb1, 0x1a, 0x71, 0xfb, 0x4b, 0xe1, 0x03, 0x53, 0x08, 0x9b, 0xf9, 0xe6, 0x18, 0x7f, 0x89,
    0x64, 0x14, 0xfd, 0x61, 0x02, 0x03, 0x01, 0x00, 0x01, 0x02, 0x40, 0x26, 0x7b, 0xc3, 0x43, 0x66,
    0x71, 0x61, 0x19, 0x63, 0xea, 0x8c, 0x6b, 0x12, 0x87, 0x88, 0xfb, 0xbb, 0xa0, 0xe1, 0xfe, 0x47,
    0xc1, 0x28, 0xec, 0x16, 0x33, 0x01, 0x5d, 0x0c, 0xaa, 0x42, 0x82, 0x75, 0xe5, 0xd3, 0x20, 0x45,
    0x56, 0xc7, 0xe2, 0x6c, 0xaf, 0x2e, 0xa1, 0xa6, 0x49, 0x2b, 0x64, 0xbd, 0x77, 0x02, 0x82, 0xf1,
    0xed, 0x8b, 0x4d, 0x41, 0x3b, 0xbf, 0x89, 0x78, 0x98, 0xf0, 0x01, 0x02, 0x21, 0x00, 0xf7, 0xe1,
    0x2a, 0x48, 0xdc, 0xd6, 0x2a, 0x1d, 0xd5, 0x60, 0x5a, 0x2e, 0x2e, 0x98, 0x54, 0x7e, 0xcd, 0xdd,
    0xab, 0x4b, 0xe9, 0xd8, 0x08, 0x4d, 0x62, 0xbf, 0xf9, 0x80, 0xca, 0xae, 0xd7, 0x41, 0x02, 0x21,
    0x00, 0xcc, 0xad, 0x2b, 0xff, 0xf0, 0x28, 0x8b, 0x59, 0xb0, 0x64, 0xb6, 0x82, 0xaf, 0x6a, 0x21,
    0x47, 0x9b, 0xc0, 0xd9, 0x1a, 0x17, 0xb5, 0x7b, 0x09, 0x13, 0xd7, 0x52, 0x3a, 0xce, 0x89, 0xbe,
    0x21, 0x02, 0x21, 0x00, 0xb6, 0x1c, 0x02, 0x88, 0xcd, 0x55, 0xba, 0x53, 0x78, 0xb3, 0xf5, 0x0d,
    0x00, 0xc6, 0x81, 0x2d, 0x37, 0xe9, 0xa7, 0x33, 0x7a, 0x75, 0x70, 0x84, 0x0a, 0x0c, 0xa8, 0x2d,
    0x6a, 0xba, 0xd1, 0x01, 0x02, 0x21, 0x00, 0xac, 0xbb, 0xd5, 0x2f, 0x59, 0x72, 0x0e, 0x30, 0xb2,
    0x32, 0x3c, 0xe9, 0x4b, 0xbb, 0x28, 0xbc, 0xf3, 0x50, 0xac, 0xa8, 0x5d, 0xab, 0xf6, 0x5a, 0xf1,
    0xd8, 0xbd, 0x78, 0x0d, 0xc8, 0xa7, 0xa1, 0x02, 0x20, 0x2d, 0x80, 0x97, 0xd0, 0x22, 0xb5, 0xd9,
    0xc7, 0xd1, 0x0c, 0x81, 0xbd, 0xf5, 0x6c, 0xd7, 0x4b, 0x1c, 0x1a, 0xe5, 0x37, 0xab, 0x3a, 0x4d,
    0x81, 0x33, 0x4a, 0x3f, 0xd6, 0x31, 0xfa, 0xb9, 0x92,
];

/// Armours DER bytes as PEM text with the given label, 64 columns a line.
fn pem_text(label: &str, der: &[u8]) -> String {
    let body = base64::engine::general_purpose::STANDARD.encode(der);
    let mut text = format!("-----BEGIN {}-----\n", label);
    for line in body.as_bytes().chunks(64) {
        text.push_str(std::str::from_utf8(line).unwrap());
        text.push('\n');
    }
    text.push_str(&format!("-----END {}-----\n", label));
    text
}

fn pkcs1_key() -> String {
    pem_text("RSA PRIVATE KEY", &PKCS1_DER)
}

fn pkcs8_key() -> String {
    pem_text("PRIVATE KEY", &PKCS8_DER)
}

/// Signatures computed independently (openssl) over the signing strings below.
const GET_SIGNATURE: [u8; 64] = [
    0x59, 0x7d, 0xba, 0xeb, 0x77, 0x9f, 0xb2, 0x36, 0x8c, 0x28, 0xe9, 0x33, 0x92, 0x1b, 0x0a, 0x7b,
    0x23, 0x1b, 0xd5, 0xbf, 0xb3, 0x41, 0x15, 0x4e, 0xe1, 0x2e, 0xc3, 0x5c, 0xa4, 0x6b, 0x3d, 0x2f,
    0x7a, 0x04, 0xd1, 0x21, 0x07, 0xf4, 0x3a, 0xe7, 0x03, 0x58, 0x6b, 0x1c, 0x84, 0x70, 0x0a, 0xb5,
    0x85, 0x96, 0xd1, 0x68, 0xa7, 0x6b, 0x19, 0x48, 0x32, 0x08, 0x34, 0x07, 0x1a, 0xb6, 0x85, 0x95,
];

const POST_SIGNATURE: [u8; 64] = [
    0x48, 0x40, 0x65, 0xdb, 0x97, 0xba, 0x47, 0xed, 0xa2, 0xf9, 0x6a, 0xca, 0xa8, 0x81, 0x2e, 0x6f,
    0xb1, 0x2b, 0x41, 0xfb, 0xdc, 0x2a, 0xa6, 0x46, 0x58, 0xe9, 0x5b, 0x03, 0x75, 0xe6, 0x31, 0x35,
    0x4b, 0x31, 0xb2, 0x17, 0x08, 0x72, 0x5a, 0x0a, 0x35, 0x7c, 0x2d, 0xdf, 0x90, 0x39, 0xbf, 0x0f,
    0x52, 0xe3, 0x21, 0x57, 0x46, 0x67, 0x60, 0xa1, 0x93, 0xd7, 0xe3, 0xd2, 0x45, 0x46, 0x45, 0x56,
];

const CONFIG: &str = "[DEFAULT]
user=ocid1.user.oc1..u
fingerprint=aa:bb:cc
tenancy=ocid1.tenancy.oc1..t
region=us-ashburn-1
key_file=~/.oci/key.pem

[OTHER]
User = ocid1.user.oc1..other
fingerprint=dd
tenancy=ocid1.tenancy.oc1..t2
region=eu-frankfurt-1
key_file=/keys/other.pem
pass_phrase=secret
";

fn crypto_message(e: &AuthError) -> String {
    match e {
        AuthError::CryptoError(m) => m.clone(),
        other => panic!("unexpected error {:?}", other),
    }
}

#[test]
fn config_paths() {
    assert_eq!(default_config_path(Some("/home/me")).unwrap(), "/home/me/.oci/config");
    assert_eq!(default_config_path(Some("/home/me/")).unwrap(), "/home/me/.oci/config");
    match default_config_path(None) {
        Err(AuthError::ConfigNotFound(m)) => assert_eq!(m, "Cannot determine home directory"),
        _ => panic!("expected ConfigNotFound"),
    }
    assert_eq!(expand_path("~/.oci/key.pem", Some("/home/me")), "/home/me/.oci/key.pem");
    assert_eq!(expand_path("~/.oci/key.pem", None), "~/.oci/key.pem");
    assert_eq!(expand_path("/abs/key.pem", Some("/home/me")), "/abs/key.pem");
    assert_eq!(join_path("/a", "/b"), "/b");
    assert_eq!(compose_key_id("t", "u", "f"), "t/u/f");
}

#[test]
fn profile_parsing() {
    let p = parse_profile("/cfg", CONFIG, "DEFAULT").unwrap();
    assert_eq!(p.user, "ocid1.user.oc1..u");
    assert_eq!(p.fingerprint, "aa:bb:cc");
    assert_eq!(p.tenancy, "ocid1.tenancy.oc1..t");
    assert_eq!(p.region, "us-ashburn-1");
    assert_eq!(p.key_file, "~/.oci/key.pem");
    assert_eq!(p.passphrase, None);
    let o = parse_profile("/cfg", CONFIG, "other").unwrap();
    assert_eq!(o.user, "ocid1.user.oc1..other");
    assert_eq!(o.passphrase, Some("secret".to_string()));
}

#[test]
fn profile_errors() {
    match parse_profile("/cfg", "[DEFAULT]\nuser=u\ntenancy=t\nfingerprint=f\nkey_file=k\n", "DEFAULT") {
        Err(AuthError::InvalidConfig(m)) => assert_eq!(m, "Missing 'region' field"),
        _ => panic!("expected InvalidConfig"),
    }
    match parse_profile("/cfg", CONFIG, "NOPE") {
        Err(AuthError::InvalidConfig(m)) => assert_eq!(m, "Missing 'user' field"),
        _ => panic!("expected InvalidConfig"),
    }
    match parse_profile("/cfg", "[DEFAULT\nuser=u\n", "DEFAULT") {
        Err(AuthError::ConfigNotFound(m)) => assert_eq!(
            m,
            "Failed to load config file: couldn't read /cfg: line 1: Found opening bracket for section name but no closing bracket"
        ),
        _ => panic!("expected ConfigNotFound"),
    }
}

fn provider_settings() -> ProfileSettings {
    ProfileSettings {
        user: "u".to_string(),
        tenancy: "t".to_string(),
        fingerprint: "f".to_string(),
        region: "r".to_string(),
        key_file: "/k".to_string(),
        passphrase: None,
    }
}

#[test]
fn provider_loading_steps() {
    let loc = FileConfigProvider::new(Some("/home/me")).unwrap();
    assert_eq!(loc.path, "/home/me/.oci/config");
    assert_eq!(loc.profile, "DEFAULT");
    let loc2 = FileConfigProvider::from_profile("OTHER", Some("/root")).unwrap();
    assert_eq!(loc2.path, "/root/.oci/config");
    assert_eq!(loc2.profile, "OTHER");
    assert!(FileConfigProvider::from_profile("OTHER", None).is_err());

    let req = FileConfigProvider::from_file(&loc.path, &loc.profile, Ok(CONFIG.to_string()), Some("/home/me"))
        .unwrap();
    assert_eq!(req.key_path, "/home/me/.oci/key.pem");
    match FileConfigProvider::from_file("/x", "DEFAULT", Err("No such file or directory (os error 2)".to_string()), None) {
        Err(AuthError::ConfigNotFound(m)) => assert_eq!(
            m,
            "Failed to load config file: couldn't read /x: No such file or directory (os error 2)"
        ),
        _ => panic!("expected ConfigNotFound"),
    }
    match FileConfigProvider::with_key_file(req.clone(), Err("denied".to_string())) {
        Err(AuthError::ConfigNotFound(m)) => assert_eq!(m, "Failed to read private key file: denied"),
        _ => panic!("expected ConfigNotFound"),
    }
    let provider = FileConfigProvider::with_key_file(req, Ok(pkcs1_key())).unwrap();
    assert_eq!(provider.user_id().unwrap(), "ocid1.user.oc1..u");
    assert_eq!(provider.region().unwrap(), "us-ashburn-1");
    assert_eq!(provider.passphrase().unwrap(), None);
    assert_eq!(
        provider.key_id().unwrap(),
        "ocid1.tenancy.oc1..t/ocid1.user.oc1..u/aa:bb:cc"
    );
    let bad = FileConfigProvider::from_settings(provider_settings(), "not a pem".to_string());
    assert!(crypto_message(&RequestSigner::new(&bad).err().unwrap()).starts_with("Failed to parse PEM: "));
    assert!(crypto_message(&ComputeClient::new(&bad).err().unwrap()).starts_with("Failed to parse PEM: "));
    let client = ComputeClient::new(&provider).unwrap();
    assert_eq!(client.host(), "iaas.us-ashburn-1.oraclecloud.com");
    let signer = RequestSigner::new(&provider).unwrap();
    let h = signer
        .sign_request_at("Thu, 05 Jan 2014 21:31:40 GMT", "GET", "/p", "h", None, &[])
        .unwrap();
    assert!(h.starts_with("Signature version=\"1\",headers=\"(request-target) host date\",keyId=\"ocid1.tenancy.oc1..t/ocid1.user.oc1..u/aa:bb:cc\""));
}

#[test]
fn error_messages() {
    assert_eq!(AuthError::ConfigNotFound("x".to_string()).message(), "Config not found: x");
    assert_eq!(AuthError::InvalidConfig("y".to_string()).message(), "Invalid config: y");
    assert_eq!(AuthError::CryptoError("z".to_string()).message(), "Crypto error: z");
    let io = std::io::Error::new(std::io::ErrorKind::Other, "disk");
    assert_eq!(AuthError::IoError(io).message(), "IO error: disk");
    let converted = AuthError::from(std::io::Error::new(std::io::ErrorKind::NotFound, "gone"));
    assert!(matches!(converted, AuthError::IoError(_)));
    assert_eq!(converted.message(), "IO error: gone");
}

#[test]
fn signing_string_without_body() {
    let (s, names) = signing_string(
        "GET",
        "/20160918/instances/ocid1.instance.oc1..abc",
        "iaas.us-ashburn-1.oraclecloud.com",
        "Thu, 05 Jan 2014 21:31:40 GMT",
        None,
        &[],
    );
    assert_eq!(
        s,
        "(request-target): get /20160918/instances/ocid1.instance.oc1..abc\nhost: iaas.us-ashburn-1.oraclecloud.com\ndate: Thu, 05 Jan 2014 21:31:40 GMT"
    );
    assert_eq!(names, "(request-target) host date");
}

#[test]
fn signing_string_with_body() {
    let body = b"{\"a\":1}";
    let (s, names) = signing_string(
        "POST",
        "/20160918/instances",
        "iaas.us-ashburn-1.oraclecloud.com",
        "Thu, 05 Jan 2014 21:31:40 GMT",
        Some(&body[..]),
        &[("Content-Type", "application/json")],
    );
    assert_eq!(
        s,
        "(request-target): post /20160918/instances\nhost: iaas.us-ashburn-1.oraclecloud.com\ndate: Thu, 05 Jan 2014 21:31:40 GMT\ncontent-length: 7\ncontent-type: application/json\nx-content-sha256: AVq9f1zFei3ZS3WQ8ErYCEJzkF7jPsXOvq5iJ2qX+GI="
    );
    assert_eq!(names, "(request-target) host date content-length content-type x-content-sha256");
    let (_, names2) = signing_string("PUT", "/x", "h", "d", Some(&b""[..]), &[]);
    assert_eq!(names2, "(request-target) host date content-length x-content-sha256");
}

#[test]
fn digest_info_layout() {
    let d = digest_info("abc");
    assert_eq!(d.len(), 51);
    assert_eq!(
        &d[..19],
        &[0x30, 0x31, 0x30, 0x0d, 0x06, 0x09, 0x60, 0x86, 0x48, 0x01, 0x65, 0x03, 0x04, 0x02, 0x01, 0x05, 0x00, 0x04, 0x20]
    );
    assert_eq!(d[19], 0xba);
    assert_eq!(d[50], 0xad);
}

#[test]
fn authorization_header_format() {
    assert_eq!(
        authorization_header("(request-target) host date", "t/u/f", &[1, 2, 3]),
        "Signature version=\"1\",headers=\"(request-target) host date\",keyId=\"t/u/f\",algorithm=\"rsa-sha256\",signature=\"AQID\""
    );
}

#[test]
fn signature_matches_reference() {
    let signer = RequestSigner::from_parts("t/u/f".to_string(), &pkcs1_key()).unwrap();
    let h = signer
        .sign_request_at(
            "Thu, 05 Jan 2014 21:31:40 GMT",
            "GET",
            "/20160918/instances/ocid1.instance.oc1..abc",
            "iaas.us-ashburn-1.oraclecloud.com",
            None,
            &[],
        )
        .unwrap();
    assert_eq!(
        h,
        format!(
            "Signature version=\"1\",headers=\"(request-target) host date\",keyId=\"t/u/f\",algorithm=\"rsa-sha256\",signature=\"{}\"",
            base64::engine::general_purpose::STANDARD.encode(GET_SIGNATURE)
        )
    );
}

#[test]
fn pkcs8_signature_matches_reference() {
    let pkcs8 = RequestSigner::from_parts("t/u/f".to_string(), &pkcs8_key()).unwrap();
    let body = b"{\"a\":1}";
    let h2 = pkcs8
        .sign_request_at(
            "Thu, 05 Jan 2014 21:31:40 GMT",
            "POST",
            "/20160918/instances",
            "iaas.us-ashburn-1.oraclecloud.com",
            Some(&body[..]),
            &[("content-type", "application/json")],
        )
        .unwrap();
    assert_eq!(
        h2,
        format!(
            "Signature version=\"1\",headers=\"(request-target) host date content-length content-type x-content-sha256\",keyId=\"t/u/f\",algorithm=\"rsa-sha256\",signature=\"{}\"",
            base64::engine::general_purpose::STANDARD.encode(POST_SIGNATURE)
        )
    );
}

#[test]
fn bad_keys_are_refused() {
    let e = RequestSigner::from_parts("k".to_string(), "not a pem").err().unwrap();
    assert!(crypto_message(&e).starts_with("Failed to parse PEM: "));
    let junk = pem_text("PRIVATE KEY", &[0, 0, 0]);
    let e2 = RequestSigner::from_parts("k".to_string(), &junk).err().unwrap();
    assert!(crypto_message(&e2).starts_with("Failed to parse private key: "));
}
