//! Oracle Cloud compute API requests: endpoints, resource paths with their
//! query strings, and signed request descriptions that the transport sends.

use vstd::prelude::*;
use crate::oci_auth::{AuthError, AuthErrorView, ConfigurationProvider};
use crate::oci_signer::{
    authorization_spec, base64_spec, content_sha256, digest_info_spec, provider_signer_outcome,
    law_signing_string_opens_with_target, RequestSigner, sha256_spec, signed_headers_spec,
    signing_string_with,
};
use crate::text::{
    ascii_without_upper, concat2, concat3, copy_string, decimal, decimal_string, lowercase, str_eq,
};

verus! {

/// What `urlencoding::encode` returns for a text (percent-encoding of
/// everything but unreserved characters).
pub uninterp spec fn url_encoded(s: Seq<char>) -> Seq<char>;

/// Calls `urlencoding::encode`. Claimed: the result is `url_encoded` of
/// the text.
#[verifier::external_body]
fn url_encode(s: &str) -> (r: String)
    ensures
        r@ == url_encoded(s@),
{
    urlencoding::encode(s).into_owned()
}

/// HTTP methods used by the client.
#[derive(Debug, Clone, Copy, PartialEq, Eq, Structural)]
pub enum HttpMethod {
    Get,
    Post,
    Delete,
    Put,
}

/// The method named by an upper-case HTTP verb.
pub open spec fn method_of(m: Seq<char>) -> Option<HttpMethod> {
    if m == "GET"@ {
        Some(HttpMethod::Get)
    } else if m == "POST"@ {
        Some(HttpMethod::Post)
    } else if m == "DELETE"@ {
        Some(HttpMethod::Delete)
    } else if m == "PUT"@ {
        Some(HttpMethod::Put)
    } else {
        None
    }
}

/// Reads an HTTP verb; other verbs are refused.
pub fn parse_method(m: &str) -> (r: Result<HttpMethod, String>)
    ensures
        match method_of(m@) {
            Some(x) => r == Ok::<HttpMethod, String>(x),
            None => r matches Err(e) && e@ == "Unsupported HTTP method: "@ + m@,
        },
{
    if str_eq(m, "GET") {
        Ok(HttpMethod::Get)
    } else if str_eq(m, "POST") {
        Ok(HttpMethod::Post)
    } else if str_eq(m, "DELETE") {
        Ok(HttpMethod::Delete)
    } else if str_eq(m, "PUT") {
        Ok(HttpMethod::Put)
    } else {
        Err(concat2("Unsupported HTTP method: ", m))
    }
}

/// A signed request ready to send: besides `Authorization` and the
/// content type, the headers that the signature covers (`date`, and for a
/// body `content-length` and `x-content-sha256`) with the values signed.
#[derive(Debug, Clone)]
pub struct SignedRequest {
    pub method: HttpMethod,
    pub url: String,
    pub authorization: String,
    pub headers: Vec<(String, String)>,
    pub content_type: Option<String>,
    pub body: Option<Vec<u8>>,
}

/// The signed headers sent with a request: the date first, then for a body
/// its length and digest.
pub open spec fn signed_headers_sent(headers: Seq<(String, String)>, body: Option<Seq<u8>>) -> bool {
    &&& headers.len() >= 1
    &&& headers[0].0@ == "date"@
    &&& match body {
        None => headers.len() == 1,
        Some(b) => headers.len() == 3 && headers[1].0@ == "content-length"@ && headers[1].1@
            == decimal(b.len()) && headers[2].0@ == "x-content-sha256"@ && headers[2].1@
            == base64_spec(sha256_spec(b)),
    }
}

/// The message of a response with a failure status.
pub open spec fn api_error_spec(status: Seq<char>, body: Seq<char>) -> Seq<char> {
    "API error "@ + status + ": "@ + body
}

/// Formats the error of a response with a failure status (`status` as the
/// status line displays it, e.g. `404 Not Found`).
pub fn api_error_message(status: &str, body: &str) -> (r: String)
    ensures
        r@ == api_error_spec(status@, body@),
{
    let a = concat3("API error ", status, ": ");
    concat2(a.as_str(), body)
}

/// The compute endpoint of a region.
pub open spec fn endpoint_spec(region: Seq<char>) -> Seq<char> {
    "https://iaas."@ + region + ".oraclecloud.com"@
}

/// The compute host of a region.
pub open spec fn host_spec(region: Seq<char>) -> Seq<char> {
    "iaas."@ + region + ".oraclecloud.com"@
}

/// The identity host of a region.
pub open spec fn identity_host_spec(region: Seq<char>) -> Seq<char> {
    "identity."@ + region + ".oraclecloud.com"@
}

/// The message of a request that could not be signed.
pub open spec fn signing_failed(m: Seq<char>) -> bool {
    "Crypto error: Failed to sign request: "@.is_prefix_of(m)
}

/// The `Authorization` value signs the request under the signer's key id.
pub open spec fn signed_with(key_id: Seq<char>, has_body: bool, has_content_type: bool, auth: Seq<char>) -> bool {
    exists|sig: Seq<u8>|
        auth == authorization_spec(
            signed_headers_spec(has_body, has_content_type),
            key_id,
            #[trigger] base64_spec(sig),
        )
}

/// Client of the Oracle Cloud compute and networking API for one region.
pub struct ComputeClient {
    signer: RequestSigner,
    region: String,
}

/// The verb of a method as a request names it.
pub open spec fn verb_spec(m: HttpMethod) -> Seq<char> {
    match m {
        HttpMethod::Get => "GET"@,
        HttpMethod::Post => "POST"@,
        HttpMethod::Delete => "DELETE"@,
        HttpMethod::Put => "PUT"@,
    }
}

/// What is signed for a request for `path` on `host` dated `date`: the
/// digest of its signing string, which gives a JSON body's content type.
pub open spec fn request_message(
    method: HttpMethod,
    host: Seq<char>,
    path: Seq<char>,
    date: Seq<char>,
    body: Option<Seq<u8>>,
) -> Seq<u8> {
    digest_info_spec(
        signing_string_with(
            verb_spec(method),
            path,
            host,
            date,
            body,
            if body is Some {
                Some("application/json"@)
            } else {
                None
            },
        ),
    )
}

/// `auth` is the `Authorization` value of a request for `path` on `host`
/// dated `date`: it names the signed headers and the client's key id, and
/// carries a signature, by the client's key, of the request's signing
/// string (a JSON body is signed with its content type).
pub open spec fn authorized(
    client: ComputeClient,
    auth: Seq<char>,
    method: HttpMethod,
    host: Seq<char>,
    path: Seq<char>,
    date: Seq<char>,
    body: Option<Seq<u8>>,
) -> bool {
    exists|sig: Seq<u8>|
        #[trigger] client.signs(request_message(method, host, path, date, body), sig) && auth == authorization_spec(
            signed_headers_spec(body is Some, body is Some),
            client.key_id_view(),
            base64_spec(sig),
        )
}

/// A request described by the client is well formed: `method`, the url
/// `https://{host}{path}`, the signed headers, an `Authorization` value
/// that signs `path` on `host` at the date sent, and the JSON body when
/// there is one.
pub open spec fn request_for(
    r: SignedRequest,
    client: ComputeClient,
    method: HttpMethod,
    host: Seq<char>,
    path: Seq<char>,
    body: Option<Seq<u8>>,
) -> bool {
    &&& r.method == method
    &&& r.url@ == "https://"@ + host + path
    &&& signed_headers_sent(r.headers@, body)
    &&& authorized(client, r.authorization@, method, host, path, r.headers@[0].1@, body)
    &&& match body {
        Some(b) => (r.body matches Some(x) && x@ == b) && (r.content_type matches Some(c) && c@
            == "application/json"@),
        None => r.body is None && r.content_type is None,
    }
}

/// A request that the client describes is sent to the very path and host
/// that its signature covers: the url is `https://{host}{path}`, and the
/// `Authorization` value carries a signature, by the client's key, of a
/// signing string whose request target is the method and that path and
/// whose host is that host.
pub proof fn law_request_signs_its_url(
    r: SignedRequest,
    client: ComputeClient,
    method: HttpMethod,
    host: Seq<char>,
    path: Seq<char>,
    body: Option<Seq<u8>>,
)
    requires
        request_for(r, client, method, host, path, body),
    ensures
        r.url@ == "https://"@ + host + path,
        exists|s: Seq<char>, sig: Seq<u8>|
            #[trigger] client.signs(digest_info_spec(s), sig) && ("(request-target): "@ + lowercase(
                verb_spec(method),
            ) + " "@ + path + "\nhost: "@ + host + "\ndate: "@ + r.headers@[0].1@).is_prefix_of(s)
                && r.authorization@ == authorization_spec(
                signed_headers_spec(body is Some, body is Some),
                client.key_id_view(),
                base64_spec(sig),
            ),
{
    let date = r.headers@[0].1@;
    let ct = if body is Some {
        Some("application/json"@)
    } else {
        None
    };
    let s = signing_string_with(verb_spec(method), path, host, date, body, ct);
    law_signing_string_opens_with_target(verb_spec(method), path, host, date, body, ct);
    let sig = choose|sig: Seq<u8>|
        #[trigger] client.signs(request_message(method, host, path, date, body), sig)
            && r.authorization@ == authorization_spec(
            signed_headers_spec(body is Some, body is Some),
            client.key_id_view(),
            base64_spec(sig),
        );
    assert(client.signs(digest_info_spec(s), sig));
}

impl ComputeClient {
    /// The region the client talks to.
    pub closed spec fn region_view(&self) -> Seq<char> {
        self.region@
    }

    /// The key id that signs the client's requests.
    pub closed spec fn key_id_view(&self) -> Seq<char> {
        self.signer.key_id_view()
    }

    /// `sig` is what the client's signer can give for `msg`.
    pub closed spec fn signs(&self, msg: Seq<u8>, sig: Seq<u8>) -> bool {
        self.signer.signs(msg, sig)
    }

    /// A client for `region` signing with `signer`.
    pub fn from_parts(signer: RequestSigner, region: String) -> (r: Self)
        ensures
            r.region_view() == region@,
            r.key_id_view() == signer.key_id_view(),
            forall|msg: Seq<u8>, sig: Seq<u8>| r.signs(msg, sig) == signer.signs(msg, sig),
    {
        ComputeClient { signer, region }
    }

    /// A client from a configuration provider: its region, then a signer.
    pub fn new<C: ConfigurationProvider>(config: &C) -> (r: Result<Self, AuthError>)
        ensures
            match config.region_result() {
                Err(e) => r matches Err(x) && x@ == e,
                Ok(reg) => match provider_signer_outcome(config) {
                    Ok(k) => r matches Ok(c) && c.region_view() == reg && c.key_id_view() == k,
                    Err(e) => r matches Err(x) && x@ == e,
                },
            },
    {
        let region = match config.region() {
            Ok(reg) => reg,
            Err(e) => {
                return Err(e);
            },
        };
        let signer = match RequestSigner::new(config) {
            Ok(s) => s,
            Err(e) => {
                return Err(e);
            },
        };
        Ok(ComputeClient { signer, region })
    }

    /// The base endpoint for the compute service.
    pub fn endpoint(&self) -> (r: String)
        ensures
            r@ == endpoint_spec(self.region_view()),
    {
        concat3("https://iaas.", self.region.as_str(), ".oraclecloud.com")
    }

    /// The host for API requests.
    pub fn host(&self) -> (r: String)
        ensures
            r@ == host_spec(self.region_view()),
    {
        concat3("iaas.", self.region.as_str(), ".oraclecloud.com")
    }

    /// Signs a request for `path` on `host` and describes it, sent to
    /// `https://{host}{path}`, so that the url and what is signed come from
    /// the same host and path; a JSON body is signed with its content type.
    fn signed(
        &self,
        method: HttpMethod,
        host: &str,
        path: &str,
        body: Option<Vec<u8>>,
    ) -> (r: Result<SignedRequest, String>)
        ensures
            r matches Err(m) ==> signing_failed(m@),
            r matches Ok(req) ==> request_for(
                req,
                *self,
                method,
                host@,
                path@,
                match body {
                    Some(b) => Some(b@),
                    None => None,
                },
            ),
    {
        let verb = match method {
            HttpMethod::Get => "GET",
            HttpMethod::Post => "POST",
            HttpMethod::Delete => "DELETE",
            HttpMethod::Put => "PUT",
        };
        let ct_headers: [(&str, &str); 1] = [("content-type", "application/json")];
        let date = RequestSigner::get_date_header();
        let mut headers: Vec<(String, String)> = Vec::new();
        headers.push((String::from_str("date"), copy_string(&date)));
        let ghost bv: Option<Seq<u8>> = match &body {
            Some(b) => Some(b@),
            None => None,
        };
        let ghost msg = request_message(method, host@, path@, date@, bv);
        proof {
            assert(verb@ == verb_spec(method));
        }
        let signed = match &body {
            Some(b) => {
                headers.push(
                    (String::from_str("content-length"), decimal_string(b.len() as u64)),
                );
                headers.push((String::from_str("x-content-sha256"), content_sha256(b.as_slice())));
                let bytes = b.as_slice();
                proof {
                    reveal_strlit("content-type");
                    assert(ct_headers@[0].0@ == "content-type"@);
                    assert(ascii_without_upper("content-type"@));
                    assert(crate::oci_signer::first_content_type(ct_headers@.drop_first()) is None);
                    assert(crate::oci_signer::first_content_type(ct_headers@) == Some(
                        "application/json"@,
                    ));
                    assert(crate::oci_signer::opt_bytes(Some(bytes)) == bv);
                    assert(digest_info_spec(
                        crate::oci_signer::signing_string_spec(
                            verb@,
                            path@,
                            host@,
                            date@,
                            crate::oci_signer::opt_bytes(Some(bytes)),
                            ct_headers@,
                        ),
                    ) == msg);
                }
                self.signer.sign_request_at(
                    date.as_str(),
                    verb,
                    path,
                    host,
                    Some(bytes),
                    ct_headers.as_slice(),
                )
            },
            None => {
                let no_headers: [(&str, &str); 0] = [];
                proof {
                    assert(crate::oci_signer::first_content_type(no_headers@) is None);
                    assert(digest_info_spec(
                        crate::oci_signer::signing_string_spec(
                            verb@,
                            path@,
                            host@,
                            date@,
                            crate::oci_signer::opt_bytes(None),
                            no_headers@,
                        ),
                    ) == msg);
                }
                self.signer.sign_request_at(date.as_str(), verb, path, host, None, no_headers.as_slice())
            },
        };
        match signed {
            Ok(auth) => {
                let content_type = match &body {
                    Some(_) => Some(String::from_str("application/json")),
                    None => None,
                };
                proof {
                    assert(exists|sig: Seq<u8>|
                        self.signer.signs(msg, sig) && auth@ == authorization_spec(
                            signed_headers_spec(bv is Some, bv is Some),
                            self.key_id_view(),
                            base64_spec(sig),
                        ));
                    let sig = choose|sig: Seq<u8>|
                        self.signer.signs(msg, sig) && auth@ == authorization_spec(
                            signed_headers_spec(bv is Some, bv is Some),
                            self.key_id_view(),
                            base64_spec(sig),
                        );
                    assert(self.signs(msg, sig));
                }
                let base = concat2("https://", host);
                let url = concat2(base.as_str(), path);
                Ok(SignedRequest { method, url, authorization: auth, headers, content_type, body })
            },
            Err(e) => {
                let m = e.message();
                proof {
                    let p1 = "Crypto error: "@;
                    let p2 = "Failed to sign request: "@;
                    reveal_strlit("Crypto error: ");
                    reveal_strlit("Failed to sign request: ");
                    reveal_strlit("Crypto error: Failed to sign request: ");
                    let inner = match e@ {
                        AuthErrorView::Crypto(x) => x,
                        _ => Seq::empty(),
                    };
                    assert(m@ == p1 + inner);
                    assert(inner.subrange(0, p2.len() as int) == p2);
                    assert(m@.subrange(0, (p1.len() + p2.len()) as int) =~= p1 + p2);
                    assert(p1 + p2 =~= "Crypto error: Failed to sign request: "@);
                }
                Err(m)
            },
        }
    }

    /// A request for a path on the compute endpoint.
    fn compute_request(&self, method: HttpMethod, path: &str, body: Option<Vec<u8>>) -> (r: Result<
        SignedRequest,
        String,
    >)
        ensures
            r matches Err(m) ==> signing_failed(m@),
            r matches Ok(req) ==> request_for(
                req,
                *self,
                method,
                host_spec(self.region_view()),
                path@,
                match body {
                    Some(b) => Some(b@),
                    None => None,
                },
            ),
    {
        let host = self.host();
        self.signed(method, host.as_str(), path, body)
    }

    /// `POST /20160918/instances` with the serialized launch details.
    pub fn launch_instance_request(&self, body: Vec<u8>) -> (r: Result<SignedRequest, String>)
        ensures
            r matches Err(m) ==> signing_failed(m@),
            r matches Ok(req) ==> request_for(
                req,
                *self,
                HttpMethod::Post,
                host_spec(self.region_view()),
                "/20160918/instances"@,
                Some(body@),
            ),
    {
        self.compute_request(HttpMethod::Post, "/20160918/instances", Some(body))
    }

    /// `GET /20160918/instances/{id}`.
    pub fn get_instance_request(&self, instance_id: &str) -> (r: Result<SignedRequest, String>)
        ensures
            r matches Err(m) ==> signing_failed(m@),
            r matches Ok(req) ==> request_for(
                req,
                *self,
                HttpMethod::Get,
                host_spec(self.region_view()),
                "/20160918/instances/"@ + instance_id@,
                None,
            ),
    {
        let path = concat2("/20160918/instances/", instance_id);
        self.compute_request(HttpMethod::Get, path.as_str(), None)
    }

    /// `GET /20160918/images/{id}`.
    pub fn get_image_request(&self, image_id: &str) -> (r: Result<SignedRequest, String>)
        ensures
            r matches Err(m) ==> signing_failed(m@),
            r matches Ok(req) ==> request_for(
                req,
                *self,
                HttpMethod::Get,
                host_spec(self.region_view()),
                "/20160918/images/"@ + image_id@,
                None,
            ),
    {
        let path = concat2("/20160918/images/", image_id);
        self.compute_request(HttpMethod::Get, path.as_str(), None)
    }

    /// `DELETE /20160918/instances/{id}`.
    pub fn terminate_instance_request(&self, instance_id: &str) -> (r: Result<SignedRequest, String>)
        ensures
            r matches Err(m) ==> signing_failed(m@),
            r matches Ok(req) ==> request_for(
                req,
                *self,
                HttpMethod::Delete,
                host_spec(self.region_view()),
                "/20160918/instances/"@ + instance_id@,
                None,
            ),
    {
        let path = concat2("/20160918/instances/", instance_id);
        self.compute_request(HttpMethod::Delete, path.as_str(), None)
    }

    /// `GET /20160918/availabilityDomains?compartmentId={id}` on the
    /// identity endpoint.
    pub fn list_availability_domains_request(&self, compartment_id: &str) -> (r: Result<
        SignedRequest,
        String,
    >)
        ensures
            r matches Err(m) ==> signing_failed(m@),
            r matches Ok(req) ==> request_for(
                req,
                *self,
                HttpMethod::Get,
                identity_host_spec(self.region_view()),
                "/20160918/availabilityDomains?compartmentId="@ + compartment_id@,
                None,
            ),
    {
        let path = concat2("/20160918/availabilityDomains?compartmentId=", compartment_id);
        let host = concat3("identity.", self.region.as_str(), ".oraclecloud.com");
        self.signed(HttpMethod::Get, host.as_str(), path.as_str(), None)
    }

    /// `GET /20160918/instances?compartmentId={id}` (id percent-encoded).
    pub fn list_instances_request(&self, compartment_id: &str) -> (r: Result<SignedRequest, String>)
        ensures
            r matches Err(m) ==> signing_failed(m@),
            r matches Ok(req) ==> request_for(
                req,
                *self,
                HttpMethod::Get,
                host_spec(self.region_view()),
                "/20160918/instances?compartmentId="@ + url_encoded(compartment_id@),
                None,
            ),
    {
        let enc = url_encode(compartment_id);
        let path = concat2("/20160918/instances?compartmentId=", enc.as_str());
        self.compute_request(HttpMethod::Get, path.as_str(), None)
    }

    /// `GET /20160918/images?compartmentId={id}` with the operating system
    /// and its version as optional, percent-encoded filters.
    pub fn list_images_filtered_request(
        &self,
        compartment_id: &str,
        operating_system: Option<&str>,
        operating_system_version: Option<&str>,
    ) -> (r: Result<SignedRequest, String>)
        ensures
            r matches Err(m) ==> signing_failed(m@),
            r matches Ok(req) ==> request_for(
                req,
                *self,
                HttpMethod::Get,
                host_spec(self.region_view()),
                images_path_spec(
                    compartment_id@,
                    match operating_system {
                        Some(o) => Some(o@),
                        None => None,
                    },
                    match operating_system_version {
                        Some(v) => Some(v@),
                        None => None,
                    },
                ),
                None,
            ),
    {
        let mut path = concat2("/20160918/images?compartmentId=", compartment_id);
        if let Some(os) = operating_system {
            let enc = url_encode(os);
            path.append("&operatingSystem=");
            path.append(enc.as_str());
        }
        if let Some(version) = operating_system_version {
            let enc = url_encode(version);
            path.append("&operatingSystemVersion=");
            path.append(enc.as_str());
        }
        proof {
            let os_part: Seq<char> = match operating_system {
                Some(o) => "&operatingSystem="@ + url_encoded(o@),
                None => Seq::empty(),
            };
            let v_part: Seq<char> = match operating_system_version {
                Some(v) => "&operatingSystemVersion="@ + url_encoded(v@),
                None => Seq::empty(),
            };
            assert(path@ =~= "/20160918/images?compartmentId="@ + compartment_id@ + os_part + v_part);
        }
        self.compute_request(HttpMethod::Get, path.as_str(), None)
    }

    /// `GET /20160918/images?compartmentId={id}` without filters.
    pub fn list_images_request(&self, compartment_id: &str) -> (r: Result<SignedRequest, String>)
        ensures
            r matches Err(m) ==> signing_failed(m@),
            r matches Ok(req) ==> request_for(
                req,
                *self,
                HttpMethod::Get,
                host_spec(self.region_view()),
                images_path_spec(compartment_id@, None, None),
                None,
            ),
    {
        self.list_images_filtered_request(compartment_id, None, None)
    }

    /// `GET /20160918/{collection}?compartmentId={id}` for shapes, VCNs and
    /// subnets (id sent as given).
    fn compartment_list_request(&self, collection: &str, compartment_id: &str) -> (r: Result<
        SignedRequest,
        String,
    >)
        ensures
            r matches Err(m) ==> signing_failed(m@),
            r matches Ok(req) ==> request_for(
                req,
                *self,
                HttpMethod::Get,
                host_spec(self.region_view()),
                "/20160918/"@ + collection@ + "?compartmentId="@ + compartment_id@,
                None,
            ),
    {
        let a = concat3("/20160918/", collection, "?compartmentId=");
        let path = concat2(a.as_str(), compartment_id);
        self.compute_request(HttpMethod::Get, path.as_str(), None)
    }

    /// `GET /20160918/shapes?compartmentId={id}`.
    pub fn list_shapes_request(&self, compartment_id: &str) -> (r: Result<SignedRequest, String>)
        ensures
            r matches Err(m) ==> signing_failed(m@),
            r matches Ok(req) ==> request_for(
                req,
                *self,
                HttpMethod::Get,
                host_spec(self.region_view()),
                "/20160918/"@ + "shapes"@ + "?compartmentId="@ + compartment_id@,
                None,
            ),
    {
        self.compartment_list_request("shapes", compartment_id)
    }

    /// `GET /20160918/vcns?compartmentId={id}`.
    pub fn list_vcns_request(&self, compartment_id: &str) -> (r: Result<SignedRequest, String>)
        ensures
            r matches Err(m) ==> signing_failed(m@),
            r matches Ok(req) ==> request_for(
                req,
                *self,
                HttpMethod::Get,
                host_spec(self.region_view()),
                "/20160918/"@ + "vcns"@ + "?compartmentId="@ + compartment_id@,
                None,
            ),
    {
        self.compartment_list_request("vcns", compartment_id)
    }

    /// `GET /20160918/subnets?compartmentId={id}`.
    pub fn list_subnets_request(&self, compartment_id: &str) -> (r: Result<SignedRequest, String>)
        ensures
            r matches Err(m) ==> signing_failed(m@),
            r matches Ok(req) ==> request_for(
                req,
                *self,
                HttpMethod::Get,
                host_spec(self.region_view()),
                "/20160918/"@ + "subnets"@ + "?compartmentId="@ + compartment_id@,
                None,
            ),
    {
        self.compartment_list_request("subnets", compartment_id)
    }

    /// `GET /20160918/vnicAttachments?compartmentId={c}&instanceId={i}`
    /// (both percent-encoded).
    pub fn list_vnic_attachments_request(&self, compartment_id: &str, instance_id: &str) -> (r:
        Result<SignedRequest, String>)
        ensures
            r matches Err(m) ==> signing_failed(m@),
            r matches Ok(req) ==> request_for(
                req,
                *self,
                HttpMethod::Get,
                host_spec(self.region_view()),
                "/20160918/vnicAttachments?compartmentId="@ + url_encoded(compartment_id@)
                    + "&instanceId="@ + url_encoded(instance_id@),
                None,
            ),
    {
        let c = url_encode(compartment_id);
        let i = url_encode(instance_id);
        let a = concat3("/20160918/vnicAttachments?compartmentId=", c.as_str(), "&instanceId=");
        let path = concat2(a.as_str(), i.as_str());
        self.compute_request(HttpMethod::Get, path.as_str(), None)
    }

    /// `GET /20160918/vnics/{id}`.
    pub fn get_vnic_request(&self, vnic_id: &str) -> (r: Result<SignedRequest, String>)
        ensures
            r matches Err(m) ==> signing_failed(m@),
            r matches Ok(req) ==> request_for(
                req,
                *self,
                HttpMethod::Get,
                host_spec(self.region_view()),
                "/20160918/vnics/"@ + vnic_id@,
                None,
            ),
    {
        let path = concat2("/20160918/vnics/", vnic_id);
        self.compute_request(HttpMethod::Get, path.as_str(), None)
    }

    /// `GET /20160918/privateIps?vnicId={id}` (id percent-encoded).
    pub fn list_private_ips_request(&self, vnic_id: &str) -> (r: Result<SignedRequest, String>)
        ensures
            r matches Err(m) ==> signing_failed(m@),
            r matches Ok(req) ==> request_for(
                req,
                *self,
                HttpMethod::Get,
                host_spec(self.region_view()),
                "/20160918/privateIps?vnicId="@ + url_encoded(vnic_id@),
                None,
            ),
    {
        let enc = url_encode(vnic_id);
        let path = concat2("/20160918/privateIps?vnicId=", enc.as_str());
        self.compute_request(HttpMethod::Get, path.as_str(), None)
    }

    /// `POST /20160918/publicIps/actions/getByIpAddress` with the JSON body
    /// naming the address.
    pub fn get_public_ip_by_ip_address_request(&self, body: Vec<u8>) -> (r: Result<
        SignedRequest,
        String,
    >)
        ensures
            r matches Err(m) ==> signing_failed(m@),
            r matches Ok(req) ==> request_for(
                req,
                *self,
                HttpMethod::Post,
                host_spec(self.region_view()),
                "/20160918/publicIps/actions/getByIpAddress"@,
                Some(body@),
            ),
    {
        self.compute_request(HttpMethod::Post, "/20160918/publicIps/actions/getByIpAddress", Some(body))
    }

    /// `DELETE /20160918/publicIps/{id}`.
    pub fn delete_public_ip_request(&self, public_ip_id: &str) -> (r: Result<SignedRequest, String>)
        ensures
            r matches Err(m) ==> signing_failed(m@),
            r matches Ok(req) ==> request_for(
                req,
                *self,
                HttpMethod::Delete,
                host_spec(self.region_view()),
                "/20160918/publicIps/"@ + public_ip_id@,
                None,
            ),
    {
        let path = concat2("/20160918/publicIps/", public_ip_id);
        self.compute_request(HttpMethod::Delete, path.as_str(), None)
    }

    /// `POST /20160918/publicIps` with the serialized creation details.
    pub fn create_public_ip_request(&self, body: Vec<u8>) -> (r: Result<SignedRequest, String>)
        ensures
            r matches Err(m) ==> signing_failed(m@),
            r matches Ok(req) ==> request_for(
                req,
                *self,
                HttpMethod::Post,
                host_spec(self.region_view()),
                "/20160918/publicIps"@,
                Some(body@),
            ),
    {
        self.compute_request(HttpMethod::Post, "/20160918/publicIps", Some(body))
    }
}

/// The image listing path: the compartment as given, then the optional
/// percent-encoded operating system and version filters.
pub open spec fn images_path_spec(
    compartment_id: Seq<char>,
    os: Option<Seq<char>>,
    version: Option<Seq<char>>,
) -> Seq<char> {
    "/20160918/images?compartmentId="@ + compartment_id + (match os {
        Some(o) => "&operatingSystem="@ + url_encoded(o),
        None => Seq::empty(),
    }) + (match version {
        Some(v) => "&operatingSystemVersion="@ + url_encoded(v),
        None => Seq::empty(),
    })
}

} // verus!
