//! Containers with object stores, for tests, and the control plane of the one
//! that stands in for Google Cloud Storage.

use vstd::prelude::*;
use vstd::string::*;

use super::ObjectStoreError;
use crate::ingestion::testing::{local_endpoint, local_endpoint_text};
use crate::text::{after_last, last_piece};

verus! {

/// The port that MinIO listens on.
pub const MINIO_PORT: u16 = 9000;

/// The port that Azurite serves blobs on.
pub const AZURITE_PORT: u16 = 10000;

/// The port that the fake GCS server listens on.
pub const FAKE_GCS_PORT: u16 = 4443;

/// The container image of MinIO, which is S3-compatible.
#[derive(Clone, Copy, Debug, PartialEq, Eq, Structural)]
pub struct MinIO;

impl MinIO {
    pub fn name(&self) -> (r: &'static str)
        ensures
            r@ == "quay.io/minio/minio"@,
    {
        "quay.io/minio/minio"
    }

    pub fn tag(&self) -> (r: &'static str)
        ensures
            r@ == "RELEASE.2025-09-07T16-13-09Z"@,
    {
        "RELEASE.2025-09-07T16-13-09Z"
    }

    pub fn cmd(&self) -> (r: Vec<&'static str>)
        ensures
            r@.len() == 2,
            r@[0]@ == "server"@,
            r@[1]@ == "/data"@,
    {
        let mut cmd: Vec<&'static str> = Vec::new();
        cmd.push("server");
        cmd.push("/data");
        cmd
    }
}

/// The container image of Azurite, which stands in for Azure.
#[derive(Clone, Copy, Debug, PartialEq, Eq, Structural)]
pub struct Azurite;

impl Azurite {
    pub fn name(&self) -> (r: &'static str)
        ensures
            r@ == "mcr.microsoft.com/azure-storage/azurite"@,
    {
        "mcr.microsoft.com/azure-storage/azurite"
    }

    pub fn tag(&self) -> (r: &'static str)
        ensures
            r@ == "latest"@,
    {
        "latest"
    }

    pub fn cmd(&self) -> (r: Vec<&'static str>)
        ensures
            r@.len() == 5,
            r@[0]@ == "azurite-blob"@,
            r@[1]@ == "--blobHost"@,
            r@[2]@ == "0.0.0.0"@,
            r@[3]@ == "--blobPort"@,
            r@[4]@ == "10000"@,
    {
        let mut cmd: Vec<&'static str> = Vec::new();
        cmd.push("azurite-blob");
        cmd.push("--blobHost");
        cmd.push("0.0.0.0");
        cmd.push("--blobPort");
        cmd.push("10000");
        cmd
    }
}

/// The container image of the fake GCS server.
#[derive(Clone, Copy, Debug, PartialEq, Eq, Structural)]
pub struct FakeGcsServer;

impl FakeGcsServer {
    pub fn name(&self) -> (r: &'static str)
        ensures
            r@ == "fsouza/fake-gcs-server"@,
    {
        "fsouza/fake-gcs-server"
    }

    pub fn tag(&self) -> (r: &'static str)
        ensures
            r@ == "latest"@,
    {
        "latest"
    }

    pub fn cmd(&self) -> (r: Vec<&'static str>)
        ensures
            r@.len() == 4,
            r@[0]@ == "-scheme"@,
            r@[1]@ == "http"@,
            r@[2]@ == "-port"@,
            r@[3]@ == "4443"@,
    {
        let mut cmd: Vec<&'static str> = Vec::new();
        cmd.push("-scheme");
        cmd.push("http");
        cmd.push("-port");
        cmd.push("4443");
        cmd
    }

    pub fn expose_ports(&self) -> (r: Vec<u16>)
        ensures
            r@ == seq![FAKE_GCS_PORT],
    {
        let mut ports: Vec<u16> = Vec::new();
        ports.push(FAKE_GCS_PORT);
        assert(ports@ =~= seq![FAKE_GCS_PORT]);
        ports
    }
}

pub fn minio_container() -> (r: MinIO)
    ensures
        r == MinIO,
{
    MinIO
}

pub fn azurite_container() -> (r: Azurite)
    ensures
        r == Azurite,
{
    Azurite
}

pub fn fake_gcs_server_container() -> (r: FakeGcsServer)
    ensures
        r == FakeGcsServer,
{
    FakeGcsServer
}

/// How a test reaches an S3-compatible store.
#[derive(Debug, PartialEq, Eq)]
pub struct S3Config {
    pub endpoint_url: String,
    /// The region where the environment gives none.
    pub fallback_region: &'static str,
    pub access_key: &'static str,
    pub secret_key: &'static str,
    pub provider_name: &'static str,
    pub force_path_style: bool,
}

/// How a test reaches a MinIO container at a local port.
pub fn s3_config_at_port(port: u16) -> (r: S3Config)
    ensures
        r.endpoint_url@ == local_endpoint_text(port),
        r.fallback_region@ == "us-east-1"@,
        r.access_key@ == "minioadmin"@,
        r.secret_key@ == "minioadmin"@,
        r.provider_name@ == "test"@,
        r.force_path_style,
{
    S3Config {
        endpoint_url: local_endpoint(port),
        fallback_region: "us-east-1",
        access_key: "minioadmin",
        secret_key: "minioadmin",
        provider_name: "test",
        force_path_style: true,
    }
}

/// An HTTP method of the control plane.
#[derive(Clone, Copy, Debug, PartialEq, Eq, Structural)]
pub enum Method {
    Get,
    Post,
    Delete,
}

/// A request of the control plane. A body is JSON.
#[derive(Debug, PartialEq, Eq)]
pub struct ControlRequest {
    pub method: Method,
    pub url: String,
    pub content_type: Option<&'static str>,
    pub body: Option<String>,
}

/// A failed request of the control plane, as an HTTP status and body.
#[derive(Debug, PartialEq, Eq)]
pub struct ControlError {
    pub status: u16,
    pub body: Vec<u8>,
}

/// A bucket.
#[derive(Debug, PartialEq, Eq)]
pub struct Bucket {
    pub name: String,
    pub bucket_id: String,
}

/// The status that a request fails with when no answer comes back.
pub const INTERNAL_ERROR: u16 = 500;

/// The type of a JSON body.
pub const JSON_CONTENT_TYPE: &'static str = "application/json";

/// The longest URL that can be handled, in bytes.
pub const URL_LIMIT: u64 = 0xffff_ffff;

/// The texts of a path.
pub open spec fn texts(path: Seq<String>) -> Seq<Seq<char>> {
    path.map_values(|segment: String| segment@)
}

/// The bytes of a path, with one more for each segment.
pub open spec fn path_bytes(path: Seq<Seq<char>>) -> nat
    decreases path.len(),
{
    if path.len() == 0 {
        0
    } else {
        path_bytes(path.drop_last()) + vstd::utf8::encode_utf8(path.last()).len() + 1
    }
}

/// Whether the URL of a path on an endpoint is sure to be short enough,
/// however much of it is escaped: normalizing an endpoint makes no byte of it
/// into more than 128, and no byte of a segment becomes more than four.
pub open spec fn fits_a_url(endpoint: Seq<char>, path: Seq<Seq<char>>) -> bool {
    128 * vstd::utf8::encode_utf8(endpoint).len() + 4 * path_bytes(path) <= URL_LIMIT
}

/// The URL of a path on an endpoint, in place of whatever path the endpoint
/// has. An endpoint that is no URL gives the message why, and one that cannot
/// have a path gives no message.
pub uninterp spec fn url_at(endpoint: Seq<char>, path: Seq<Seq<char>>) -> Result<
    Seq<char>,
    Option<Seq<char>>,
>;

/// Replaces the path of an endpoint with `reqwest::Url`: `parse`, then `clear`
/// and `extend` on its `path_segments_mut`, then `as_str`. The result depends
/// on the endpoint and the segments alone; which endpoints are URLs, and how a
/// segment is escaped, is left to `reqwest`. Positions in a URL are held as
/// `u32`, and a longer URL than that allows makes it panic.
#[verifier::external_body]
fn set_path(endpoint: &str, path: &Vec<String>) -> (r: Result<String, Option<String>>)
    requires
        fits_a_url(endpoint@, texts(path@)),
    ensures
        match r {
            Ok(url) => url_at(endpoint@, texts(path@)) == Ok::<Seq<char>, Option<Seq<char>>>(url@),
            Err(Some(e)) => url_at(endpoint@, texts(path@)) == Err::<Seq<char>, Option<Seq<char>>>(
                Some(e@),
            ),
            Err(None) => url_at(endpoint@, texts(path@)) == Err::<Seq<char>, Option<Seq<char>>>(
                None,
            ),
        },
{
    let mut url = reqwest::Url::parse(endpoint).map_err(|e| Some(e.to_string()))?;
    url.path_segments_mut().map_err(|_| None)?.clear().extend(path);
    Ok(url.as_str().to_owned())
}

/// A path has at least the bytes of its first segments.
proof fn lemma_path_bytes_monotonic(path: Seq<Seq<char>>, i: int)
    requires
        0 <= i <= path.len(),
    ensures
        path_bytes(path.take(i)) <= path_bytes(path),
    decreases path.len() - i,
{
    if i < path.len() {
        lemma_path_bytes_monotonic(path, i + 1);
        assert(path.take(i + 1).drop_last() =~= path.take(i));
    } else {
        assert(path.take(i) =~= path);
    }
}

/// The segments of the buckets.
pub open spec fn buckets_segments() -> Seq<Seq<char>> {
    seq!["storage"@, "v1"@, "b"@]
}

/// The segments of a bucket, which is named by a resource name.
pub open spec fn bucket_segments(name: Seq<char>) -> Seq<Seq<char>> {
    buckets_segments().push(last_piece(name, '/'))
}

/// The segments of an object of a bucket.
pub open spec fn object_segments(bucket: Seq<char>, object: Seq<char>) -> Seq<Seq<char>> {
    bucket_segments(bucket).push("o"@).push(object)
}

/// The path of the buckets.
pub fn buckets_path() -> (r: Vec<String>)
    ensures
        texts(r@) == buckets_segments(),
{
    let mut path: Vec<String> = Vec::new();
    path.push("storage".to_owned());
    path.push("v1".to_owned());
    path.push("b".to_owned());
    assert(texts(path@) =~= buckets_segments());
    path
}

/// The path of a bucket, which is named by a resource name.
pub fn bucket_path(name: &str) -> (r: Vec<String>)
    ensures
        texts(r@) == bucket_segments(name@),
{
    let mut path: Vec<String> = buckets_path();
    add_segment(&mut path, after_last(name, '/').as_str());
    path
}

/// The path of an object of a bucket.
pub fn object_path(bucket: &str, object: &str) -> (r: Vec<String>)
    ensures
        texts(r@) == object_segments(bucket@, object@),
{
    let mut path: Vec<String> = bucket_path(bucket);
    add_segment(&mut path, "o");
    add_segment(&mut path, object);
    path
}

/// Adds a segment to a path.
fn add_segment(path: &mut Vec<String>, segment: &str)
    ensures
        texts(final(path)@) == texts(old(path)@).push(segment@),
{
    let ghost before = path@;
    path.push(segment.to_owned());
    assert(texts(path@) =~= texts(before).push(segment@));
}

/// The control plane of the fake GCS server.
#[derive(Debug)]
pub struct FakeGcsControl {
    pub endpoint: String,
}

impl FakeGcsControl {
    /// Whether this is the request for a path, or the failure to make one.
    pub open spec fn sends(
        self,
        method: Method,
        path: Seq<Seq<char>>,
        body: Option<Seq<char>>,
        r: Result<ControlRequest, ControlError>,
    ) -> bool {
        match url_at(self.endpoint@, path) {
            Ok(url) => r matches Ok(request) && request.method == method && request.url@ == url
                && crate::text::text_of(request.body) == body && (match request.content_type {
                Some(content_type) => body is Some && content_type@ == JSON_CONTENT_TYPE@,
                None => body is None,
            }),
            Err(Some(message)) => r matches Err(e) && e.status == INTERNAL_ERROR && e.body@
                == vstd::utf8::encode_utf8(message),
            Err(None) => r matches Err(e) && e.status == INTERNAL_ERROR && e.body@.len() == 0,
        }
    }

    /// Whether the URL of a path is sure to be short enough.
    pub fn fits(&self, path: &Vec<String>) -> (r: bool)
        ensures
            r == fits_a_url(self.endpoint@, texts(path@)),
    {
        let ghost all = texts(path@);
        let n: usize = self.endpoint.as_str().as_bytes().len();
        if n > 0x200_0000 {
            return false;
        }
        let mut total: u64 = 128 * n as u64;
        if total > URL_LIMIT {
            return false;
        }
        let mut i: usize = 0;
        while i < path.len()
            invariant
                i <= path.len(),
                all == texts(path@),
                n == vstd::utf8::encode_utf8(self.endpoint@).len(),
                total == 128 * n + 4 * path_bytes(all.take(i as int)),
                total <= URL_LIMIT,
            decreases path.len() - i,
        {
            let m: usize = path[i].as_str().as_bytes().len();
            proof {
                assert(all.take(i + 1).drop_last() =~= all.take(i as int));
                assert(all.take(i + 1).last() == path@[i as int]@);
                lemma_path_bytes_monotonic(all, i + 1);
            }
            if m >= 0x4000_0000 {
                return false;
            }
            total = total + 4 * (m as u64 + 1);
            if total > URL_LIMIT {
                return false;
            }
            i += 1;
        }
        assert(all.take(all.len() as int) =~= all);
        true
    }

    /// The request for a path of the control plane.
    pub fn send(&self, method: Method, path: &Vec<String>, body: Option<String>) -> (r: Result<
        ControlRequest,
        ControlError,
    >)
        requires
            fits_a_url(self.endpoint@, texts(path@)),
        ensures
            self.sends(method, texts(path@), crate::text::text_of(body), r),
    {
        let url: Result<String, Option<String>> = set_path(self.endpoint.as_str(), path);
        self.send_to(method, url, body)
    }

    /// The request for a URL, or the failure to make one.
    pub fn send_to(
        &self,
        method: Method,
        url: Result<String, Option<String>>,
        body: Option<String>,
    ) -> (r: Result<ControlRequest, ControlError>)
        ensures
            match url {
                Ok(url) => r matches Ok(request) && request.method == method && request.url == url
                    && request.body == body && (match request.content_type {
                    Some(content_type) => body is Some && content_type@ == JSON_CONTENT_TYPE@,
                    None => body is None,
                }),
                Err(Some(message)) => r matches Err(e) && e.status == INTERNAL_ERROR && e.body@
                    == vstd::utf8::encode_utf8(message@),
                Err(None) => r matches Err(e) && e.status == INTERNAL_ERROR && e.body@.len() == 0,
            },
    {
        match url {
            Ok(url) => {
                let content_type: Option<&'static str> = match &body {
                    Some(_) => Some(JSON_CONTENT_TYPE),
                    None => None,
                };
                Ok(ControlRequest { method, url, content_type, body })
            },
            Err(Some(message)) => Err(
                ControlError { status: INTERNAL_ERROR, body: message.as_str().as_bytes_vec() },
            ),
            Err(None) => Err(ControlError { status: INTERNAL_ERROR, body: Vec::new() }),
        }
    }

    /// What came of a request: its status and body, or the message why there is
    /// no answer. A success has a status from 200 to 299.
    pub fn sent(&self, answer: Result<(u16, Vec<u8>), String>) -> (r: Result<(), ControlError>)
        ensures
            match answer {
                Ok(response) => if 200 <= response.0 <= 299 {
                    r is Ok
                } else {
                    r matches Err(e) && e.status == response.0 && e.body == response.1
                },
                Err(message) => r matches Err(e) && e.status == INTERNAL_ERROR && e.body@
                    == vstd::utf8::encode_utf8(message@),
            },
    {
        match answer {
            Ok((status, body)) => if 200 <= status && status <= 299 {
                Ok(())
            } else {
                Err(ControlError { status, body })
            },
            Err(message) => Err(
                ControlError { status: INTERNAL_ERROR, body: message.as_str().as_bytes_vec() },
            ),
        }
    }

    /// The request for a bucket, which is named by a resource name, and the
    /// bucket that a success stands for.
    pub fn get_bucket(&self, name: String) -> (r: (Result<ControlRequest, ControlError>, Bucket))
        requires
            fits_a_url(self.endpoint@, bucket_segments(name@)),
        ensures
            self.sends(Method::Get, bucket_segments(name@), None, r.0),
            r.1.name == name,
            r.1.bucket_id@ == last_piece(name@, '/'),
    {
        let path: Vec<String> = bucket_path(name.as_str());
        let request: Result<ControlRequest, ControlError> = self.send(Method::Get, &path, None);
        let bucket_id: String = after_last(name.as_str(), '/');
        (request, Bucket { name, bucket_id })
    }

    /// The request that creates a bucket, and the bucket that a success stands
    /// for. The id is put into the body as it is.
    pub fn create_bucket(&self, bucket_id: String) -> (r: (
        Result<ControlRequest, ControlError>,
        Bucket,
    ))
        requires
            fits_a_url(self.endpoint@, buckets_segments()),
        ensures
            self.sends(
                Method::Post,
                buckets_segments(),
                Some("{\"name\":\""@ + bucket_id@ + "\"}"@),
                r.0,
            ),
            r.1.name@ == Seq::<char>::empty(),
            r.1.bucket_id == bucket_id,
    {
        let mut body: String = "{\"name\":\"".to_owned();
        body.append(bucket_id.as_str());
        body.append("\"}");
        let path: Vec<String> = buckets_path();
        let request: Result<ControlRequest, ControlError> = self.send(
            Method::Post,
            &path,
            Some(body),
        );
        (request, Bucket { name: String::new(), bucket_id })
    }

    /// The request that deletes an object of a bucket.
    pub fn delete_object(&self, bucket: &str, object: &str) -> (r: Result<
        ControlRequest,
        ControlError,
    >)
        requires
            fits_a_url(self.endpoint@, object_segments(bucket@, object@)),
        ensures
            self.sends(Method::Delete, object_segments(bucket@, object@), None, r),
    {
        let path: Vec<String> = object_path(bucket, object);
        self.send(Method::Delete, &path, None)
    }
}

/// How the client of the fake GCS server is set up.
#[derive(Debug)]
pub struct FakeGcsSetup {
    pub control: FakeGcsControl,
    pub project: &'static str,
}

/// Sets up the client of a fake GCS server at a local port, once it is known
/// whether its storage client could be built.
pub fn gcs_client(port: u16, storage_built: bool) -> (r: Result<FakeGcsSetup, ObjectStoreError>)
    ensures
        storage_built ==> (r matches Ok(setup) && setup.control.endpoint@ == local_endpoint_text(
            port,
        ) && setup.project@ == "test-project"@),
        !storage_built ==> r == Err::<FakeGcsSetup, ObjectStoreError>(
            ObjectStoreError::Configuration,
        ),
{
    if !storage_built {
        return Err(ObjectStoreError::Configuration);
    }
    Ok(
        FakeGcsSetup {
            control: FakeGcsControl { endpoint: local_endpoint(port) },
            project: "test-project",
        },
    )
}

/// Law: the buckets, a bucket and an object have these paths. A bucket is named
/// by what stands behind the last slash of its resource name, and an object by
/// its whole name, slashes and all.
pub proof fn resources_have_their_paths(name: Seq<char>, object: Seq<char>)
    ensures
        buckets_segments() == seq!["storage"@, "v1"@, "b"@],
        bucket_segments(name) == seq!["storage"@, "v1"@, "b"@, last_piece(name, '/')],
        object_segments(name, object) == seq![
            "storage"@,
            "v1"@,
            "b"@,
            last_piece(name, '/'),
            "o"@,
            object,
        ],
{
    assert(bucket_segments(name) =~= seq!["storage"@, "v1"@, "b"@, last_piece(name, '/')]);
    assert(object_segments(name, object) =~= seq![
        "storage"@,
        "v1"@,
        "b"@,
        last_piece(name, '/'),
        "o"@,
        object,
    ]);
}

/// Law: a request goes to the URL of its path with its method and body, and says
/// that a body is JSON. It can only not be made where there is no such URL, and
/// that is a failure of the server.
pub proof fn requests_carry_what_they_were_made_of(
    control: FakeGcsControl,
    method: Method,
    path: Seq<Seq<char>>,
    body: Option<Seq<char>>,
    r: Result<ControlRequest, ControlError>,
)
    requires
        control.sends(method, path, body, r),
    ensures
        r is Ok <==> url_at(control.endpoint@, path) is Ok,
        r matches Ok(request) ==> {
            &&& request.method == method
            &&& url_at(control.endpoint@, path) == Ok::<Seq<char>, Option<Seq<char>>>(request.url@)
            &&& body is Some <==> request.body is Some
            &&& request.body matches Some(text) ==> body == Some(text@)
            &&& body is Some <==> request.content_type is Some
            &&& request.content_type matches Some(content_type) ==> content_type@
                == "application/json"@
        },
        r matches Err(e) ==> e.status == 500,
        r matches Err(e) ==> match url_at(control.endpoint@, path)->Err_0 {
            Some(message) => e.body@ == vstd::utf8::encode_utf8(message),
            None => e.body@.len() == 0,
        },
{
}

/// Law: the bound on the length of a URL weighs each byte of the endpoint with
/// 128, and each byte of a segment, and one more for the segment, with four.
pub proof fn bound_weighs_every_byte(
    endpoint: Seq<char>,
    path: Seq<Seq<char>>,
    segment: Seq<char>,
    strings: Seq<String>,
    i: int,
)
    ensures
        path_bytes(Seq::<Seq<char>>::empty()) == 0,
        path_bytes(path.push(segment)) == path_bytes(path) + vstd::utf8::encode_utf8(segment).len()
            + 1,
        fits_a_url(endpoint, path) <==> 128 * vstd::utf8::encode_utf8(endpoint).len() + 4
            * path_bytes(path) <= 0xffff_ffff,
        texts(strings).len() == strings.len(),
        0 <= i < strings.len() ==> texts(strings)[i] == strings[i]@,
{
    assert(path.push(segment).drop_last() =~= path);
}

}
