//! Storing objects and reading them back.

use starkstream_dna::object_store::codec::{seal, unseal};
use starkstream_dna::object_store::testing::{
    azurite_container, bucket_path, buckets_path, fake_gcs_server_container, gcs_client,
    minio_container, object_path, s3_config_at_port, Bucket, ControlError, ControlRequest, FakeGcsControl, Method,
};
use starkstream_dna::object_store::{
    normalize_prefix, AwsS3Client, AzureBlobClient, BucketAction, DeleteOptions, DeleteResult,
    GcsClient, GetOptions, GetResult, ListOptions, ListResult, ObjectStore, ObjectStoreClient,
    ObjectStoreError, ObjectStoreOptions, ObjectVersion, PutMode, PutOptions, PutRequest,
    PutResult,
};

fn store(prefix: Option<&str>) -> ObjectStore {
    ObjectStore::new(
        ObjectStoreClient::AwsS3(AwsS3Client),
        ObjectStoreOptions {
            bucket: "test".to_string(),
            prefix: prefix.map(str::to_string),
        },
    )
}

fn version() -> ObjectVersion {
    "123456789".to_string().into()
}

fn put(store: &ObjectStore, body: &[u8]) -> PutRequest {
    store.put("test", &body.to_vec(), PutOptions::default()).unwrap()
}

#[test]
fn prefix_ends_with_a_slash() {
    assert_eq!(normalize_prefix(None), "");
    assert_eq!(normalize_prefix(Some(String::new())), "");
    assert_eq!(normalize_prefix(Some("my-prefix".to_string())), "my-prefix/");
    assert_eq!(normalize_prefix(Some("my-prefix/".to_string())), "my-prefix/");
    assert_eq!(normalize_prefix(Some("/".to_string())), "/");
}

#[test]
fn store_is_opened_on_a_client() {
    let options = || ObjectStoreOptions {
        bucket: "b".to_string(),
        prefix: Some("p".to_string()),
    };
    let s3 = ObjectStore::new_s3(AwsS3Client, options());
    let azure = ObjectStore::new_azure_blob(AzureBlobClient, options());
    let gcs = ObjectStore::new_gcs(GcsClient, options());
    assert_eq!(s3.client, ObjectStoreClient::AwsS3(AwsS3Client));
    assert_eq!(azure.client, ObjectStoreClient::AzureBlob(AzureBlobClient));
    assert_eq!(gcs.client, ObjectStoreClient::Gcs(GcsClient));
    for store in [s3, azure, gcs] {
        assert_eq!(store.bucket, "b");
        assert_eq!(store.full_key("x"), "p/x");
        assert_eq!(store.clone().full_key("x"), "p/x");
    }
    let default = ObjectStoreOptions::default();
    assert_eq!(default.bucket, "");
    assert_eq!(default.clone().prefix, None);
}

#[test]
fn object_is_read_back() {
    for body in [&b""[..], b"H", b"Hello, World", &[0u8; 100_000]] {
        let store = store(None);
        let request = put(&store, body);
        assert_eq!(request.bucket, "test");
        assert_eq!(request.key, "test");
        assert_eq!(request.options, PutOptions { mode: PutMode::Overwrite });
        assert_ne!(request.body, body);
        let result = store.get(Ok((version(), request.body))).unwrap();
        assert_eq!(result, GetResult { body: body.to_vec(), version: version() });
    }
}

#[test]
fn stored_object_is_compressed() {
    let request = put(&store(None), &[7u8; 100_000]);
    assert!(request.body.len() < 1_000);
    assert_eq!(request.body[..4], [0x28, 0xb5, 0x2f, 0xfd]);
}

#[test]
fn prefix_keeps_objects_apart() {
    let with = store(Some("my-prefix"));
    let without = store(None);
    assert_eq!(put(&with, b"With my-prefix").key, "my-prefix/test");
    assert_eq!(put(&without, b"Without prefix").key, "test");
    let request = with.get_request("test", GetOptions { version: Some(version()) });
    assert_eq!(request.bucket, "test");
    assert_eq!(request.key, "my-prefix/test");
    assert_eq!(request.options.version, Some(version()));
}

#[test]
fn checksum_stands_behind_the_data() {
    let sealed = seal(&b"123456789".to_vec());
    assert_eq!(sealed[..9], *b"123456789");
    assert_eq!(sealed[9..], [0xcb, 0xf4, 0x39, 0x26]);
    assert_eq!(unseal(&sealed), Ok(b"123456789".to_vec()));
    assert_eq!(seal(&vec![]), [0, 0, 0, 0]);
    assert_eq!(unseal(&vec![0, 0, 0, 0]), Ok(vec![]));
    assert_eq!(unseal(&vec![0, 0, 0, 1]), Err(ObjectStoreError::ChecksumMismatch));
    for i in 0..sealed.len() {
        let mut broken = sealed.clone();
        broken[i] ^= 0x10;
        assert_eq!(unseal(&broken), Err(ObjectStoreError::ChecksumMismatch));
    }
}

/// The checksum bit by bit.
fn crc32(data: &[u8]) -> u32 {
    let mut remainder = u32::MAX;
    for byte in data {
        remainder ^= u32::from(*byte);
        for _ in 0..8 {
            let carry = remainder & 1 == 1;
            remainder >>= 1;
            if carry {
                remainder ^= 0xedb8_8320;
            }
        }
    }
    !remainder
}

#[test]
fn checksum_is_the_standard_one() {
    assert_eq!(crc32(b"123456789"), 0xcbf4_3926);
    let data: Vec<u8> = (0..3000u32).map(|i| (i * 7 + i / 256) as u8).collect();
    for n in [0, 1, 2, 7, 15, 16, 17, 63, 64, 65, 127, 128, 1000, 3000] {
        let sealed = seal(&data[..n].to_vec());
        assert_eq!(sealed[..n], data[..n]);
        assert_eq!(sealed[n..], crc32(&data[..n]).to_be_bytes());
    }
}

#[test]
fn stored_object_is_compressed_at_the_default_level() {
    let body = b"Hello, World".repeat(100);
    let request = put(&store(None), &body);
    let mut expected = Vec::new();
    zstd::stream::copy_encode(seal(&body).as_slice(), &mut expected, 0).unwrap();
    assert_eq!(request.body, expected);
}

fn compressed(bytes: &[u8]) -> Vec<u8> {
    let mut out = Vec::new();
    zstd::stream::copy_encode(bytes, &mut out, 3).unwrap();
    out
}

#[test]
fn corrupt_objects_are_refused() {
    let store = store(None);
    assert_eq!(
        store.get(Ok((version(), compressed(b"no checksum here")))),
        Err(ObjectStoreError::ChecksumMismatch)
    );
    assert_eq!(
        store.get(Ok((version(), b"not compressed".to_vec()))),
        Err(ObjectStoreError::Request)
    );
    assert_eq!(
        store.get(Err(ObjectStoreError::NotFound)),
        Err(ObjectStoreError::NotFound)
    );
}

#[test]
fn short_objects_are_told_apart() {
    let store = store(None);
    for short in [&b""[..], b"1", b"12", b"123"] {
        assert_eq!(store.get_checked(Ok((version(), compressed(short)))), None);
    }
    assert_eq!(
        store.get_checked(Ok((version(), compressed(&[0, 0, 0, 0])))),
        Some(Ok(GetResult { body: vec![], version: version() }))
    );
    assert_eq!(
        store.get_checked(Ok((version(), b"not compressed".to_vec()))),
        Some(Err(ObjectStoreError::Request))
    );
    assert_eq!(
        store.get_checked(Err(ObjectStoreError::Precondition)),
        Some(Err(ObjectStoreError::Precondition))
    );
    let request = put(&store, b"Hello, World");
    assert_eq!(
        store.get_checked(Ok((version(), request.body))),
        Some(Ok(GetResult { body: b"Hello, World".to_vec(), version: version() }))
    );
}

#[test]
fn put_hands_its_options_on() {
    let store = store(None);
    for mode in [PutMode::Overwrite, PutMode::Create, PutMode::Update(version())] {
        let options = PutOptions { mode: mode.clone() };
        let request = store.put("test", &b"x".to_vec(), options.clone()).unwrap();
        assert_eq!(request.options.mode, mode);
        assert_eq!(
            store.put_compressed("a/b", Some(vec![1, 2]), options.clone()),
            Ok(PutRequest {
                bucket: "test".to_string(),
                key: "a/b".to_string(),
                body: vec![1, 2],
                options,
            })
        );
    }
    assert_eq!(
        store.put_compressed("a", None, PutOptions::default()),
        Err(ObjectStoreError::Request)
    );
    assert_eq!(store.put_answer(Ok(version())), Ok(PutResult { version: version() }));
    assert_eq!(
        store.put_answer(Err(ObjectStoreError::Precondition)),
        Err(ObjectStoreError::Precondition)
    );
}

#[test]
fn delete_takes_paths_and_keys() {
    let store = store(Some("p"));
    let by_path = store.delete("x", DeleteOptions::default());
    assert_eq!((by_path.bucket.as_str(), by_path.key.as_str()), ("test", "p/x"));
    let by_key = store.delete("p/x", DeleteOptions { fullpath: Some(true) });
    assert_eq!(by_key.key, by_path.key);
    let neither = store.delete("x", DeleteOptions { fullpath: Some(false) });
    assert_eq!(neither.key, by_path.key);
    assert_eq!(neither.options.fullpath, Some(false));
    assert_eq!(store.delete_answer(Ok(())), Ok(DeleteResult));
    assert_eq!(
        store.delete_answer(Err(ObjectStoreError::Metadata)),
        Err(ObjectStoreError::Metadata)
    );
}

#[test]
fn list_asks_for_a_prefix() {
    let store = store(Some("p"));
    let request = store.list("canon/", ListOptions::default());
    assert_eq!((request.bucket.as_str(), request.prefix.as_str()), ("test", "p/canon/"));
    let ids = vec!["p/canon/a".to_string(), "p/canon/b".to_string()];
    assert_eq!(store.list_answer(Ok(ids.clone())), Ok(ListResult { object_ids: ids }));
    assert_eq!(
        store.list_answer(Err(ObjectStoreError::Request)),
        Err(ObjectStoreError::Request)
    );
}

#[test]
fn listing_covers_the_prefix() {
    for store in [store(None), store(Some("p"))] {
        let listed = store.list("canon/", ListOptions::default()).prefix;
        assert!(store.full_key("canon/recent").starts_with(&listed));
        assert!(!store.full_key("can").starts_with(&listed));
        assert!(!store.full_key("other/canon/").starts_with(&listed));
    }
}

#[test]
fn missing_bucket_is_created() {
    let store = store(None);
    assert_eq!(store.ensure_bucket(Ok(true)), BucketAction::Finish(Ok(())));
    assert_eq!(
        store.ensure_bucket(Ok(false)),
        BucketAction::Create { bucket: "test".to_string() }
    );
    assert_eq!(
        store.ensure_bucket(Err(ObjectStoreError::Request)),
        BucketAction::Finish(Err(ObjectStoreError::Request))
    );
}

#[test]
fn containers_are_described() {
    let minio = minio_container();
    assert_eq!(minio.name(), "quay.io/minio/minio");
    assert_eq!(minio.tag(), "RELEASE.2025-09-07T16-13-09Z");
    assert_eq!(minio.cmd(), ["server", "/data"]);
    let azurite = azurite_container();
    assert_eq!(azurite.name(), "mcr.microsoft.com/azure-storage/azurite");
    assert_eq!(azurite.tag(), "latest");
    assert_eq!(azurite.cmd(), ["azurite-blob", "--blobHost", "0.0.0.0", "--blobPort", "10000"]);
    let gcs = fake_gcs_server_container();
    assert_eq!(gcs.name(), "fsouza/fake-gcs-server");
    assert_eq!(gcs.tag(), "latest");
    assert_eq!(gcs.cmd(), ["-scheme", "http", "-port", "4443"]);
    assert_eq!(gcs.expose_ports(), [4443]);
    let config = s3_config_at_port(9000);
    assert_eq!(config.endpoint_url, "http://localhost:9000");
    assert_eq!(config.fallback_region, "us-east-1");
    assert_eq!(config.access_key, "minioadmin");
    assert_eq!(config.secret_key, "minioadmin");
    assert_eq!(config.provider_name, "test");
    assert!(config.force_path_style);
}

fn control(endpoint: &str) -> FakeGcsControl {
    FakeGcsControl { endpoint: endpoint.to_string() }
}

fn request(method: Method, url: &str, body: Option<&str>) -> ControlRequest {
    ControlRequest {
        method,
        url: url.to_string(),
        content_type: body.map(|_| "application/json"),
        body: body.map(str::to_string),
    }
}

#[test]
fn control_plane_asks_for_buckets_and_objects() {
    let control = control("http://localhost:4443");
    let (sent, bucket) = control.get_bucket("projects/_/buckets/test".to_string());
    assert_eq!(
        sent,
        Ok(request(Method::Get, "http://localhost:4443/storage/v1/b/test", None))
    );
    assert_eq!(
        bucket,
        Bucket { name: "projects/_/buckets/test".to_string(), bucket_id: "test".to_string() }
    );
    assert_eq!(control.get_bucket("plain".to_string()).1.bucket_id, "plain");
    assert_eq!(control.get_bucket("ends/".to_string()).1.bucket_id, "");

    let (sent, bucket) = control.create_bucket("test".to_string());
    assert_eq!(
        sent,
        Ok(request(
            Method::Post,
            "http://localhost:4443/storage/v1/b",
            Some("{\"name\":\"test\"}")
        ))
    );
    assert_eq!(bucket, Bucket { name: String::new(), bucket_id: "test".to_string() });

    assert_eq!(
        control.delete_object("projects/_/buckets/test", "a/b c"),
        Ok(request(
            Method::Delete,
            "http://localhost:4443/storage/v1/b/test/o/a%2Fb%20c",
            None
        ))
    );
}

#[test]
fn path_of_the_endpoint_is_replaced() {
    let control = control("http://localhost:4443/some/path?query=1");
    assert_eq!(
        control.send(Method::Get, &vec!["x".to_string(), "..".to_string()], None),
        Ok(request(Method::Get, "http://localhost:4443/x?query=1", None))
    );
    assert_eq!(
        control.send(Method::Get, &vec![], None),
        Ok(request(Method::Get, "http://localhost:4443/?query=1", None))
    );
}

#[test]
fn long_urls_do_not_fit() {
    let control = control("http://localhost:4443");
    assert!(control.fits(&buckets_path()));
    assert!(control.fits(&bucket_path("projects/_/buckets/test")));
    assert!(control.fits(&object_path("projects/_/buckets/test", "a/b c")));
    let mut endpoint = "http://".to_string();
    endpoint.push_str(&"x".repeat(33_554_424));
    let control = FakeGcsControl { endpoint };
    assert!(control.fits(&vec![]));
    assert!(control.fits(&vec!["x".repeat(30)]));
    assert!(!control.fits(&vec!["x".repeat(31)]));
    assert!(control.fits(&vec![String::new(); 31]));
    assert!(!control.fits(&vec![String::new(); 32]));
    let mut endpoint = control.endpoint;
    endpoint.push('x');
    assert!(!FakeGcsControl { endpoint }.fits(&vec![]));
}

#[test]
fn paths_name_their_resource() {
    assert_eq!(buckets_path(), ["storage", "v1", "b"]);
    assert_eq!(bucket_path("projects/_/buckets/test"), ["storage", "v1", "b", "test"]);
    assert_eq!(object_path("b", "o/1"), ["storage", "v1", "b", "b", "o", "o/1"]);
}

#[test]
fn unusable_endpoints_are_errors() {
    let error = control("no url").delete_object("b", "o").unwrap_err();
    assert_eq!(error.status, 500);
    assert_eq!(error.body, b"relative URL without a base");
    assert_eq!(
        control("data:text").send(Method::Get, &vec!["x".to_string()], None),
        Err(ControlError { status: 500, body: vec![] })
    );
    assert_eq!(
        control("http://h").send_to(Method::Post, Ok("u".to_string()), Some("b".to_string())),
        Ok(request(Method::Post, "u", Some("b")))
    );
}

#[test]
fn statuses_decide() {
    let control = control("http://localhost");
    for status in [200, 204, 299] {
        assert_eq!(control.sent(Ok((status, b"ignored".to_vec()))), Ok(()));
    }
    for status in [199, 300, 404, 500] {
        assert_eq!(
            control.sent(Ok((status, b"why".to_vec()))),
            Err(ControlError { status, body: b"why".to_vec() })
        );
    }
    assert_eq!(
        control.sent(Err("connection refused".to_string())),
        Err(ControlError { status: 500, body: b"connection refused".to_vec() })
    );
}

#[test]
fn fake_gcs_client_is_set_up() {
    let setup = gcs_client(4443, true).unwrap();
    assert_eq!(setup.control.endpoint, "http://localhost:4443");
    assert_eq!(setup.project, "test-project");
    assert!(matches!(gcs_client(4443, false), Err(ObjectStoreError::Configuration)));
}
