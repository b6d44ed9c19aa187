//! An opinionated object store.
//!
//! Objects are stored compressed, with a checksum of their data behind it. The
//! store says which requests to send to the backend, and takes the answers
//! apart.

use vstd::prelude::*;
use vstd::string::*;

use crate::text::{ends_with_char, joined, text_of};

pub mod codec;
pub mod testing;

use codec::{compress, decompress, seal, unseal};

verus! {

/// Options for the object store.
#[derive(Debug)]
pub struct ObjectStoreOptions {
    /// The bucket to use.
    pub bucket: String,
    /// Under which prefix to store the data.
    pub prefix: Option<String>,
}

impl Default for ObjectStoreOptions {
    fn default() -> (r: Self)
        ensures
            r.bucket@ == Seq::<char>::empty(),
            r.prefix is None,
    {
        ObjectStoreOptions { bucket: String::new(), prefix: None }
    }
}

impl Clone for ObjectStoreOptions {
    fn clone(&self) -> (r: Self)
        ensures
            r == *self,
    {
        ObjectStoreOptions {
            bucket: self.bucket.clone(),
            prefix: match &self.prefix {
                Some(prefix) => Some(prefix.clone()),
                None => None,
            },
        }
    }
}

/// Stands for a client of an S3-compatible store.
#[derive(Clone, Copy, Debug, PartialEq, Eq, Structural)]
pub struct AwsS3Client;

/// Stands for a client of Azure Blob Storage.
#[derive(Clone, Copy, Debug, PartialEq, Eq, Structural)]
pub struct AzureBlobClient;

/// Stands for a client of Google Cloud Storage.
#[derive(Clone, Copy, Debug, PartialEq, Eq, Structural)]
pub struct GcsClient;

/// The backend that objects are stored in.
#[derive(Clone, Copy, Debug, PartialEq, Eq, Structural)]
pub enum ObjectStoreClient {
    AwsS3(AwsS3Client),
    AzureBlob(AzureBlobClient),
    Gcs(GcsClient),
}

/// An opaque version of an object, used for optimistic concurrency.
///
/// Each backend stores whatever it uses for conditional requests: an HTTP ETag
/// for S3 and Azure, the object generation number for GCS. Only the backend
/// that it comes from interprets its contents.
#[derive(Debug, PartialEq, Eq)]
pub struct ObjectVersion(pub String);

impl Clone for ObjectVersion {
    fn clone(&self) -> (r: Self)
        ensures
            r == *self,
    {
        ObjectVersion(self.0.clone())
    }
}

impl From<String> for ObjectVersion {
    fn from(value: String) -> (r: Self) {
        ObjectVersion(value)
    }
}

impl vstd::std_specs::convert::FromSpecImpl<String> for ObjectVersion {
    open spec fn obeys_from_spec() -> bool {
        true
    }

    open spec fn from_spec(value: String) -> Self {
        ObjectVersion(value)
    }
}

/// How to get an object.
#[derive(Debug, PartialEq, Eq)]
pub struct GetOptions {
    /// If the object exists, only return it if its version matches.
    pub version: Option<ObjectVersion>,
}

impl Default for GetOptions {
    fn default() -> (r: Self)
        ensures
            r == (GetOptions { version: None }),
    {
        GetOptions { version: None }
    }
}

impl Clone for GetOptions {
    fn clone(&self) -> (r: Self)
        ensures
            r == *self,
    {
        GetOptions {
            version: match &self.version {
                Some(version) => Some(version.clone()),
                None => None,
            },
        }
    }
}

/// When to put an object.
#[derive(Debug, PartialEq, Eq)]
pub enum PutMode {
    /// Overwrite the object if it exists.
    Overwrite,
    /// Create the object only if it doesn't exist.
    Create,
    /// Update the object only if it exists and its version matches.
    Update(ObjectVersion),
}

impl Default for PutMode {
    fn default() -> (r: Self)
        ensures
            r == PutMode::Overwrite,
    {
        PutMode::Overwrite
    }
}

impl Clone for PutMode {
    fn clone(&self) -> (r: Self)
        ensures
            r == *self,
    {
        match self {
            PutMode::Overwrite => PutMode::Overwrite,
            PutMode::Create => PutMode::Create,
            PutMode::Update(version) => PutMode::Update(version.clone()),
        }
    }
}

/// How to put an object.
#[derive(Debug, PartialEq, Eq)]
pub struct PutOptions {
    pub mode: PutMode,
}

impl Default for PutOptions {
    fn default() -> (r: Self)
        ensures
            r == (PutOptions { mode: PutMode::Overwrite }),
    {
        PutOptions { mode: PutMode::default() }
    }
}

impl Clone for PutOptions {
    fn clone(&self) -> (r: Self)
        ensures
            r == *self,
    {
        PutOptions { mode: self.mode.clone() }
    }
}

/// How to delete an object.
#[derive(Clone, Copy, Debug, PartialEq, Eq)]
pub struct DeleteOptions {
    /// The provided path is already inclusive of the prefix.
    pub fullpath: Option<bool>,
}

impl Default for DeleteOptions {
    fn default() -> (r: Self)
        ensures
            r == (DeleteOptions { fullpath: None }),
    {
        DeleteOptions { fullpath: None }
    }
}

/// How to list objects.
#[derive(Clone, Copy, Debug, PartialEq, Eq)]
pub struct ListOptions {}

impl Default for ListOptions {
    fn default() -> (r: Self)
        ensures
            r == (ListOptions {  }),
    {
        ListOptions {  }
    }
}

/// An object that was read.
#[derive(Debug, PartialEq, Eq)]
pub struct GetResult {
    pub body: Vec<u8>,
    pub version: ObjectVersion,
}

/// An object that was written.
#[derive(Debug, PartialEq, Eq)]
pub struct PutResult {
    pub version: ObjectVersion,
}

/// An object that was deleted.
#[derive(Clone, Copy, Debug, PartialEq, Eq, Structural)]
pub struct DeleteResult;

/// Objects that were found.
#[derive(Debug, PartialEq, Eq)]
pub struct ListResult {
    pub object_ids: Vec<String>,
}

/// Why an operation on the store failed.
#[derive(Clone, Copy, Debug, PartialEq, Eq, Structural)]
pub enum ObjectStoreError {
    /// The request failed, or the object cannot be compressed or decompressed.
    Request,
    /// The data of an object does not match its checksum.
    ChecksumMismatch,
    /// The metadata of an object is unusable.
    Metadata,
    /// The client is not configured.
    Configuration,
    /// There is no such object.
    NotFound,
    /// The object is not in the version that was asked for.
    Precondition,
}

/// A request for an object.
#[derive(Debug, PartialEq, Eq)]
pub struct GetRequest {
    pub bucket: String,
    pub key: String,
    pub options: GetOptions,
}

/// A request to store an object.
#[derive(Debug, PartialEq, Eq)]
pub struct PutRequest {
    pub bucket: String,
    pub key: String,
    pub body: Vec<u8>,
    pub options: PutOptions,
}

/// A request to delete an object.
#[derive(Debug, PartialEq, Eq)]
pub struct DeleteRequest {
    pub bucket: String,
    pub key: String,
    pub options: DeleteOptions,
}

/// A request for the objects whose keys have a prefix.
#[derive(Debug, PartialEq, Eq)]
pub struct ListRequest {
    pub bucket: String,
    pub prefix: String,
}

/// What to do about the bucket.
#[derive(Debug, PartialEq, Eq)]
pub enum BucketAction {
    /// Nothing more: this is the result.
    Finish(Result<(), ObjectStoreError>),
    /// Create this bucket. What comes of that is the result.
    Create { bucket: String },
}

/// A prefix as it stands before a path: empty, or with a `/` at its end.
pub open spec fn normalized_prefix(prefix: Option<Seq<char>>) -> Seq<char> {
    match prefix {
        None => Seq::empty(),
        Some(prefix) => if prefix.len() == 0 || prefix.last() == '/' {
            prefix
        } else {
            prefix.push('/')
        },
    }
}

/// Puts a prefix into the form that it has before a path.
///
/// This is the rule of this store for its own keys. Nothing is claimed of how
/// the client of the key/value store normalizes the prefixes of its keys: in
/// particular, that an empty prefix stays empty and a trailing `/` is kept is
/// a choice made here.
pub fn normalize_prefix(prefix: Option<String>) -> (r: String)
    ensures
        r@ == normalized_prefix(text_of(prefix)),
{
    match prefix {
        None => String::new(),
        Some(prefix) => {
            if prefix.as_str().unicode_len() == 0 || ends_with_char(prefix.as_str(), '/') {
                prefix
            } else {
                proof {
                    reveal_strlit("/");
                    assert(prefix@ + "/"@ =~= prefix@.push('/'));
                }
                joined(prefix.as_str(), "/")
            }
        },
    }
}

/// An object store.
#[derive(Debug)]
pub struct ObjectStore {
    pub client: ObjectStoreClient,
    pub prefix: String,
    pub bucket: String,
}

impl Clone for ObjectStore {
    fn clone(&self) -> (r: Self)
        ensures
            r == *self,
    {
        ObjectStore {
            client: self.client,
            prefix: self.prefix.clone(),
            bucket: self.bucket.clone(),
        }
    }
}

impl ObjectStore {
    /// Whether this is the store on a client with these options.
    pub open spec fn opened(self, client: ObjectStoreClient, options: ObjectStoreOptions) -> bool {
        &&& self.client == client
        &&& self.bucket == options.bucket
        &&& self.prefix@ == normalized_prefix(text_of(options.prefix))
    }

    pub fn new(client: ObjectStoreClient, options: ObjectStoreOptions) -> (r: Self)
        ensures
            r.opened(client, options),
    {
        let prefix: String = normalize_prefix(options.prefix);
        ObjectStore { client, prefix, bucket: options.bucket }
    }

    pub fn new_s3(s3_client: AwsS3Client, options: ObjectStoreOptions) -> (r: Self)
        ensures
            r.opened(ObjectStoreClient::AwsS3(s3_client), options),
    {
        ObjectStore::new(ObjectStoreClient::AwsS3(s3_client), options)
    }

    pub fn new_azure_blob(client: AzureBlobClient, options: ObjectStoreOptions) -> (r: Self)
        ensures
            r.opened(ObjectStoreClient::AzureBlob(client), options),
    {
        ObjectStore::new(ObjectStoreClient::AzureBlob(client), options)
    }

    pub fn new_gcs(client: GcsClient, options: ObjectStoreOptions) -> (r: Self)
        ensures
            r.opened(ObjectStoreClient::Gcs(client), options),
    {
        ObjectStore::new(ObjectStoreClient::Gcs(client), options)
    }

    /// The key of a path.
    pub open spec fn key_of(self, path: Seq<char>) -> Seq<char> {
        self.prefix@ + path
    }

    /// The key of a path: the path behind the prefix of the store.
    pub fn full_key(&self, path: &str) -> (r: String)
        ensures
            r@ == self.key_of(path@),
    {
        joined(self.prefix.as_str(), path)
    }

    /// Ensures that the configured bucket exists, given whether it does.
    pub fn ensure_bucket(&self, has_bucket: Result<bool, ObjectStoreError>) -> (r: BucketAction)
        ensures
            match has_bucket {
                Ok(true) => r == BucketAction::Finish(Ok(())),
                Ok(false) => r matches BucketAction::Create { bucket } && bucket@ == self.bucket@,
                Err(e) => r == BucketAction::Finish(Err(e)),
            },
    {
        match has_bucket {
            Ok(true) => BucketAction::Finish(Ok(())),
            Ok(false) => BucketAction::Create { bucket: self.bucket.clone() },
            Err(e) => BucketAction::Finish(Err(e)),
        }
    }

    /// The request for the object at a path.
    pub fn get_request(&self, path: &str, options: GetOptions) -> (r: GetRequest)
        ensures
            r.bucket@ == self.bucket@,
            r.key@ == self.key_of(path@),
            r.options == options,
    {
        GetRequest { bucket: self.bucket.clone(), key: self.full_key(path), options }
    }

    /// Reads an object out of the answer of the backend: its version and what
    /// is stored.
    ///
    /// What is stored holds at least a checksum, as everything that the store
    /// has put does.
    pub fn get(&self, answer: Result<(ObjectVersion, Vec<u8>), ObjectStoreError>) -> (r: Result<
        GetResult,
        ObjectStoreError,
    >)
        requires
            answer matches Ok(stored) ==> (codec::zstd_decoded(stored.1@) matches Some(sealed)
                ==> sealed.len() >= codec::CHECKSUM_LEN),
        ensures
            match answer {
                Err(e) => r == Err::<GetResult, ObjectStoreError>(e),
                Ok(stored) => match codec::read(stored.1@) {
                    Ok(body) => r matches Ok(result) && result.body@ == body && result.version
                        == stored.0,
                    Err(e) => r == Err::<GetResult, ObjectStoreError>(e),
                },
            },
    {
        let (version, stored): (ObjectVersion, Vec<u8>) = match answer {
            Ok(stored) => stored,
            Err(e) => {
                return Err(e);
            },
        };
        let sealed: Vec<u8> = match decompress(&stored) {
            Some(sealed) => sealed,
            None => {
                return Err(ObjectStoreError::Request);
            },
        };
        match unseal(&sealed) {
            Ok(body) => Ok(GetResult { body, version }),
            Err(e) => Err(e),
        }
    }

    /// Reads an object like [`Self::get`], or nothing where what is stored is
    /// too short to hold a checksum.
    pub fn get_checked(
        &self,
        answer: Result<(ObjectVersion, Vec<u8>), ObjectStoreError>,
    ) -> (r: Option<Result<GetResult, ObjectStoreError>>)
        ensures
            match answer {
                Err(e) => r == Some(Err::<GetResult, ObjectStoreError>(e)),
                Ok(stored) => if codec::too_short(stored.1@) {
                    r is None
                } else {
                    match codec::read(stored.1@) {
                        Ok(body) => r matches Some(Ok(result)) && result.body@ == body
                            && result.version == stored.0,
                        Err(e) => r == Some(Err::<GetResult, ObjectStoreError>(e)),
                    }
                },
            },
    {
        if let Ok(stored) = &answer {
            if let Some(sealed) = decompress(&stored.1) {
                if sealed.len() < codec::CHECKSUM_LEN {
                    return None;
                }
            }
        }
        Some(self.get(answer))
    }

    /// The request that stores an object at a path: its data with a checksum
    /// behind it, compressed.
    pub fn put(&self, path: &str, body: &Vec<u8>, options: PutOptions) -> (r: Result<
        PutRequest,
        ObjectStoreError,
    >)
        ensures
            r matches Ok(request) && request.bucket@ == self.bucket@ && request.key@ == self.key_of(
                path@,
            ) && request.body@ == codec::zstd_encoded(
                codec::sealed(body@),
                codec::COMPRESSION_LEVEL,
            ) && codec::zstd_decoded(request.body@) == Some(codec::sealed(body@))
                && request.options == options,
    {
        let sealed: Vec<u8> = seal(body);
        let compressed: Option<Vec<u8>> = compress(&sealed, codec::COMPRESSION_LEVEL);
        self.put_compressed(path, compressed, options)
    }

    /// The request that stores an object at a path, once it is compressed; a
    /// failure when it could not be.
    pub fn put_compressed(
        &self,
        path: &str,
        compressed: Option<Vec<u8>>,
        options: PutOptions,
    ) -> (r: Result<PutRequest, ObjectStoreError>)
        ensures
            match compressed {
                Some(body) => r matches Ok(request) && request.bucket@ == self.bucket@
                    && request.key@ == self.key_of(path@) && request.body == body
                    && request.options == options,
                None => r == Err::<PutRequest, ObjectStoreError>(ObjectStoreError::Request),
            },
    {
        match compressed {
            Some(body) => Ok(
                PutRequest {
                    bucket: self.bucket.clone(),
                    key: self.full_key(path),
                    body,
                    options,
                },
            ),
            None => Err(ObjectStoreError::Request),
        }
    }

    /// What came of storing an object: its version.
    pub fn put_answer(&self, answer: Result<ObjectVersion, ObjectStoreError>) -> (r: Result<
        PutResult,
        ObjectStoreError,
    >)
        ensures
            r == match answer {
                Ok(version) => Ok::<PutResult, ObjectStoreError>(PutResult { version }),
                Err(e) => Err(e),
            },
    {
        match answer {
            Ok(version) => Ok(PutResult { version }),
            Err(e) => Err(e),
        }
    }

    /// The key of the object that is deleted at a path: the path itself when
    /// the options say that it is a key.
    pub open spec fn deleted_key(self, path: Seq<char>, options: DeleteOptions) -> Seq<char> {
        if options.fullpath == Some(true) {
            path
        } else {
            self.key_of(path)
        }
    }

    /// The request that deletes the object at a path. The path is taken as a
    /// key when the options say so.
    pub fn delete(&self, path: &str, options: DeleteOptions) -> (r: DeleteRequest)
        ensures
            r.bucket@ == self.bucket@,
            r.key@ == self.deleted_key(path@, options),
            r.options == options,
    {
        let key: String = match options.fullpath {
            Some(true) => path.to_owned(),
            _ => self.full_key(path),
        };
        DeleteRequest { bucket: self.bucket.clone(), key, options }
    }

    /// What came of deleting an object.
    pub fn delete_answer(&self, answer: Result<(), ObjectStoreError>) -> (r: Result<
        DeleteResult,
        ObjectStoreError,
    >)
        ensures
            match answer {
                Ok(_) => r == Ok::<DeleteResult, ObjectStoreError>(DeleteResult),
                Err(e) => r == Err::<DeleteResult, ObjectStoreError>(e),
            },
    {
        match answer {
            Ok(_) => Ok(DeleteResult),
            Err(e) => Err(e),
        }
    }

    /// The request for the objects whose paths have a prefix.
    pub fn list(&self, prefix: &str, _options: ListOptions) -> (r: ListRequest)
        ensures
            r.bucket@ == self.bucket@,
            r.prefix@ == self.key_of(prefix@),
    {
        ListRequest { bucket: self.bucket.clone(), prefix: self.full_key(prefix) }
    }

    /// What came of listing objects: their ids.
    pub fn list_answer(&self, answer: Result<Vec<String>, ObjectStoreError>) -> (r: Result<
        ListResult,
        ObjectStoreError,
    >)
        ensures
            r == match answer {
                Ok(object_ids) => Ok::<ListResult, ObjectStoreError>(ListResult { object_ids }),
                Err(e) => Err(e),
            },
    {
        match answer {
            Ok(object_ids) => Ok(ListResult { object_ids }),
            Err(e) => Err(e),
        }
    }
}

/// Law: reading an object gives back what was put, whatever was put.
pub proof fn get_gives_back_put(request: PutRequest, body: Seq<u8>)
    requires
        codec::zstd_decoded(request.body@) == Some(codec::sealed(body)),
    ensures
        !codec::too_short(request.body@),
        codec::read(request.body@) == Ok::<Seq<u8>, ObjectStoreError>(body),
{
    codec::sealing_is_undone(body);
}

/// Law: an object is only read as data that the store could have put. Anything
/// else that decompresses is refused for its checksum.
pub proof fn only_sealed_data_is_read(stored: Seq<u8>, body: Seq<u8>)
    requires
        !codec::too_short(stored),
        codec::zstd_decoded(stored) is Some,
    ensures
        codec::read(stored) == Ok::<Seq<u8>, ObjectStoreError>(body) <==> codec::zstd_decoded(
            stored,
        ) == Some(codec::sealed(body)),
        codec::read(stored) is Ok || codec::read(stored) == Err::<Seq<u8>, ObjectStoreError>(
            ObjectStoreError::ChecksumMismatch,
        ),
{
    codec::unsealing_is_undone(codec::zstd_decoded(stored)->0, body);
}

/// Law: two paths never share a key.
pub proof fn keys_are_distinct(store: ObjectStore, a: Seq<char>, b: Seq<char>)
    requires
        store.key_of(a) == store.key_of(b),
    ensures
        a == b,
{
    let n = store.prefix@.len() as int;
    assert(store.key_of(a).skip(n) =~= a);
    assert(store.key_of(b).skip(n) =~= b);
}

/// Law: a store with a prefix and one without keep an object of the same path
/// apart.
pub proof fn prefix_separates_stores(with: ObjectStore, without: ObjectStore, path: Seq<char>)
    requires
        with.prefix@.len() > 0,
        without.prefix@.len() == 0,
    ensures
        with.key_of(path) != without.key_of(path),
{
    assert(with.key_of(path).len() != without.key_of(path).len());
}

/// Law: deleting a path, and deleting its full key as a full path, delete the
/// same object.
pub proof fn fullpath_deletes_the_same_object(
    store: ObjectStore,
    path: Seq<char>,
    options: DeleteOptions,
)
    requires
        options.fullpath != Some(true),
    ensures
        store.deleted_key(store.key_of(path), (DeleteOptions { fullpath: Some(true) }))
            == store.deleted_key(path, options),
{
}

/// Law: listing a prefix covers exactly the paths that have it.
pub proof fn listing_covers_the_prefix(store: ObjectStore, prefix: Seq<char>, path: Seq<char>)
    ensures
        store.key_of(prefix).is_prefix_of(store.key_of(path)) <==> prefix.is_prefix_of(path),
{
    let n = store.prefix@.len() as int;
    let p = store.key_of(prefix);
    let k = store.key_of(path);
    if p.is_prefix_of(k) {
        assert(prefix =~= path.subrange(0, prefix.len() as int)) by {
            assert forall|i: int| 0 <= i < prefix.len() implies prefix[i] == path[i] by {
                assert(p[n + i] == k.subrange(0, p.len() as int)[n + i]);
            }
        }
    }
    if prefix.is_prefix_of(path) {
        assert(p =~= k.subrange(0, p.len() as int)) by {
            assert forall|i: int| 0 <= i < p.len() implies p[i] == k[i] by {
                if i >= n {
                    assert(prefix[i - n] == path.subrange(0, prefix.len() as int)[i - n]);
                }
            }
        }
    }
}

/// Law: a normalized prefix is empty or ends with a slash, and stays as it is
/// when it is normalized again.
pub proof fn normalized_prefix_is_stable(prefix: Option<Seq<char>>)
    ensures
        normalized_prefix(prefix).len() == 0 || normalized_prefix(prefix).last() == '/',
        normalized_prefix(Some(normalized_prefix(prefix))) == normalized_prefix(prefix),
{
}

/// Law: what is put decompresses to the whole body and, behind it, the four
/// bytes of the checksum of the whole body, from the highest on.
pub proof fn put_stores_the_body_and_its_checksum(request: PutRequest, body: Seq<u8>)
    requires
        codec::zstd_decoded(request.body@) == Some(codec::sealed(body)),
        request.body@ == codec::zstd_encoded(codec::sealed(body), codec::COMPRESSION_LEVEL),
    ensures
        request.body@ == codec::zstd_encoded(codec::zstd_decoded(request.body@)->0, 0),
        ({
            let bytes = codec::zstd_decoded(request.body@)->0;
            let n = body.len() as int;
            &&& bytes.len() == n + 4
            &&& bytes.take(n) == body
            &&& bytes[n] * 0x100_0000 + bytes[n + 1] * 0x1_0000 + bytes[n + 2] * 0x100 + bytes[n
                + 3] == codec::crc32(body)
        }),
{
    codec::trailer_is_the_checksum_of_all_data(body);
}

/// Law: an object is read as the bytes that it decompresses to without the last
/// four, exactly when those four write the checksum of all the others; and else
/// it is refused. What does not decompress is a failed request, and what
/// decompresses to less than four bytes is no object.
pub proof fn objects_are_read_by_their_checksum(stored: Seq<u8>)
    ensures
        codec::zstd_decoded(stored) is None ==> codec::read(stored) == Err::<
            Seq<u8>,
            ObjectStoreError,
        >(ObjectStoreError::Request) && !codec::too_short(stored),
        codec::zstd_decoded(stored) matches Some(bytes) ==> (codec::too_short(stored)
            <==> bytes.len() < 4),
        codec::zstd_decoded(stored) is Some && codec::zstd_decoded(stored)->0.len() >= 4 ==> ({
            let bytes = codec::zstd_decoded(stored)->0;
            let n = bytes.len() - 4;
            let written = bytes[n] * 0x100_0000 + bytes[n + 1] * 0x1_0000 + bytes[n + 2] * 0x100
                + bytes[n + 3];
            codec::read(stored) == if codec::crc32(bytes.take(n)) == written {
                Ok::<Seq<u8>, ObjectStoreError>(bytes.take(n))
            } else {
                Err(ObjectStoreError::ChecksumMismatch)
            }
        }),
{
    if let Some(bytes) = codec::zstd_decoded(stored) {
        if bytes.len() >= 4 {
            codec::data_is_given_only_with_its_checksum(bytes);
        }
    }
}

/// Law: the key of a path is the prefix of the store and then the path, and so
/// is the key that is deleted, unless the path is said to be a key already.
pub proof fn keys_are_prefixed_paths(store: ObjectStore, path: Seq<char>, options: DeleteOptions)
    ensures
        store.key_of(path).len() == store.prefix@.len() + path.len(),
        store.key_of(path).take(store.prefix@.len() as int) == store.prefix@,
        store.key_of(path).skip(store.prefix@.len() as int) == path,
        options.fullpath == Some(true) ==> store.deleted_key(path, options) == path,
        options.fullpath != Some(true) ==> store.deleted_key(path, options) == store.prefix@ + path,
{
    let n = store.prefix@.len() as int;
    assert(store.key_of(path).take(n) =~= store.prefix@);
    assert(store.key_of(path).skip(n) =~= path);
}

/// Law: a store keeps the client, the bucket and the prefix that it was opened
/// with. A prefix without a slash at its end gets one; no other character is
/// added to it or taken from it.
pub proof fn opened_store_keeps_its_options(
    store: ObjectStore,
    client: ObjectStoreClient,
    options: ObjectStoreOptions,
)
    requires
        store.opened(client, options),
    ensures
        store.client == client,
        store.bucket@ == options.bucket@,
        options.prefix is None ==> store.prefix@.len() == 0,
        options.prefix matches Some(prefix) ==> ({
            &&& prefix@.len() > 0 && prefix@.last() != '/' ==> store.prefix@ == prefix@.push('/')
            &&& prefix@.len() == 0 || prefix@.last() == '/' ==> store.prefix@ == prefix@
        }),
{
}

}
