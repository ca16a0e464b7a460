use vstd::prelude::*;
use crate::error::Error;

verus! {

/// Settings of the whole service.
pub struct GlobalConfig {
    /// The public URL of the server, without a trailing slash.
    pub public_url: String,
    /// The number of characters in a public id.
    pub file_id_length: usize,
    /// How long clients may cache a blob, in seconds.
    pub cache_length: Option<usize>,
    /// Where set, uploads must present this key.
    pub auth_key: Option<String>,
}

/// The token that an upload request presents; empty where it has none.
pub struct AuthToken(pub String);

/// Settings of an S3-compatible bucket.
pub struct BucketFairingConfig {
    pub url: String,
    pub name: String,
    pub access_key: String,
    pub access_key_secret: String,
    pub region: Option<String>,
}

/// Settings of the metadata database.
pub struct PostgresConfig {
    pub url: String,
}

/// The blob store backends.
#[derive(Debug, Clone, Copy, PartialEq, Eq, Structural)]
pub enum StorageDriverType {
    ObjectStorage,
    Drive,
}

/// Which blob store backend to use.
pub struct StorageDriverFairingConfig {
    pub storage_type: StorageDriverType,
}

/// Settings of the object storage backend.
pub struct ObjectStorageConfig {
    pub url: String,
    pub name: String,
    pub access_key: String,
    pub access_key_secret: String,
    pub region: Option<String>,
}

/// Settings of the local drive backend: the directory that holds the blobs.
pub struct DriveStorageConfig {
    pub path: String,
}

/// The region used where a bucket's settings name none.
pub const DEFAULT_REGION: &'static str = "weur";

/// The region that a bucket is reached in.
pub fn region_or_default(region: &Option<String>) -> (r: String)
    ensures
        r@ == match region {
            Some(name) => name@,
            None => DEFAULT_REGION@,
        },
{
    match region {
        Some(name) => name.clone(),
        None => String::from_str(DEFAULT_REGION),
    }
}

/// Whether an upload with this token is allowed.
pub open spec fn authorized(auth_key: Option<Seq<char>>, token: Seq<char>) -> bool {
    match auth_key {
        Some(key) => key == token,
        None => true,
    }
}

impl GlobalConfig {
    /// Accepts an upload where no key is configured or the token is the key;
    /// refuses it with `Unauthorized` otherwise.
    pub fn check_auth(&self, token: &AuthToken) -> (r: Result<(), Error>)
        ensures
            r is Ok <==> authorized(
                match self.auth_key {
                    Some(k) => Some(k@),
                    None => None,
                },
                token.0@,
            ),
            r is Err ==> r == Err::<(), Error>(Error::Unauthorized),
    {
        match &self.auth_key {
            Some(key) => if *key == token.0 {
                Ok(())
            } else {
                Err(Error::Unauthorized)
            },
            None => Ok(()),
        }
    }

    /// How long clients may cache a blob, in seconds; 0 where unset.
    pub fn cache_time(&self) -> (r: usize)
        ensures
            r == match self.cache_length {
                Some(n) => n,
                None => 0,
            },
    {
        match self.cache_length {
            Some(n) => n,
            None => 0,
        }
    }
}

} // verus!
