use uploader::config::{region_or_default, AuthToken, GlobalConfig, DEFAULT_REGION};
use uploader::error::{Error, StorageError};
use uploader::response::{
    FileShowResponse, ImageShowResponse, RocketErrorResponse, ServerInfoResponse, SuccessReporter,
    UploadResponseData,
};
use uploader::text::decimal_string;

fn config(auth_key: Option<&str>, cache_length: Option<usize>) -> GlobalConfig {
    GlobalConfig {
        public_url: "https://up.example".to_string(),
        file_id_length: 6,
        cache_length,
        auth_key: auth_key.map(|k| k.to_string()),
    }
}

#[test]
fn status_codes() {
    assert_eq!(Error::Unauthorized.error_attr().status_code, 403);
    assert_eq!(Error::FileTooLargeError.error_attr().status_code, 403);
    assert_eq!(Error::FileNotFoundError.error_attr().status_code, 404);
    assert_eq!(Error::StorageUnavailableError.error_attr().status_code, 500);
    assert_eq!(Error::InternalStorageError(StorageError::NotFound).error_attr().status_code, 500);
    assert_eq!(Error::FileConvertError.error_attr().status_code, 500);
    assert_eq!(Error::DatabaseError.error_attr().status_code, 500);
    assert_eq!(Error::OrphanedRecordError.error_attr().status_code, 500);
}

#[test]
fn messages() {
    assert_eq!(Error::Unauthorized.message(), "Invalid auth key");
    assert_eq!(Error::FileNotFoundError.message(), "The file does not exist");
    assert_eq!(
        Error::InternalStorageError(StorageError::CorruptRecord).message(),
        "Failed to access storage driver (The stored file is corrupt)"
    );
}

#[test]
fn storage_error_converts() {
    assert_eq!(Error::from(StorageError::BackendUnavailable), Error::InternalStorageError(StorageError::BackendUnavailable));
}

#[test]
fn object_storage_status_classification() {
    assert_eq!(StorageError::from_status(Some(404)), StorageError::NotFound);
    assert_eq!(StorageError::from_status(Some(403)), StorageError::BackendUnavailable);
    assert_eq!(StorageError::from_status(Some(500)), StorageError::BackendUnavailable);
    assert_eq!(StorageError::from_status(None), StorageError::BackendUnavailable);
}

#[test]
fn auth_check() {
    let open = config(None, None);
    assert_eq!(open.check_auth(&AuthToken(String::new())), Ok(()));
    let locked = config(Some("k3y"), None);
    assert_eq!(locked.check_auth(&AuthToken("k3y".to_string())), Ok(()));
    assert_eq!(locked.check_auth(&AuthToken("nope".to_string())), Err(Error::Unauthorized));
    assert_eq!(locked.check_auth(&AuthToken(String::new())), Err(Error::Unauthorized));
}

#[test]
fn cache_time_defaults_to_zero() {
    assert_eq!(config(None, None).cache_time(), 0);
    assert_eq!(config(None, Some(60)).cache_time(), 60);
}

#[test]
fn cache_control_values() {
    assert_eq!(FileShowResponse::new(vec![], "a/b".to_string(), 0).cache_control(), "no-cache");
    assert_eq!(FileShowResponse::new(vec![], "a/b".to_string(), 3600).cache_control(), "max-age=3600");
    assert_eq!(FileShowResponse::new(vec![], "a/b".to_string(), 7).cache_control(), "max-age=7");
}

#[test]
fn decimal_formatting() {
    assert_eq!(decimal_string(0), "0");
    assert_eq!(decimal_string(10), "10");
    assert_eq!(decimal_string(usize::MAX), usize::MAX.to_string());
}

#[test]
fn region_default() {
    assert_eq!(region_or_default(&None), "weur");
    assert_eq!(DEFAULT_REGION, "weur");
    assert_eq!(region_or_default(&Some("auto".to_string())), "auto");
}

#[test]
fn upload_urls() {
    let r = UploadResponseData::for_upload("https://up.example", "abc123", "s3cr3t");
    assert_eq!(r.url, "https://up.example/abc123");
    assert_eq!(r.deletion_url, "https://up.example/api/v1/file/delete/s3cr3t");
}

#[test]
fn plain_responses() {
    assert!(SuccessReporter::new(true).success);
    assert!(!SuccessReporter::new(false).success);
    let info = ServerInfoResponse::new("1.2.3".to_string());
    assert!(info.success.success);
    assert_eq!(info.version, "1.2.3");
    let img = ImageShowResponse::new(vec![1, 2], "image/gif".to_string());
    assert_eq!(img.data, vec![1, 2]);
    assert_eq!(img.content_type, "image/gif");
    assert_eq!(RocketErrorResponse::new("m".to_string()).message, "m");
    let d = UploadResponseData::new("u".to_string(), "d".to_string());
    assert_eq!((d.url.as_str(), d.deletion_url.as_str()), ("u", "d"));
}
