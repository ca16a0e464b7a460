use vstd::prelude::*;
use vstd::string::StringExecFns;
use crate::text::{ascii_chars, decimal_digits, decimal_string};

verus! {

/// Reports whether a JSON response stands for a success.
pub struct SuccessReporter {
    pub success: bool,
}

impl SuccessReporter {
    pub fn new(success: bool) -> (r: SuccessReporter)
        ensures
            r.success == success,
    {
        SuccessReporter { success }
    }
}

/// The answer to a request for the server's version.
pub struct ServerInfoResponse {
    pub success: SuccessReporter,
    pub version: String,
}

impl ServerInfoResponse {
    pub fn new(version: String) -> (r: ServerInfoResponse)
        ensures
            r.success.success,
            r.version@ == version@,
    {
        ServerInfoResponse { success: SuccessReporter::new(true), version }
    }
}

/// A retrieved file, with how long clients may cache it.
pub struct FileShowResponse {
    pub data: Vec<u8>,
    pub content_type: String,
    pub cache_time: usize,
}

/// The `Cache-Control` value for a cache time in seconds.
pub open spec fn cache_control_of(cache_time: nat) -> Seq<char> {
    if cache_time > 0 {
        "max-age="@ + ascii_chars(decimal_digits(cache_time))
    } else {
        "no-cache"@
    }
}

impl FileShowResponse {
    pub fn new(data: Vec<u8>, content_type: String, cache_time: usize) -> (r: FileShowResponse)
        ensures
            r.data@ == data@,
            r.content_type@ == content_type@,
            r.cache_time == cache_time,
    {
        FileShowResponse { data, content_type, cache_time }
    }

    /// `max-age=<seconds>` where a cache time is set, else `no-cache`.
    pub fn cache_control(&self) -> (r: String)
        ensures
            r@ == cache_control_of(self.cache_time as nat),
    {
        if self.cache_time > 0 {
            let digits = decimal_string(self.cache_time);
            String::from_str("max-age=").concat(digits.as_str())
        } else {
            String::from_str("no-cache")
        }
    }
}

/// A retrieved image.
pub struct ImageShowResponse {
    pub data: Vec<u8>,
    pub content_type: String,
}

impl ImageShowResponse {
    pub fn new(data: Vec<u8>, content_type: String) -> (r: ImageShowResponse)
        ensures
            r.data@ == data@,
            r.content_type@ == content_type@,
    {
        ImageShowResponse { data, content_type }
    }
}

/// The JSON body of an error response.
pub struct RocketErrorResponse {
    pub message: String,
}

impl RocketErrorResponse {
    pub fn new(message: String) -> (r: RocketErrorResponse)
        ensures
            r.message@ == message@,
    {
        RocketErrorResponse { message }
    }
}

/// Where an upload can be fetched, and where it can be deleted.
pub struct UploadResponseData {
    pub url: String,
    pub deletion_url: String,
}

/// The path under the public URL at which a file is deleted by its secret.
pub const DELETE_PATH: &'static str = "/api/v1/file/delete/";

impl UploadResponseData {
    pub fn new(url: String, deletion_url: String) -> (r: UploadResponseData)
        ensures
            r.url@ == url@,
            r.deletion_url@ == deletion_url@,
    {
        UploadResponseData { url, deletion_url }
    }

    /// The URLs of an upload: `<public_url>/<id>` and
    /// `<public_url>/api/v1/file/delete/<secret>`.
    pub fn for_upload(public_url: &str, id: &str, secret: &str) -> (r: UploadResponseData)
        ensures
            r.url@ == public_url@ + "/"@ + id@,
            r.deletion_url@ == public_url@ + DELETE_PATH@ + secret@,
    {
        let url = String::from_str(public_url).concat("/").concat(id);
        let deletion_url = String::from_str(public_url).concat(DELETE_PATH).concat(secret);
        UploadResponseData { url, deletion_url }
    }
}

} // verus!
