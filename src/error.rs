use vstd::prelude::*;

verus! {

/// Why an original image could not be delivered.
#[derive(PartialEq, Eq, Structural, Clone, Copy, Debug)]
pub enum ReadImageError {
    /// The identity tries to leave the root, or names something that is not a regular file.
    ForbiddenPath,
    /// No original exists under the identity.
    FileNotFound,
    /// The storage backend failed for another reason; the request may be retried.
    BackendUnavailable,
}

/// Why a thumbnail could not be delivered.
#[derive(PartialEq, Eq, Structural, Clone, Copy, Debug)]
pub enum ReadThumbnailError {
    ForbiddenPath,
    FileNotFound,
    BackendUnavailable,
    /// The original bytes are not an image that can be decoded.
    DecodeError,
    /// The thumbnail could not be encoded in the requested format.
    EncodeError,
    /// The cache directory cannot be used.
    CacheUnavailable,
}

pub open spec fn thumbnail_error_of(e: ReadImageError) -> ReadThumbnailError {
    match e {
        ReadImageError::ForbiddenPath => ReadThumbnailError::ForbiddenPath,
        ReadImageError::FileNotFound => ReadThumbnailError::FileNotFound,
        ReadImageError::BackendUnavailable => ReadThumbnailError::BackendUnavailable,
    }
}

impl From<ReadImageError> for ReadThumbnailError {
    fn from(value: ReadImageError) -> (r: Self)
        ensures
            r == thumbnail_error_of(value),
    {
        match value {
            ReadImageError::ForbiddenPath => ReadThumbnailError::ForbiddenPath,
            ReadImageError::FileNotFound => ReadThumbnailError::FileNotFound,
            ReadImageError::BackendUnavailable => ReadThumbnailError::BackendUnavailable,
        }
    }
}

impl vstd::std_specs::convert::FromSpecImpl<ReadImageError> for ReadThumbnailError {
    open spec fn obeys_from_spec() -> bool {
        true
    }

    open spec fn from_spec(v: ReadImageError) -> Self {
        thumbnail_error_of(v)
    }
}

/// The transport status that a caller answers a failed request with.
pub open spec fn image_error_status(e: ReadImageError) -> u16 {
    match e {
        ReadImageError::ForbiddenPath => 403,
        ReadImageError::FileNotFound => 404,
        ReadImageError::BackendUnavailable => 503,
    }
}

pub open spec fn thumbnail_error_status(e: ReadThumbnailError) -> u16 {
    match e {
        ReadThumbnailError::ForbiddenPath => 403,
        ReadThumbnailError::FileNotFound => 404,
        ReadThumbnailError::BackendUnavailable => 503,
        ReadThumbnailError::DecodeError => 422,
        ReadThumbnailError::EncodeError => 500,
        ReadThumbnailError::CacheUnavailable => 500,
    }
}

impl ReadImageError {
    /// The HTTP status for this error: a client error for a bad identity, 503 for a
    /// backend that may recover.
    pub fn status(&self) -> (r: u16)
        ensures
            r == image_error_status(*self),
    {
        match self {
            ReadImageError::ForbiddenPath => 403,
            ReadImageError::FileNotFound => 404,
            ReadImageError::BackendUnavailable => 503,
        }
    }

    /// Whether the same request may succeed when repeated.
    pub fn is_retryable(&self) -> (r: bool)
        ensures
            r == (*self == ReadImageError::BackendUnavailable),
            r == (image_error_status(*self) == 503),
    {
        match self {
            ReadImageError::BackendUnavailable => true,
            _ => false,
        }
    }
}

impl ReadThumbnailError {
    pub fn status(&self) -> (r: u16)
        ensures
            r == thumbnail_error_status(*self),
    {
        match self {
            ReadThumbnailError::ForbiddenPath => 403,
            ReadThumbnailError::FileNotFound => 404,
            ReadThumbnailError::BackendUnavailable => 503,
            ReadThumbnailError::DecodeError => 422,
            ReadThumbnailError::EncodeError => 500,
            ReadThumbnailError::CacheUnavailable => 500,
        }
    }

    pub fn is_retryable(&self) -> (r: bool)
        ensures
            r == (*self == ReadThumbnailError::BackendUnavailable),
            r == (thumbnail_error_status(*self) == 503),
    {
        match self {
            ReadThumbnailError::BackendUnavailable => true,
            _ => false,
        }
    }
}

/// The body sent with a failed response: a short machine-readable code.
pub struct ErrorCode {
    error_code: String,
}

pub open spec fn image_error_code(e: ReadImageError) -> Seq<char> {
    match e {
        ReadImageError::ForbiddenPath => "forbidden"@,
        ReadImageError::FileNotFound => "not.found"@,
        ReadImageError::BackendUnavailable => "service.unavailable"@,
    }
}

pub open spec fn thumbnail_error_code(e: ReadThumbnailError) -> Seq<char> {
    match e {
        ReadThumbnailError::ForbiddenPath => "forbidden"@,
        ReadThumbnailError::FileNotFound => "not.found"@,
        ReadThumbnailError::BackendUnavailable => "service.unavailable"@,
        ReadThumbnailError::DecodeError => "unsupported.image"@,
        ReadThumbnailError::EncodeError => "internal.server.error"@,
        ReadThumbnailError::CacheUnavailable => "internal.server.error"@,
    }
}

impl ErrorCode {
    pub fn new(error_code: &str) -> (r: Self)
        ensures
            r.code_view() == error_code@,
    {
        ErrorCode { error_code: String::from_str(error_code) }
    }

    pub closed spec fn code_view(&self) -> Seq<char> {
        self.error_code@
    }

    pub fn error_code(&self) -> (r: String)
        ensures
            r@ == self.code_view(),
    {
        self.error_code.clone()
    }

    /// The code sent for an error of the original-image endpoint.
    pub fn for_image_error(e: ReadImageError) -> (r: Self)
        ensures
            r.code_view() == image_error_code(e),
    {
        match e {
            ReadImageError::ForbiddenPath => ErrorCode::new("forbidden"),
            ReadImageError::FileNotFound => ErrorCode::new("not.found"),
            ReadImageError::BackendUnavailable => ErrorCode::new("service.unavailable"),
        }
    }

    /// The code sent for an error of the thumbnail endpoint.
    pub fn for_thumbnail_error(e: ReadThumbnailError) -> (r: Self)
        ensures
            r.code_view() == thumbnail_error_code(e),
    {
        match e {
            ReadThumbnailError::ForbiddenPath => ErrorCode::new("forbidden"),
            ReadThumbnailError::FileNotFound => ErrorCode::new("not.found"),
            ReadThumbnailError::BackendUnavailable => ErrorCode::new("service.unavailable"),
            ReadThumbnailError::DecodeError => ErrorCode::new("unsupported.image"),
            ReadThumbnailError::EncodeError => ErrorCode::internal(),
            ReadThumbnailError::CacheUnavailable => ErrorCode::internal(),
        }
    }

    /// The code sent for a failure on the server's side.
    pub fn internal() -> (r: Self)
        ensures
            r.code_view() == "internal.server.error"@,
    {
        ErrorCode::new("internal.server.error")
    }
}

} // verus!
