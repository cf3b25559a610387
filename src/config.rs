use vstd::prelude::*;

verus! {

/// Where originals are read from.
pub enum ImageSource {
    /// A directory of the local filesystem; identities are paths below it.
    Local { root_path: String },
    /// A bucket of an S3-compatible object store; identities are object keys.
    S3 { bucket: String, region: String, endpoint: Option<String> },
}

/// The service's configuration, built once at startup.
pub struct Cli {
    pub image_source: ImageSource,
    /// Where thumbnails are cached; no caching when absent.
    pub cache_directory: Option<String>,
}

} // verus!
