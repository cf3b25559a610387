use vstd::prelude::*;
use crate::mime::{mime_for_path, path_mime};

verus! {

/// An original image as a backend handed it out: its bytes and the MIME type that
/// its identity's extension gives.
pub struct Image {
    original_bytes: Vec<u8>,
    mime_type: String,
}

impl Image {
    pub closed spec fn bytes_view(&self) -> Seq<u8> {
        self.original_bytes@
    }

    pub closed spec fn mime_view(&self) -> Seq<char> {
        self.mime_type@
    }

    /// Wraps the bytes fetched for `requested_path`. The bytes are kept exactly as
    /// fetched; the MIME type comes from the path's extension.
    pub fn from_bytes(requested_path: &str, original_bytes: Vec<u8>) -> (r: Image)
        ensures
            r.bytes_view() == original_bytes@,
            r.mime_view() == path_mime(requested_path@),
    {
        let mime_type = mime_for_path(requested_path);
        Image { original_bytes, mime_type }
    }

    pub fn get_mime(&self) -> (r: String)
        ensures
            r@ == self.mime_view(),
    {
        self.mime_type.clone()
    }

    pub fn get_bytes(&self) -> (r: &Vec<u8>)
        ensures
            r@ == self.bytes_view(),
    {
        &self.original_bytes
    }

    /// Hands the bytes and the MIME type over.
    pub fn into_parts(self) -> (r: (Vec<u8>, String))
        ensures
            r.0@ == self.bytes_view(),
            r.1@ == self.mime_view(),
    {
        (self.original_bytes, self.mime_type)
    }
}

} // verus!
