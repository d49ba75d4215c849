//! Media types for uploading and managing media files

use vstd::prelude::*;

verus! {

/// Response from media upload
#[derive(Debug, Clone)]
pub struct MediaUploadResponse {
    /// Media ID
    pub id: String,
}

/// Response from getting media URL
#[derive(Debug, Clone)]
pub struct MediaUrlResponse {
    /// Messaging product
    pub messaging_product: Option<String>,
    /// Media URL (valid for 5 minutes)
    pub url: String,
    /// MIME type
    pub mime_type: String,
    /// SHA256 hash
    pub sha256: String,
    /// File size in bytes
    pub file_size: i64,
    /// Media ID
    pub id: String,
}

/// Supported media types for upload
#[derive(Debug, Clone, Copy, PartialEq, Eq, Structural)]
pub enum MediaType {
    /// Audio files (mp3, ogg, amr, etc.)
    Audio,
    /// Document files (pdf, doc, xlsx, etc.)
    Document,
    /// Image files (jpg, png, webp)
    Image,
    /// Sticker files (webp)
    Sticker,
    /// Video files (mp4, 3gpp)
    Video,
}

/// The table of MIME types accepted for each media type.
pub open spec fn media_type_mime_types(t: MediaType) -> Seq<Seq<char>> {
    match t {
        MediaType::Audio => seq![
            "audio/aac"@,
            "audio/mp4"@,
            "audio/mpeg"@,
            "audio/amr"@,
            "audio/ogg"@,
        ],
        MediaType::Document => seq![
            "text/plain"@,
            "application/pdf"@,
            "application/vnd.ms-powerpoint"@,
            "application/msword"@,
            "application/vnd.ms-excel"@,
            "application/vnd.openxmlformats-officedocument.wordprocessingml.document"@,
            "application/vnd.openxmlformats-officedocument.presentationml.presentation"@,
            "application/vnd.openxmlformats-officedocument.spreadsheetml.sheet"@,
        ],
        MediaType::Image => seq!["image/jpeg"@, "image/png"@, "image/webp"@],
        MediaType::Sticker => seq!["image/webp"@],
        MediaType::Video => seq!["video/mp4"@, "video/3gpp"@],
    }
}

/// The size cap, in bytes, for each media type.
pub open spec fn media_type_max_size(t: MediaType) -> u64 {
    match t {
        MediaType::Audio => (16 * 1024 * 1024) as u64,
        MediaType::Document => (100 * 1024 * 1024) as u64,
        MediaType::Image => (5 * 1024 * 1024) as u64,
        MediaType::Sticker => (500 * 1024) as u64,
        MediaType::Video => (16 * 1024 * 1024) as u64,
    }
}

impl MediaType {
    /// Get supported MIME types for this media type
    pub fn supported_mime_types(&self) -> (r: &'static [&'static str])
        ensures
            r@.len() == media_type_mime_types(*self).len(),
            forall|i: int|
                0 <= i < r@.len() ==> r@[i]@ == #[trigger] media_type_mime_types(*self)[i],
    {
        match self {
            MediaType::Audio => &[
                "audio/aac",
                "audio/mp4",
                "audio/mpeg",
                "audio/amr",
                "audio/ogg",
            ],
            MediaType::Document => &[
                "text/plain",
                "application/pdf",
                "application/vnd.ms-powerpoint",
                "application/msword",
                "application/vnd.ms-excel",
                "application/vnd.openxmlformats-officedocument.wordprocessingml.document",
                "application/vnd.openxmlformats-officedocument.presentationml.presentation",
                "application/vnd.openxmlformats-officedocument.spreadsheetml.sheet",
            ],
            MediaType::Image => &["image/jpeg", "image/png", "image/webp"],
            MediaType::Sticker => &["image/webp"],
            MediaType::Video => &["video/mp4", "video/3gpp"],
        }
    }

    /// Check if a MIME type is supported for this media type
    pub fn is_mime_supported(&self, mime_type: &str) -> (r: bool)
        ensures
            r == media_type_mime_types(*self).contains(mime_type@),
    {
        let table = self.supported_mime_types();
        let mut i: usize = 0;
        while i < table.len()
            invariant
                i <= table@.len(),
                table@.len() == media_type_mime_types(*self).len(),
                forall|k: int|
                    0 <= k < table@.len() ==> table@[k]@ == #[trigger] media_type_mime_types(
                        *self,
                    )[k],
                forall|k: int| 0 <= k < i ==> media_type_mime_types(*self)[k] != mime_type@,
            decreases table@.len() - i,
        {
            if crate::types::str_eq(table[i], mime_type) {
                proof {
                    assert(media_type_mime_types(*self)[i as int] == mime_type@);
                }
                return true;
            }
            i = i + 1;
        }
        false
    }

    /// Get max file size in bytes
    pub fn max_size(&self) -> (r: u64)
        ensures
            r == media_type_max_size(*self),
    {
        match self {
            MediaType::Audio => 16 * 1024 * 1024,
            MediaType::Document => 100 * 1024 * 1024,
            MediaType::Image => 5 * 1024 * 1024,
            MediaType::Sticker => 500 * 1024,
            MediaType::Video => 16 * 1024 * 1024,
        }
    }
}

} // verus!
