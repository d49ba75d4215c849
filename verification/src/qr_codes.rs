//! Types for generating and managing QR codes

use vstd::prelude::*;

verus! {

/// QR code image format
#[derive(Debug, Clone, Copy, PartialEq, Eq, Structural)]
pub enum QrImageFormat {
    /// PNG format
    Png,
    /// SVG format
    Svg,
}

/// The wire spelling of a QR image format.
pub open spec fn qr_image_format_str(f: QrImageFormat) -> Seq<char> {
    match f {
        QrImageFormat::Png => "PNG"@,
        QrImageFormat::Svg => "SVG"@,
    }
}

impl QrImageFormat {
    /// Get the string representation
    pub fn as_str(&self) -> (r: &'static str)
        ensures
            r@ == qr_image_format_str(*self),
    {
        match self {
            QrImageFormat::Png => "PNG",
            QrImageFormat::Svg => "SVG",
        }
    }
}

/// QR code response
#[derive(Debug, Clone)]
pub struct QrCodeResponse {
    /// QR code ID
    pub code: String,
    /// Pre-filled message
    pub prefilled_message: String,
    /// Deep link URL
    pub deep_link_url: String,
    /// QR image URL (if requested)
    pub qr_image_url: Option<String>,
}

/// QR codes list response
#[derive(Debug, Clone)]
pub struct QrCodesListResponse {
    /// List of QR codes
    pub data: Vec<QrCode>,
}

/// QR code details
#[derive(Debug, Clone)]
pub struct QrCode {
    /// QR code ID
    pub code: String,
    /// Pre-filled message
    pub prefilled_message: String,
    /// Deep link URL
    pub deep_link_url: String,
}

} // verus!
