//! Common types used across the WhatsApp Cloud API SDK

use vstd::prelude::*;

verus! {

/// API version for the Graph API
pub const DEFAULT_API_VERSION: &'static str = "v21.0";

/// Base URL for the Graph API
pub const GRAPH_API_URL: &'static str = "https://graph.facebook.com";

/// Relies on `<str as PartialEq>::eq`: two string slices are equal exactly
/// when they hold the same characters.
#[verifier::external_body]
pub(crate) fn str_eq(a: &str, b: &str) -> (r: bool)
    ensures
        r == (a@ == b@),
{
    a == b
}

/// Message response from the API
#[derive(Debug, Clone)]
pub struct MessageResponse {
    /// Messaging product (always "whatsapp")
    pub messaging_product: String,
    /// Contact information
    pub contacts: Vec<ContactInfo>,
    /// Message IDs
    pub messages: Vec<MessageInfo>,
}

/// Contact info in message response
#[derive(Debug, Clone)]
pub struct ContactInfo {
    /// Input phone number
    pub input: String,
    /// WhatsApp ID
    pub wa_id: String,
}

/// Message info in response
#[derive(Debug, Clone)]
pub struct MessageInfo {
    /// Message ID
    pub id: String,
    /// Message status (optional, only in some responses)
    pub message_status: Option<String>,
}

/// Success response
#[derive(Debug, Clone)]
pub struct SuccessResponse {
    /// Success flag
    pub success: bool,
}

/// Phone number info
#[derive(Debug, Clone)]
pub struct PhoneNumber {
    /// Verified business name
    pub verified_name: String,
    /// Display phone number
    pub display_phone_number: String,
    /// Phone number ID
    pub id: String,
    /// Quality rating (GREEN, YELLOW, RED, NA)
    pub quality_rating: String,
    /// Code verification status
    pub code_verification_status: Option<String>,
    /// Platform type
    pub platform_type: Option<String>,
    /// Throughput level
    pub throughput: Option<Throughput>,
}

/// Throughput info
#[derive(Debug, Clone)]
pub struct Throughput {
    /// Throughput level
    pub level: String,
}

/// Phone numbers list response
#[derive(Debug, Clone)]
pub struct PhoneNumbersResponse {
    /// List of phone numbers
    pub data: Vec<PhoneNumber>,
    /// Paging info
    pub paging: Option<Paging>,
}

/// Paging info
#[derive(Debug, Clone)]
pub struct Paging {
    /// Cursors
    pub cursors: Option<Cursors>,
    /// Next page URL
    pub next: Option<String>,
    /// Previous page URL
    pub previous: Option<String>,
}

/// Cursors for pagination
#[derive(Debug, Clone)]
pub struct Cursors {
    /// Before cursor
    pub before: String,
    /// After cursor
    pub after: String,
}

/// WhatsApp Business Account (WABA)
#[derive(Debug, Clone)]
pub struct WhatsAppBusinessAccount {
    /// WABA ID
    pub id: String,
    /// Account name
    pub name: String,
    /// Timezone ID
    pub timezone_id: String,
    /// Message template namespace
    pub message_template_namespace: String,
}

/// WABA list response
#[derive(Debug, Clone)]
pub struct WabaListResponse {
    /// List of WABAs
    pub data: Vec<WhatsAppBusinessAccount>,
    /// Paging info
    pub paging: Option<Paging>,
}

/// Quality rating enum
#[derive(Debug, Clone, Copy, PartialEq, Eq, Structural)]
pub enum QualityRating {
    /// High quality
    Green,
    /// Medium quality
    Yellow,
    /// Low quality
    Red,
    /// Not available
    Na,
}

/// The wire spelling of a quality rating.
pub open spec fn quality_rating_str(q: QualityRating) -> Seq<char> {
    match q {
        QualityRating::Green => "GREEN"@,
        QualityRating::Yellow => "YELLOW"@,
        QualityRating::Red => "RED"@,
        QualityRating::Na => "NA"@,
    }
}

impl QualityRating {
    /// The string representation used on the wire.
    pub fn as_str(&self) -> (r: &'static str)
        ensures
            r@ == quality_rating_str(*self),
    {
        match self {
            QualityRating::Green => "GREEN",
            QualityRating::Yellow => "YELLOW",
            QualityRating::Red => "RED",
            QualityRating::Na => "NA",
        }
    }
}

} // verus!
