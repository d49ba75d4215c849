//! Types for WhatsApp Business Account management

use vstd::prelude::*;

verus! {

/// Webhook fields that can be subscribed
#[derive(Debug, Clone, Copy, PartialEq, Eq, Structural)]
pub enum WebhookField {
    /// Message events
    Messages,
    /// Template status updates
    MessageTemplateStatusUpdate,
    /// Template quality updates
    MessageTemplateQualityUpdate,
    /// Account alerts
    AccountAlerts,
    /// Account review updates
    AccountReviewUpdate,
    /// Account updates
    AccountUpdate,
    /// Business capability updates
    BusinessCapabilityUpdate,
    /// Phone number name updates
    PhoneNumberNameUpdate,
    /// Phone number quality updates
    PhoneNumberQualityUpdate,
    /// Security events
    Security,
}

/// The wire spelling of a webhook field.
pub open spec fn webhook_field_str(f: WebhookField) -> Seq<char> {
    match f {
        WebhookField::Messages => "messages"@,
        WebhookField::MessageTemplateStatusUpdate => "message_template_status_update"@,
        WebhookField::MessageTemplateQualityUpdate => "message_template_quality_update"@,
        WebhookField::AccountAlerts => "account_alerts"@,
        WebhookField::AccountReviewUpdate => "account_review_update"@,
        WebhookField::AccountUpdate => "account_update"@,
        WebhookField::BusinessCapabilityUpdate => "business_capability_update"@,
        WebhookField::PhoneNumberNameUpdate => "phone_number_name_update"@,
        WebhookField::PhoneNumberQualityUpdate => "phone_number_quality_update"@,
        WebhookField::Security => "security"@,
    }
}

impl WebhookField {
    /// Get the string representation
    pub fn as_str(&self) -> (r: &'static str)
        ensures
            r@ == webhook_field_str(*self),
    {
        match self {
            WebhookField::Messages => "messages",
            WebhookField::MessageTemplateStatusUpdate => "message_template_status_update",
            WebhookField::MessageTemplateQualityUpdate => "message_template_quality_update",
            WebhookField::AccountAlerts => "account_alerts",
            WebhookField::AccountReviewUpdate => "account_review_update",
            WebhookField::AccountUpdate => "account_update",
            WebhookField::BusinessCapabilityUpdate => "business_capability_update",
            WebhookField::PhoneNumberNameUpdate => "phone_number_name_update",
            WebhookField::PhoneNumberQualityUpdate => "phone_number_quality_update",
            WebhookField::Security => "security",
        }
    }
}

/// WABA details response
#[derive(Debug, Clone)]
pub struct WabaDetails {
    /// WABA ID
    pub id: String,
    /// WABA name
    pub name: Option<String>,
    /// Timezone ID
    pub timezone_id: Option<String>,
    /// Message template namespace
    pub message_template_namespace: Option<String>,
    /// Account review status
    pub account_review_status: Option<String>,
    /// Business verification status
    pub business_verification_status: Option<String>,
    /// Primary funding ID
    pub primary_funding_id: Option<String>,
    /// Purchase order number
    pub purchase_order_number: Option<String>,
}

/// Subscribed apps response
#[derive(Debug, Clone)]
pub struct SubscribedAppsResponse {
    /// List of subscribed apps
    pub data: Vec<SubscribedApp>,
}

/// Subscribed app info
#[derive(Debug, Clone)]
pub struct SubscribedApp {
    /// App ID
    pub id: String,
    /// App name
    pub name: Option<String>,
    /// Subscribed fields
    pub subscribed_fields: Vec<String>,
}

/// Phone numbers response
#[derive(Debug, Clone)]
pub struct PhoneNumbersResponse {
    /// List of phone numbers
    pub data: Vec<WabaPhoneNumber>,
}

/// Phone number info
#[derive(Debug, Clone)]
pub struct WabaPhoneNumber {
    /// Phone number ID
    pub id: String,
    /// Display phone number
    pub display_phone_number: String,
    /// Verified name
    pub verified_name: Option<String>,
    /// Quality rating
    pub quality_rating: Option<String>,
}

/// Assigned users response
#[derive(Debug, Clone)]
pub struct AssignedUsersResponse {
    /// List of assigned users
    pub data: Vec<AssignedUser>,
}

/// Assigned user info
#[derive(Debug, Clone)]
pub struct AssignedUser {
    /// User ID
    pub id: String,
    /// User name
    pub name: Option<String>,
    /// User tasks
    pub tasks: Vec<String>,
}

/// System users response
#[derive(Debug, Clone)]
pub struct SystemUsersResponse {
    /// List of system users
    pub data: Vec<SystemUser>,
}

/// System user info
#[derive(Debug, Clone)]
pub struct SystemUser {
    /// User ID
    pub id: String,
    /// User name
    pub name: Option<String>,
    /// User role
    pub role: Option<String>,
}

/// WABA templates response
#[derive(Debug, Clone)]
pub struct WabaTemplatesResponse {
    /// List of templates
    pub data: Vec<WabaTemplate>,
    /// Paging info
    pub paging: Option<Paging>,
}

/// WABA template info
#[derive(Debug, Clone)]
pub struct WabaTemplate {
    /// Template ID
    pub id: String,
    /// Template name
    pub name: String,
    /// Template status
    pub status: String,
    /// Template category
    pub category: Option<String>,
    /// Template language
    pub language: Option<String>,
}

/// Paging info
#[derive(Debug, Clone)]
pub struct Paging {
    /// Cursors
    pub cursors: Option<PagingCursors>,
    /// Next page URL
    pub next: Option<String>,
}

/// Paging cursors
#[derive(Debug, Clone)]
pub struct PagingCursors {
    /// Before cursor
    pub before: Option<String>,
    /// After cursor
    pub after: Option<String>,
}

} // verus!
