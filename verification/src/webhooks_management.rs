//! Types for managing webhook subscriptions

use vstd::prelude::*;

verus! {

/// Webhook subscription fields
#[derive(Debug, Clone, Copy, PartialEq, Eq, Structural)]
pub enum SubscriptionField {
    /// Message events
    Messages,
    /// Template status updates
    MessageTemplateStatusUpdate,
    /// Template quality updates
    MessageTemplateQualityUpdate,
    /// Account alerts
    AccountAlerts,
    /// Account review updates
    AccountReviewUpdate,
    /// Account updates
    AccountUpdate,
    /// Business capability updates
    BusinessCapabilityUpdate,
    /// Phone number name updates
    PhoneNumberNameUpdate,
    /// Phone number quality updates
    PhoneNumberQualityUpdate,
    /// Security events
    Security,
    /// Flow events
    Flows,
}

/// The wire spelling of a subscription field.
pub open spec fn subscription_field_str(f: SubscriptionField) -> Seq<char> {
    match f {
        SubscriptionField::Messages => "messages"@,
        SubscriptionField::MessageTemplateStatusUpdate => "message_template_status_update"@,
        SubscriptionField::MessageTemplateQualityUpdate => "message_template_quality_update"@,
        SubscriptionField::AccountAlerts => "account_alerts"@,
        SubscriptionField::AccountReviewUpdate => "account_review_update"@,
        SubscriptionField::AccountUpdate => "account_update"@,
        SubscriptionField::BusinessCapabilityUpdate => "business_capability_update"@,
        SubscriptionField::PhoneNumberNameUpdate => "phone_number_name_update"@,
        SubscriptionField::PhoneNumberQualityUpdate => "phone_number_quality_update"@,
        SubscriptionField::Security => "security"@,
        SubscriptionField::Flows => "flows"@,
    }
}

impl SubscriptionField {
    /// Get the string representation
    pub fn as_str(&self) -> (r: &'static str)
        ensures
            r@ == subscription_field_str(*self),
    {
        match self {
            SubscriptionField::Messages => "messages",
            SubscriptionField::MessageTemplateStatusUpdate => "message_template_status_update",
            SubscriptionField::MessageTemplateQualityUpdate => "message_template_quality_update",
            SubscriptionField::AccountAlerts => "account_alerts",
            SubscriptionField::AccountReviewUpdate => "account_review_update",
            SubscriptionField::AccountUpdate => "account_update",
            SubscriptionField::BusinessCapabilityUpdate => "business_capability_update",
            SubscriptionField::PhoneNumberNameUpdate => "phone_number_name_update",
            SubscriptionField::PhoneNumberQualityUpdate => "phone_number_quality_update",
            SubscriptionField::Security => "security",
            SubscriptionField::Flows => "flows",
        }
    }
}

/// Webhook subscriptions response
#[derive(Debug, Clone)]
pub struct WebhookSubscriptionsResponse {
    /// List of subscriptions
    pub data: Vec<WebhookSubscription>,
}

/// Webhook subscription info
#[derive(Debug, Clone)]
pub struct WebhookSubscription {
    /// Object type (e.g., "whatsapp_business_account")
    pub object: String,
    /// Callback URL
    pub callback_url: String,
    /// Active status
    pub active: bool,
    /// Subscribed fields
    pub fields: Vec<SubscribedField>,
}

/// Subscribed field info
#[derive(Debug, Clone)]
pub struct SubscribedField {
    /// Field name
    pub name: String,
    /// API version
    pub version: Option<String>,
}

} // verus!
