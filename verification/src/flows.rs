//! Types for WhatsApp Flows

use vstd::prelude::*;

verus! {

/// Flow action when a flow message button is tapped
#[derive(Debug, Clone, Copy, PartialEq, Eq, Structural)]
pub enum FlowAction {
    /// Navigate to a screen
    Navigate,
    /// Exchange data
    DataExchange,
}

/// The wire spelling of a flow action.
pub open spec fn flow_action_str(a: FlowAction) -> Seq<char> {
    match a {
        FlowAction::Navigate => "navigate"@,
        FlowAction::DataExchange => "data_exchange"@,
    }
}

impl FlowAction {
    /// Get the string representation
    pub fn as_str(&self) -> (r: &'static str)
        ensures
            r@ == flow_action_str(*self),
    {
        match self {
            FlowAction::Navigate => "navigate",
            FlowAction::DataExchange => "data_exchange",
        }
    }
}

/// Flow category
#[derive(Debug, Clone, Copy, PartialEq, Eq, Structural)]
pub enum FlowCategory {
    /// Sign-up flows
    SignUp,
    /// Sign-in flows
    SignIn,
    /// Appointment booking flows
    Appointment,
    /// Lead generation flows
    LeadGeneration,
    /// Contact-us flows
    ContactUs,
    /// Customer support flows
    CustomerSupport,
    /// Survey flows
    Survey,
    /// Other flows
    Other,
}

/// The wire spelling of a flow category.
pub open spec fn flow_category_str(c: FlowCategory) -> Seq<char> {
    match c {
        FlowCategory::SignUp => "SIGN_UP"@,
        FlowCategory::SignIn => "SIGN_IN"@,
        FlowCategory::Appointment => "APPOINTMENT_BOOKING"@,
        FlowCategory::LeadGeneration => "LEAD_GENERATION"@,
        FlowCategory::ContactUs => "CONTACT_US"@,
        FlowCategory::CustomerSupport => "CUSTOMER_SUPPORT"@,
        FlowCategory::Survey => "SURVEY"@,
        FlowCategory::Other => "OTHER"@,
    }
}

impl FlowCategory {
    /// Get the string representation
    pub fn as_str(&self) -> (r: &'static str)
        ensures
            r@ == flow_category_str(*self),
    {
        match self {
            FlowCategory::SignUp => "SIGN_UP",
            FlowCategory::SignIn => "SIGN_IN",
            FlowCategory::Appointment => "APPOINTMENT_BOOKING",
            FlowCategory::LeadGeneration => "LEAD_GENERATION",
            FlowCategory::ContactUs => "CONTACT_US",
            FlowCategory::CustomerSupport => "CUSTOMER_SUPPORT",
            FlowCategory::Survey => "SURVEY",
            FlowCategory::Other => "OTHER",
        }
    }
}

/// Flow list response
#[derive(Debug, Clone)]
pub struct FlowsListResponse {
    /// List of flows
    pub data: Vec<Flow>,
    /// Paging info
    pub paging: Option<Paging>,
}

/// Flow details
#[derive(Debug, Clone)]
pub struct Flow {
    /// Flow ID
    pub id: String,
    /// Flow name
    pub name: String,
    /// Flow status
    pub status: String,
    /// Flow categories
    pub categories: Vec<String>,
    /// Validation errors
    pub validation_errors: Option<Vec<FlowValidationError>>,
    /// JSON version
    pub json_version: Option<String>,
    /// Data API version
    pub data_api_version: Option<String>,
    /// Endpoint URI
    pub endpoint_uri: Option<String>,
    /// Preview info
    pub preview: Option<FlowPreview>,
}

/// Flow validation error
#[derive(Debug, Clone)]
pub struct FlowValidationError {
    /// Error message
    pub error: String,
    /// Error type
    pub error_type: String,
    /// Line start
    pub line_start: Option<i32>,
    /// Line end
    pub line_end: Option<i32>,
    /// Column start
    pub column_start: Option<i32>,
    /// Column end
    pub column_end: Option<i32>,
}

/// Flow preview
#[derive(Debug, Clone)]
pub struct FlowPreview {
    /// Preview URL
    pub preview_url: String,
    /// Expires at
    pub expires_at: Option<String>,
}

/// Create flow response
#[derive(Debug, Clone)]
pub struct CreateFlowResponse {
    /// Created flow ID
    pub id: String,
}

/// Update flow response
#[derive(Debug, Clone)]
pub struct UpdateFlowResponse {
    /// Success status
    pub success: bool,
    /// Validation errors
    pub validation_errors: Option<Vec<FlowValidationError>>,
}

/// Flow preview response
#[derive(Debug, Clone)]
pub struct FlowPreviewResponse {
    /// Preview URL
    pub preview_url: String,
    /// Expires at
    pub expires_at: Option<String>,
}

/// Paging info
#[derive(Debug, Clone)]
pub struct Paging {
    /// Cursors
    pub cursors: Option<PagingCursors>,
}

/// Paging cursors
#[derive(Debug, Clone)]
pub struct PagingCursors {
    /// Before cursor
    pub before: Option<String>,
    /// After cursor
    pub after: Option<String>,
}

} // verus!
