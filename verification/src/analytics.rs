//! Types for conversation, template and phone number analytics

use vstd::prelude::*;

verus! {

/// Time granularity for analytics
#[derive(Debug, Clone, Copy, PartialEq, Eq, Structural)]
pub enum Granularity {
    /// 30-minute intervals
    HalfHour,
    /// Daily intervals
    Daily,
    /// Monthly intervals
    Monthly,
}

/// The wire spelling of a granularity.
pub open spec fn granularity_str(g: Granularity) -> Seq<char> {
    match g {
        Granularity::HalfHour => "HALF_HOUR"@,
        Granularity::Daily => "DAILY"@,
        Granularity::Monthly => "MONTHLY"@,
    }
}

impl Granularity {
    /// Get the string representation
    pub fn as_str(&self) -> (r: &'static str)
        ensures
            r@ == granularity_str(*self),
    {
        match self {
            Granularity::HalfHour => "HALF_HOUR",
            Granularity::Daily => "DAILY",
            Granularity::Monthly => "MONTHLY",
        }
    }
}

/// Template analytics response
#[derive(Debug, Clone)]
pub struct TemplateAnalyticsResponse {
    /// Analytics data
    pub template_analytics: TemplateAnalytics,
}

/// Template analytics
#[derive(Debug, Clone)]
pub struct TemplateAnalytics {
    /// Data points
    pub data: Vec<TemplateDataPoint>,
}

/// Template data point
#[derive(Debug, Clone)]
pub struct TemplateDataPoint {
    /// Data point start timestamp
    pub start: i64,
    /// Data point end timestamp
    pub end: i64,
    /// Template ID
    pub template_id: String,
    /// Sent count
    pub sent: i64,
    /// Delivered count
    pub delivered: i64,
    /// Read count
    pub read: i64,
    /// Clicked count
    pub clicked: i64,
}

/// Phone number analytics response
#[derive(Debug, Clone)]
pub struct PhoneNumberAnalyticsResponse {
    /// Analytics data
    pub analytics: PhoneNumberAnalytics,
}

/// Phone number analytics
#[derive(Debug, Clone)]
pub struct PhoneNumberAnalytics {
    /// Phone number
    pub phone_number: String,
    /// Data points
    pub data: Vec<PhoneNumberDataPoint>,
}

/// Phone number data point
#[derive(Debug, Clone)]
pub struct PhoneNumberDataPoint {
    /// Data point start timestamp
    pub start: i64,
    /// Data point end timestamp
    pub end: i64,
    /// Sent count
    pub sent: i64,
    /// Delivered count
    pub delivered: i64,
}

} // verus!
