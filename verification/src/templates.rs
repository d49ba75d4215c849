//! Types for managing message templates

use vstd::prelude::*;

verus! {

/// Templates list response
#[derive(Debug, Clone)]
pub struct TemplatesResponse {
    /// List of templates
    pub data: Vec<MessageTemplate>,
    /// Paging info
    pub paging: Option<crate::types::Paging>,
}

/// Message template
#[derive(Debug, Clone)]
pub struct MessageTemplate {
    /// Template name
    pub name: String,
    /// Template components
    pub components: Vec<TemplateComponentDef>,
    /// Template language
    pub language: String,
    /// Template status
    pub status: String,
    /// Template category
    pub category: String,
    /// Template ID
    pub id: Option<String>,
}

/// Template component definition
#[derive(Debug, Clone)]
pub struct TemplateComponentDef {
    /// Component type (HEADER, BODY, FOOTER, BUTTONS)
    pub component_type: String,
    /// Component format (for HEADER: TEXT, IMAGE, VIDEO, DOCUMENT)
    pub format: Option<String>,
    /// Text content
    pub text: Option<String>,
    /// Buttons (for BUTTONS type)
    pub buttons: Option<Vec<TemplateButton>>,
    /// Example values for the template
    pub example: Option<TemplateExample>,
}

/// Template button definition
#[derive(Debug, Clone)]
pub struct TemplateButton {
    /// Button type (QUICK_REPLY, URL, PHONE_NUMBER)
    pub button_type: String,
    /// Button text
    pub text: String,
    /// URL (for URL type)
    pub url: Option<String>,
    /// Phone number (for PHONE_NUMBER type)
    pub phone_number: Option<String>,
}

/// Template example values
#[derive(Debug, Clone)]
pub struct TemplateExample {
    /// Header handle (for media headers)
    pub header_handle: Option<Vec<String>>,
    /// Header text example
    pub header_text: Option<Vec<String>>,
    /// Body text examples
    pub body_text: Option<Vec<Vec<String>>>,
}

/// Create template request
#[derive(Debug, Clone)]
pub struct CreateTemplate {
    /// Template name (lowercase, underscores only)
    pub name: String,
    /// Template category (MARKETING, UTILITY, AUTHENTICATION)
    pub category: String,
    /// Language code (e.g., "en_US")
    pub language: String,
    /// Template components
    pub components: Vec<TemplateComponentDef>,
    /// Allow category change (optional)
    pub allow_category_change: Option<bool>,
}

impl CreateTemplate {
    /// Create a new template builder
    pub fn new(name: &str, category: TemplateCategory, language: &str) -> (r: CreateTemplate)
        ensures
            r.name@ == name@,
            r.category@ == template_category_str(category),
            r.language@ == language@,
            r.components@ == Seq::<TemplateComponentDef>::empty(),
            r.allow_category_change is None,
    {
        CreateTemplate {
            name: name.to_owned(),
            category: category.as_str().to_owned(),
            language: language.to_owned(),
            components: Vec::new(),
            allow_category_change: None,
        }
    }

    /// Add a header component
    pub fn with_header(self, format: HeaderFormat, text: Option<String>) -> (r: CreateTemplate)
        ensures
            r.name == self.name,
            r.category == self.category,
            r.language == self.language,
            r.allow_category_change == self.allow_category_change,
            r.components@.len() == self.components@.len() + 1,
            r.components@.subrange(0, self.components@.len() as int) == self.components@,
            r.components@.last().component_type@ == "HEADER"@,
            r.components@.last().format matches Some(f) && f@ == header_format_str(format),
            r.components@.last().text == text,
            r.components@.last().buttons is None,
            r.components@.last().example is None,
    {
        let mut components = self.components;
        components.push(
            TemplateComponentDef {
                component_type: "HEADER".to_owned(),
                format: Some(format.as_str().to_owned()),
                text,
                buttons: None,
                example: None,
            },
        );
        proof {
            assert(components@.subrange(0, components@.len() - 1) =~= self.components@);
        }
        CreateTemplate {
            name: self.name,
            category: self.category,
            language: self.language,
            components,
            allow_category_change: self.allow_category_change,
        }
    }

    /// Add a body component
    pub fn with_body(self, text: &str) -> (r: CreateTemplate)
        ensures
            r.name == self.name,
            r.category == self.category,
            r.language == self.language,
            r.allow_category_change == self.allow_category_change,
            r.components@.len() == self.components@.len() + 1,
            r.components@.subrange(0, self.components@.len() as int) == self.components@,
            r.components@.last().component_type@ == "BODY"@,
            r.components@.last().format is None,
            r.components@.last().text matches Some(t) && t@ == text@,
            r.components@.last().buttons is None,
            r.components@.last().example is None,
    {
        let mut components = self.components;
        components.push(
            TemplateComponentDef {
                component_type: "BODY".to_owned(),
                format: None,
                text: Some(text.to_owned()),
                buttons: None,
                example: None,
            },
        );
        proof {
            assert(components@.subrange(0, components@.len() - 1) =~= self.components@);
        }
        CreateTemplate {
            name: self.name,
            category: self.category,
            language: self.language,
            components,
            allow_category_change: self.allow_category_change,
        }
    }

    /// Add a footer component
    pub fn with_footer(self, text: &str) -> (r: CreateTemplate)
        ensures
            r.name == self.name,
            r.category == self.category,
            r.language == self.language,
            r.allow_category_change == self.allow_category_change,
            r.components@.len() == self.components@.len() + 1,
            r.components@.subrange(0, self.components@.len() as int) == self.components@,
            r.components@.last().component_type@ == "FOOTER"@,
            r.components@.last().format is None,
            r.components@.last().text matches Some(t) && t@ == text@,
            r.components@.last().buttons is None,
            r.components@.last().example is None,
    {
        let mut components = self.components;
        components.push(
            TemplateComponentDef {
                component_type: "FOOTER".to_owned(),
                format: None,
                text: Some(text.to_owned()),
                buttons: None,
                example: None,
            },
        );
        proof {
            assert(components@.subrange(0, components@.len() - 1) =~= self.components@);
        }
        CreateTemplate {
            name: self.name,
            category: self.category,
            language: self.language,
            components,
            allow_category_change: self.allow_category_change,
        }
    }

    /// Add buttons component
    pub fn with_buttons(self, buttons: Vec<TemplateButton>) -> (r: CreateTemplate)
        ensures
            r.name == self.name,
            r.category == self.category,
            r.language == self.language,
            r.allow_category_change == self.allow_category_change,
            r.components@.len() == self.components@.len() + 1,
            r.components@.subrange(0, self.components@.len() as int) == self.components@,
            r.components@.last().component_type@ == "BUTTONS"@,
            r.components@.last().format is None,
            r.components@.last().text is None,
            r.components@.last().buttons == Some(buttons),
            r.components@.last().example is None,
    {
        let mut components = self.components;
        components.push(
            TemplateComponentDef {
                component_type: "BUTTONS".to_owned(),
                format: None,
                text: None,
                buttons: Some(buttons),
                example: None,
            },
        );
        proof {
            assert(components@.subrange(0, components@.len() - 1) =~= self.components@);
        }
        CreateTemplate {
            name: self.name,
            category: self.category,
            language: self.language,
            components,
            allow_category_change: self.allow_category_change,
        }
    }
}

/// Create template response
#[derive(Debug, Clone)]
pub struct CreateTemplateResponse {
    /// Template ID
    pub id: String,
    /// Template status
    pub status: String,
    /// Template category
    pub category: String,
}

/// Template status
#[derive(Debug, Clone, Copy, PartialEq, Eq, Structural)]
pub enum TemplateStatus {
    /// Template is approved
    Approved,
    /// Template is pending review
    Pending,
    /// Template was rejected
    Rejected,
    /// Template is paused
    Paused,
    /// Template is disabled
    Disabled,
}

/// The wire spelling of a template status.
pub open spec fn template_status_str(s: TemplateStatus) -> Seq<char> {
    match s {
        TemplateStatus::Approved => "APPROVED"@,
        TemplateStatus::Pending => "PENDING"@,
        TemplateStatus::Rejected => "REJECTED"@,
        TemplateStatus::Paused => "PAUSED"@,
        TemplateStatus::Disabled => "DISABLED"@,
    }
}

impl TemplateStatus {
    /// Get the string representation
    pub fn as_str(&self) -> (r: &'static str)
        ensures
            r@ == template_status_str(*self),
    {
        match self {
            TemplateStatus::Approved => "APPROVED",
            TemplateStatus::Pending => "PENDING",
            TemplateStatus::Rejected => "REJECTED",
            TemplateStatus::Paused => "PAUSED",
            TemplateStatus::Disabled => "DISABLED",
        }
    }
}

/// Template category
#[derive(Debug, Clone, Copy, PartialEq, Eq, Structural)]
pub enum TemplateCategory {
    /// Marketing messages
    Marketing,
    /// Utility/transactional messages
    Utility,
    /// Authentication messages (OTP)
    Authentication,
}

/// The wire spelling of a template category.
pub open spec fn template_category_str(c: TemplateCategory) -> Seq<char> {
    match c {
        TemplateCategory::Marketing => "MARKETING"@,
        TemplateCategory::Utility => "UTILITY"@,
        TemplateCategory::Authentication => "AUTHENTICATION"@,
    }
}

impl TemplateCategory {
    /// Get the string representation
    pub fn as_str(&self) -> (r: &'static str)
        ensures
            r@ == template_category_str(*self),
    {
        match self {
            TemplateCategory::Marketing => "MARKETING",
            TemplateCategory::Utility => "UTILITY",
            TemplateCategory::Authentication => "AUTHENTICATION",
        }
    }
}

/// Header format
#[derive(Debug, Clone, Copy, PartialEq, Eq, Structural)]
pub enum HeaderFormat {
    /// Text header
    Text,
    /// Image header
    Image,
    /// Video header
    Video,
    /// Document header
    Document,
    /// Location header
    Location,
}

/// The wire spelling of a header format.
pub open spec fn header_format_str(f: HeaderFormat) -> Seq<char> {
    match f {
        HeaderFormat::Text => "TEXT"@,
        HeaderFormat::Image => "IMAGE"@,
        HeaderFormat::Video => "VIDEO"@,
        HeaderFormat::Document => "DOCUMENT"@,
        HeaderFormat::Location => "LOCATION"@,
    }
}

impl HeaderFormat {
    /// Get the string representation
    pub fn as_str(&self) -> (r: &'static str)
        ensures
            r@ == header_format_str(*self),
    {
        match self {
            HeaderFormat::Text => "TEXT",
            HeaderFormat::Image => "IMAGE",
            HeaderFormat::Video => "VIDEO",
            HeaderFormat::Document => "DOCUMENT",
            HeaderFormat::Location => "LOCATION",
        }
    }
}

} // verus!
