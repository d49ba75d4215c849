//! Message content types used when sending WhatsApp messages

use vstd::prelude::*;

verus! {

/// Text content of an outbound message
#[derive(Debug, Clone)]
pub struct TextContent {
    /// Whether to render a URL preview
    pub preview_url: bool,
    /// Message body
    pub body: String,
}

/// Context naming the message being replied to
#[derive(Debug, Clone)]
pub struct Context {
    /// ID of the message being replied to
    pub message_id: String,
}

/// Reaction content of an outbound message
#[derive(Debug, Clone)]
pub struct Reaction {
    /// ID of the message being reacted to
    pub message_id: String,
    /// Emoji reaction (empty string to remove)
    pub emoji: String,
}

/// Media content, by uploaded ID or by link
#[derive(Debug, Clone)]
pub struct MediaContent {
    /// Uploaded media ID
    pub id: Option<String>,
    /// Media link
    pub link: Option<String>,
    /// Caption
    pub caption: Option<String>,
    /// Filename (documents)
    pub filename: Option<String>,
}

/// Contact information for sending contact messages
#[derive(Debug, Clone)]
pub struct Contact {
    /// Contact name
    pub name: ContactName,
    /// Phone numbers
    pub phones: Option<Vec<ContactPhone>>,
    /// Email addresses
    pub emails: Option<Vec<ContactEmail>>,
    /// URLs
    pub urls: Option<Vec<ContactUrl>>,
    /// Addresses
    pub addresses: Option<Vec<ContactAddress>>,
    /// Organization info
    pub org: Option<ContactOrg>,
    /// Birthday (YYYY-MM-DD)
    pub birthday: Option<String>,
}

/// Contact name
#[derive(Debug, Clone)]
pub struct ContactName {
    /// Formatted name
    pub formatted_name: String,
    /// First name
    pub first_name: Option<String>,
    /// Last name
    pub last_name: Option<String>,
    /// Middle name
    pub middle_name: Option<String>,
    /// Suffix
    pub suffix: Option<String>,
    /// Prefix
    pub prefix: Option<String>,
}

/// Contact phone number
#[derive(Debug, Clone)]
pub struct ContactPhone {
    /// Phone number
    pub phone: String,
    /// Phone type
    pub phone_type: Option<String>,
    /// WhatsApp ID
    pub wa_id: Option<String>,
}

/// Contact email address
#[derive(Debug, Clone)]
pub struct ContactEmail {
    /// Email address
    pub email: String,
    /// Email type
    pub email_type: Option<String>,
}

/// Contact URL
#[derive(Debug, Clone)]
pub struct ContactUrl {
    /// URL
    pub url: String,
    /// URL type
    pub url_type: Option<String>,
}

/// Contact address
#[derive(Debug, Clone)]
pub struct ContactAddress {
    /// Street
    pub street: Option<String>,
    /// City
    pub city: Option<String>,
    /// State
    pub state: Option<String>,
    /// ZIP code
    pub zip: Option<String>,
    /// Country
    pub country: Option<String>,
    /// Country code
    pub country_code: Option<String>,
    /// Address type
    pub address_type: Option<String>,
}

/// Contact organization info
#[derive(Debug, Clone)]
pub struct ContactOrg {
    /// Company
    pub company: Option<String>,
    /// Department
    pub department: Option<String>,
    /// Title
    pub title: Option<String>,
}

/// Template reference for an outbound template message
#[derive(Debug, Clone)]
pub struct Template {
    /// Template name
    pub name: String,
    /// Template language
    pub language: Language,
    /// Template components
    pub components: Option<Vec<TemplateComponent>>,
}

/// Template language
#[derive(Debug, Clone)]
pub struct Language {
    /// Language code (e.g., "en_US")
    pub code: String,
}

/// Template component of an outbound template message
#[derive(Debug, Clone)]
pub struct TemplateComponent {
    /// Component type
    pub component_type: String,
    /// Sub-type
    pub sub_type: Option<String>,
    /// Index
    pub index: Option<String>,
    /// Parameters
    pub parameters: Option<Vec<TemplateParameter>>,
}

/// Template parameter
#[derive(Debug, Clone)]
pub struct TemplateParameter {
    /// Parameter type
    pub param_type: String,
    /// Text value
    pub text: Option<String>,
    /// Currency value
    pub currency: Option<Currency>,
    /// Date-time value
    pub date_time: Option<DateTime>,
    /// Image value
    pub image: Option<MediaContent>,
    /// Document value
    pub document: Option<MediaContent>,
    /// Video value
    pub video: Option<MediaContent>,
}

/// Currency parameter value
#[derive(Debug, Clone)]
pub struct Currency {
    /// Fallback text
    pub fallback_value: String,
    /// Currency code
    pub code: String,
    /// Amount times 1000
    pub amount_1000: i64,
}

/// Date-time parameter value
#[derive(Debug, Clone)]
pub struct DateTime {
    /// Fallback text
    pub fallback_value: String,
}

/// Interactive content of an outbound message
#[derive(Debug, Clone)]
pub struct Interactive {
    /// Interactive type ("list", "button", ...)
    pub interactive_type: String,
    /// Header
    pub header: Option<InteractiveHeader>,
    /// Body
    pub body: InteractiveBody,
    /// Footer
    pub footer: Option<InteractiveFooter>,
    /// Action
    pub action: InteractiveAction,
}

impl Interactive {
    /// Assemble the interactive payload of a list message: a text header
    /// when one is given, the body and optional footer verbatim, and an
    /// action carrying the list button text and the sections, nothing
    /// else.
    pub fn list(
        header: Option<&str>,
        body_text: &str,
        footer: Option<&str>,
        button_text: &str,
        sections: Vec<ListSection>,
    ) -> (r: Interactive)
        ensures
            r.interactive_type@ == "list"@,
            header matches Some(h) ==> (r.header matches Some(ih) && ih.header_type@ == "text"@
                && (ih.text matches Some(t) && t@ == h@) && ih.image is None && ih.video is None
                && ih.document is None),
            header is None ==> r.header is None,
            r.body.text@ == body_text@,
            footer matches Some(f) ==> (r.footer matches Some(ft) && ft.text@ == f@),
            footer is None ==> r.footer is None,
            r.action.button matches Some(b) && b@ == button_text@,
            r.action.buttons is None,
            r.action.sections == Some(sections),
            r.action.catalog_id is None,
            r.action.product_retailer_id is None,
    {
        Interactive {
            interactive_type: "list".to_owned(),
            header: text_header(header),
            body: InteractiveBody { text: body_text.to_owned() },
            footer: plain_footer(footer),
            action: InteractiveAction {
                button: Some(button_text.to_owned()),
                buttons: None,
                sections: Some(sections),
                catalog_id: None,
                product_retailer_id: None,
            },
        }
    }

    /// Assemble the interactive payload of a reply-button message: a text
    /// header when one is given, the body and optional footer verbatim,
    /// and an action carrying the buttons, nothing else.
    pub fn buttons(
        header: Option<&str>,
        body_text: &str,
        footer: Option<&str>,
        buttons: Vec<Button>,
    ) -> (r: Interactive)
        ensures
            r.interactive_type@ == "button"@,
            header matches Some(h) ==> (r.header matches Some(ih) && ih.header_type@ == "text"@
                && (ih.text matches Some(t) && t@ == h@) && ih.image is None && ih.video is None
                && ih.document is None),
            header is None ==> r.header is None,
            r.body.text@ == body_text@,
            footer matches Some(f) ==> (r.footer matches Some(ft) && ft.text@ == f@),
            footer is None ==> r.footer is None,
            r.action.button is None,
            r.action.buttons == Some(buttons),
            r.action.sections is None,
            r.action.catalog_id is None,
            r.action.product_retailer_id is None,
    {
        Interactive {
            interactive_type: "button".to_owned(),
            header: text_header(header),
            body: InteractiveBody { text: body_text.to_owned() },
            footer: plain_footer(footer),
            action: InteractiveAction {
                button: None,
                buttons: Some(buttons),
                sections: None,
                catalog_id: None,
                product_retailer_id: None,
            },
        }
    }
}

/// A text header for an interactive message, when text is given.
fn text_header(header: Option<&str>) -> (r: Option<InteractiveHeader>)
    ensures
        header matches Some(h) ==> (r matches Some(ih) && ih.header_type@ == "text"@ && (ih.text
            matches Some(t) && t@ == h@) && ih.image is None && ih.video is None
            && ih.document is None),
        header is None ==> r is None,
{
    match header {
        Some(h) => Some(
            InteractiveHeader {
                header_type: "text".to_owned(),
                text: Some(h.to_owned()),
                image: None,
                video: None,
                document: None,
            },
        ),
        None => None,
    }
}

/// A plain footer for an interactive message, when text is given.
fn plain_footer(footer: Option<&str>) -> (r: Option<InteractiveFooter>)
    ensures
        footer matches Some(f) ==> (r matches Some(ft) && ft.text@ == f@),
        footer is None ==> r is None,
{
    match footer {
        Some(f) => Some(InteractiveFooter { text: f.to_owned() }),
        None => None,
    }
}

/// Interactive message header
#[derive(Debug, Clone)]
pub struct InteractiveHeader {
    /// Header type
    pub header_type: String,
    /// Text header
    pub text: Option<String>,
    /// Image header
    pub image: Option<MediaContent>,
    /// Video header
    pub video: Option<MediaContent>,
    /// Document header
    pub document: Option<MediaContent>,
}

/// Interactive message body
#[derive(Debug, Clone)]
pub struct InteractiveBody {
    /// Body text
    pub text: String,
}

/// Interactive message footer
#[derive(Debug, Clone)]
pub struct InteractiveFooter {
    /// Footer text
    pub text: String,
}

/// Interactive message action
#[derive(Debug, Clone)]
pub struct InteractiveAction {
    /// List button text
    pub button: Option<String>,
    /// Reply buttons
    pub buttons: Option<Vec<Button>>,
    /// List sections
    pub sections: Option<Vec<ListSection>>,
    /// Catalog ID
    pub catalog_id: Option<String>,
    /// Product retailer ID
    pub product_retailer_id: Option<String>,
}

/// Reply button of an interactive button message
#[derive(Debug, Clone)]
pub struct Button {
    /// Button type (always "reply")
    pub button_type: String,
    /// Reply payload
    pub reply: ButtonReply,
}

/// Reply payload of a button
#[derive(Debug, Clone)]
pub struct ButtonReply {
    /// Button ID
    pub id: String,
    /// Button title
    pub title: String,
}

impl Button {
    /// Create a new reply button
    pub fn reply(id: &str, title: &str) -> (r: Button)
        ensures
            r.button_type@ == "reply"@,
            r.reply.id@ == id@,
            r.reply.title@ == title@,
    {
        Button {
            button_type: "reply".to_owned(),
            reply: ButtonReply { id: id.to_owned(), title: title.to_owned() },
        }
    }
}

/// Section of an interactive list message
#[derive(Debug, Clone)]
pub struct ListSection {
    /// Section title
    pub title: String,
    /// Rows
    pub rows: Vec<ListRow>,
}

/// Row of an interactive list message
#[derive(Debug, Clone)]
pub struct ListRow {
    /// Row ID
    pub id: String,
    /// Row title
    pub title: String,
    /// Row description
    pub description: Option<String>,
}

impl ListRow {
    /// Create a new list row
    pub fn new(id: &str, title: &str) -> (r: ListRow)
        ensures
            r.id@ == id@,
            r.title@ == title@,
            r.description is None,
    {
        ListRow { id: id.to_owned(), title: title.to_owned(), description: None }
    }

    /// Add description to the row
    pub fn with_description(self, description: &str) -> (r: ListRow)
        ensures
            r.id == self.id,
            r.title == self.title,
            r.description matches Some(d) && d@ == description@,
    {
        ListRow { id: self.id, title: self.title, description: Some(description.to_owned()) }
    }
}

} // verus!
