//! Webhook types for receiving WhatsApp events
//!
//! This module holds the inbound half of the boundary layer: the typed
//! webhook envelope, the classifier that normalizes an envelope into an
//! ordered sequence of domain events, and the authenticator that checks a
//! payload's signature header against a shared secret.

use vstd::prelude::*;
use vstd::string::StringSliceAdditionalSpecFns;
use crate::json;
use crate::error::Error;

verus! {

/// Root webhook payload
#[derive(Debug, Clone)]
pub struct WebhookPayload {
    /// Object type (always "whatsapp_business_account")
    pub object: String,
    /// Entry array containing the webhook data
    pub entry: Vec<WebhookEntry>,
}

/// Webhook entry
#[derive(Debug, Clone)]
pub struct WebhookEntry {
    /// WhatsApp Business Account ID
    pub id: String,
    /// Array of changes
    pub changes: Vec<WebhookChange>,
}

/// Webhook change object
#[derive(Debug, Clone)]
pub struct WebhookChange {
    /// Value containing the actual webhook data
    pub value: WebhookValue,
    /// Field name (usually "messages")
    pub field: String,
}

/// Webhook value containing all possible notification types
#[derive(Debug, Clone)]
pub struct WebhookValue {
    /// Messaging product (always "whatsapp")
    pub messaging_product: String,
    /// Metadata about the business phone number
    pub metadata: WebhookMetadata,
    /// Contact information of message senders
    pub contacts: Option<Vec<WebhookContact>>,
    /// Received messages
    pub messages: Option<Vec<WebhookMessage>>,
    /// Message status updates
    pub statuses: Option<Vec<WebhookStatus>>,
    /// Errors
    pub errors: Option<Vec<WebhookError>>,
}

/// Metadata about the business phone number
#[derive(Debug, Clone)]
pub struct WebhookMetadata {
    /// Display phone number
    pub display_phone_number: String,
    /// Phone number ID
    pub phone_number_id: String,
}

/// Contact information from webhook
#[derive(Debug, Clone)]
pub struct WebhookContact {
    /// Contact's profile
    pub profile: WebhookProfile,
    /// WhatsApp ID
    pub wa_id: String,
}

/// Contact profile
#[derive(Debug, Clone)]
pub struct WebhookProfile {
    /// Contact's push name
    pub name: String,
}

/// Incoming message
#[derive(Debug, Clone)]
pub struct WebhookMessage {
    /// Sender's phone number
    pub from: String,
    /// Message ID
    pub id: String,
    /// Timestamp
    pub timestamp: String,
    /// Message type
    pub message_type: String,
    /// Text message content
    pub text: Option<TextMessage>,
    /// Image message content
    pub image: Option<MediaMessage>,
    /// Video message content
    pub video: Option<MediaMessage>,
    /// Audio message content
    pub audio: Option<MediaMessage>,
    /// Document message content
    pub document: Option<DocumentMessage>,
    /// Sticker message content
    pub sticker: Option<MediaMessage>,
    /// Location message content
    pub location: Option<LocationMessage>,
    /// Contact message content
    pub contacts: Option<Vec<ContactMessage>>,
    /// Reaction message content
    pub reaction: Option<ReactionMessage>,
    /// Interactive message response
    pub interactive: Option<InteractiveResponse>,
    /// Button response
    pub button: Option<ButtonResponse>,
    /// Context (for replies)
    pub context: Option<MessageContext>,
    /// Identity information
    pub identity: Option<IdentityInfo>,
    /// Referral information (from ads)
    pub referral: Option<ReferralInfo>,
    /// Order information
    pub order: Option<OrderInfo>,
    /// System message
    pub system: Option<SystemMessage>,
    /// Errors in the message
    pub errors: Option<Vec<WebhookError>>,
}

/// Text message content
#[derive(Debug, Clone)]
pub struct TextMessage {
    /// Message body
    pub body: String,
}

/// Media message content (image, video, audio, sticker)
#[derive(Debug, Clone)]
pub struct MediaMessage {
    /// Media ID
    pub id: String,
    /// MIME type
    pub mime_type: String,
    /// SHA256 hash
    pub sha256: Option<String>,
    /// Caption (for images and videos)
    pub caption: Option<String>,
}

/// Document message content
#[derive(Debug, Clone)]
pub struct DocumentMessage {
    /// Document ID
    pub id: String,
    /// MIME type
    pub mime_type: String,
    /// SHA256 hash
    pub sha256: Option<String>,
    /// Filename
    pub filename: Option<String>,
    /// Caption
    pub caption: Option<String>,
}

/// Location message content.  Coordinates are carried as the decimal text
/// of the JSON numbers they arrived as.
#[derive(Debug, Clone)]
pub struct LocationMessage {
    /// Latitude, as decimal text
    pub latitude: String,
    /// Longitude, as decimal text
    pub longitude: String,
    /// Location name
    pub name: Option<String>,
    /// Location address
    pub address: Option<String>,
}

/// Contact message content
#[derive(Debug, Clone)]
pub struct ContactMessage {
    /// Contact name
    pub name: ContactName,
    /// Phone numbers
    pub phones: Option<Vec<ContactPhone>>,
}

/// Contact name
#[derive(Debug, Clone)]
pub struct ContactName {
    /// Formatted name
    pub formatted_name: String,
    /// First name
    pub first_name: Option<String>,
    /// Last name
    pub last_name: Option<String>,
}

/// Contact phone
#[derive(Debug, Clone)]
pub struct ContactPhone {
    /// Phone number
    pub phone: String,
    /// Phone type
    pub phone_type: Option<String>,
    /// WhatsApp ID
    pub wa_id: Option<String>,
}

/// Reaction message content
#[derive(Debug, Clone)]
pub struct ReactionMessage {
    /// ID of the message being reacted to
    pub message_id: String,
    /// Emoji reaction (empty string to remove)
    pub emoji: String,
}

/// Interactive message response
#[derive(Debug, Clone)]
pub struct InteractiveResponse {
    /// Response type
    pub response_type: String,
    /// Button reply
    pub button_reply: Option<ButtonReply>,
    /// List reply
    pub list_reply: Option<ListReply>,
}

/// Button reply
#[derive(Debug, Clone)]
pub struct ButtonReply {
    /// Button ID
    pub id: String,
    /// Button title
    pub title: String,
}

/// List reply
#[derive(Debug, Clone)]
pub struct ListReply {
    /// Row ID
    pub id: String,
    /// Row title
    pub title: String,
    /// Row description
    pub description: Option<String>,
}

/// Quick reply button response
#[derive(Debug, Clone)]
pub struct ButtonResponse {
    /// Button text
    pub text: String,
    /// Button payload
    pub payload: String,
}

/// Message context (for replies)
#[derive(Debug, Clone)]
pub struct MessageContext {
    /// ID of the message being replied to
    pub message_id: String,
    /// Sender of the original message
    pub from: Option<String>,
    /// Whether this was forwarded
    pub forwarded: Option<bool>,
    /// How many times forwarded
    pub frequently_forwarded: Option<bool>,
}

/// Identity information (for identity changes)
#[derive(Debug, Clone)]
pub struct IdentityInfo {
    /// Whether user acknowledged identity change
    pub acknowledged: bool,
    /// When the identity was created
    pub created_timestamp: String,
    /// Identity hash
    pub hash: String,
}

/// Referral information (from Click to WhatsApp ads)
#[derive(Debug, Clone)]
pub struct ReferralInfo {
    /// Source URL
    pub source_url: String,
    /// Source type
    pub source_type: String,
    /// Source ID
    pub source_id: String,
    /// Headline
    pub headline: Option<String>,
    /// Body text
    pub body: Option<String>,
    /// Media type
    pub media_type: Option<String>,
    /// Image URL
    pub image_url: Option<String>,
    /// Video URL
    pub video_url: Option<String>,
    /// Thumbnail URL
    pub thumbnail_url: Option<String>,
}

/// Order information
#[derive(Debug, Clone)]
pub struct OrderInfo {
    /// Catalog ID
    pub catalog_id: String,
    /// Product items
    pub product_items: Vec<ProductItem>,
    /// Order text
    pub text: Option<String>,
}

/// Product item in an order
#[derive(Debug, Clone)]
pub struct ProductItem {
    /// Product retailer ID
    pub product_retailer_id: String,
    /// Quantity
    pub quantity: i32,
    /// Item price
    pub item_price: String,
    /// Currency
    pub currency: String,
}

/// System message
#[derive(Debug, Clone)]
pub struct SystemMessage {
    /// System message body
    pub body: Option<String>,
    /// Identity info (for identity changes)
    pub identity: Option<String>,
    /// New WhatsApp ID
    pub new_wa_id: Option<String>,
    /// System message type
    pub system_type: Option<String>,
    /// Customer info
    pub customer: Option<String>,
}

/// Message status update
#[derive(Debug, Clone)]
pub struct WebhookStatus {
    /// Message ID
    pub id: String,
    /// Recipient's phone number
    pub recipient_id: String,
    /// Status (sent, delivered, read, failed)
    pub status: String,
    /// Timestamp
    pub timestamp: String,
    /// Conversation info
    pub conversation: Option<ConversationInfo>,
    /// Pricing info
    pub pricing: Option<PricingInfo>,
    /// Errors (for failed status)
    pub errors: Option<Vec<WebhookError>>,
}

/// Conversation information
#[derive(Debug, Clone)]
pub struct ConversationInfo {
    /// Conversation ID
    pub id: String,
    /// Conversation origin
    pub origin: Option<ConversationOrigin>,
    /// Expiration timestamp
    pub expiration_timestamp: Option<String>,
}

/// Conversation origin
#[derive(Debug, Clone)]
pub struct ConversationOrigin {
    /// Origin type (user_initiated, business_initiated, referral_conversion)
    pub origin_type: String,
}

/// Pricing information
#[derive(Debug, Clone)]
pub struct PricingInfo {
    /// Whether billable
    pub billable: bool,
    /// Pricing model
    pub pricing_model: String,
    /// Pricing category
    pub category: String,
}

/// Webhook error
#[derive(Debug, Clone)]
pub struct WebhookError {
    /// Error code
    pub code: i32,
    /// Error title
    pub title: Option<String>,
    /// Error message
    pub message: Option<String>,
    /// Error details
    pub error_data: Option<ErrorData>,
}

/// Error data
#[derive(Debug, Clone)]
pub struct ErrorData {
    /// Details about the error
    pub details: String,
}

/// Webhook event type enumeration
#[derive(Debug, Clone, PartialEq)]
pub enum WebhookEvent {
    /// Text message received
    TextMessage { from: String, text: String, message_id: String },
    /// Image message received
    ImageMessage { from: String, media_id: String, message_id: String, caption: Option<String> },
    /// Video message received
    VideoMessage { from: String, media_id: String, message_id: String, caption: Option<String> },
    /// Audio message received
    AudioMessage { from: String, media_id: String, message_id: String },
    /// Document message received
    DocumentMessage { from: String, media_id: String, message_id: String, filename: Option<String> },
    /// Sticker message received
    StickerMessage { from: String, media_id: String, message_id: String },
    /// Location message received, coordinates as decimal text
    LocationMessage { from: String, latitude: String, longitude: String, message_id: String },
    /// Contact message received
    ContactMessage { from: String, message_id: String },
    /// Reaction received
    Reaction { from: String, message_id: String, emoji: String },
    /// Interactive button reply
    ButtonReply { from: String, button_id: String, button_title: String, message_id: String },
    /// Interactive list reply
    ListReply { from: String, row_id: String, row_title: String, message_id: String },
    /// Message sent
    MessageSent { message_id: String, recipient: String },
    /// Message delivered
    MessageDelivered { message_id: String, recipient: String },
    /// Message read
    MessageRead { message_id: String, recipient: String },
    /// Message failed
    MessageFailed { message_id: String, recipient: String, error_code: i32 },
    /// Unknown event type
    Unknown,
}

/// The event synthesized for an interactive message whose inner response
/// object is `i`: a typed reply only when the second-level discriminator
/// agrees with the sub-object that is present.
pub open spec fn interactive_event(m: WebhookMessage, i: InteractiveResponse) -> WebhookEvent {
    if i.response_type@ == "button_reply"@ {
        match i.button_reply {
            Some(br) => WebhookEvent::ButtonReply {
                from: m.from,
                button_id: br.id,
                button_title: br.title,
                message_id: m.id,
            },
            None => WebhookEvent::Unknown,
        }
    } else if i.response_type@ == "list_reply"@ {
        match i.list_reply {
            Some(lr) => WebhookEvent::ListReply {
                from: m.from,
                row_id: lr.id,
                row_title: lr.title,
                message_id: m.id,
            },
            None => WebhookEvent::Unknown,
        }
    } else {
        WebhookEvent::Unknown
    }
}

/// The event synthesized for one inbound message: the type discriminator
/// selects the kind-specific sub-object to project; a discriminator whose
/// sub-object is absent, or an unrecognized discriminator, degrades to
/// `Unknown` without affecting the rest of the batch.
pub open spec fn message_event(m: WebhookMessage) -> WebhookEvent {
    if m.message_type@ == "text"@ {
        match m.text {
            Some(t) => WebhookEvent::TextMessage { from: m.from, text: t.body, message_id: m.id },
            None => WebhookEvent::Unknown,
        }
    } else if m.message_type@ == "image"@ {
        match m.image {
            Some(i) => WebhookEvent::ImageMessage {
                from: m.from,
                media_id: i.id,
                message_id: m.id,
                caption: i.caption,
            },
            None => WebhookEvent::Unknown,
        }
    } else if m.message_type@ == "video"@ {
        match m.video {
            Some(v) => WebhookEvent::VideoMessage {
                from: m.from,
                media_id: v.id,
                message_id: m.id,
                caption: v.caption,
            },
            None => WebhookEvent::Unknown,
        }
    } else if m.message_type@ == "audio"@ {
        match m.audio {
            Some(a) => WebhookEvent::AudioMessage {
                from: m.from,
                media_id: a.id,
                message_id: m.id,
            },
            None => WebhookEvent::Unknown,
        }
    } else if m.message_type@ == "document"@ {
        match m.document {
            Some(d) => WebhookEvent::DocumentMessage {
                from: m.from,
                media_id: d.id,
                message_id: m.id,
                filename: d.filename,
            },
            None => WebhookEvent::Unknown,
        }
    } else if m.message_type@ == "sticker"@ {
        match m.sticker {
            Some(s) => WebhookEvent::StickerMessage {
                from: m.from,
                media_id: s.id,
                message_id: m.id,
            },
            None => WebhookEvent::Unknown,
        }
    } else if m.message_type@ == "location"@ {
        match m.location {
            Some(l) => WebhookEvent::LocationMessage {
                from: m.from,
                latitude: l.latitude,
                longitude: l.longitude,
                message_id: m.id,
            },
            None => WebhookEvent::Unknown,
        }
    } else if m.message_type@ == "contacts"@ {
        WebhookEvent::ContactMessage { from: m.from, message_id: m.id }
    } else if m.message_type@ == "reaction"@ {
        match m.reaction {
            Some(r) => WebhookEvent::Reaction {
                from: m.from,
                message_id: r.message_id,
                emoji: r.emoji,
            },
            None => WebhookEvent::Unknown,
        }
    } else if m.message_type@ == "interactive"@ {
        match m.interactive {
            Some(i) => interactive_event(m, i),
            None => WebhookEvent::Unknown,
        }
    } else {
        WebhookEvent::Unknown
    }
}

/// The error code carried by a failed status: the code of the first
/// element of its error list, or the sentinel `0` ("no code available")
/// when that list is absent or empty.  `0` never otherwise occurs
/// upstream.
pub open spec fn failed_error_code(errors: Option<Vec<WebhookError>>) -> i32 {
    match errors {
        Some(v) => if v@.len() > 0 {
            v@[0].code
        } else {
            0
        },
        None => 0,
    }
}

/// The event synthesized for one status update: the status discriminator
/// selects the variant; any unrecognized discriminator degrades to
/// `Unknown`.
pub open spec fn status_event(s: WebhookStatus) -> WebhookEvent {
    if s.status@ == "sent"@ {
        WebhookEvent::MessageSent { message_id: s.id, recipient: s.recipient_id }
    } else if s.status@ == "delivered"@ {
        WebhookEvent::MessageDelivered { message_id: s.id, recipient: s.recipient_id }
    } else if s.status@ == "read"@ {
        WebhookEvent::MessageRead { message_id: s.id, recipient: s.recipient_id }
    } else if s.status@ == "failed"@ {
        WebhookEvent::MessageFailed {
            message_id: s.id,
            recipient: s.recipient_id,
            error_code: failed_error_code(s.errors),
        }
    } else {
        WebhookEvent::Unknown
    }
}

/// The events of a change's message list, one per message, in array order.
pub open spec fn message_list_events(ms: Option<Vec<WebhookMessage>>) -> Seq<WebhookEvent> {
    match ms {
        Some(v) => v@.map_values(|m: WebhookMessage| message_event(m)),
        None => Seq::empty(),
    }
}

/// The events of a change's status list, one per status, in array order.
pub open spec fn status_list_events(ss: Option<Vec<WebhookStatus>>) -> Seq<WebhookEvent> {
    match ss {
        Some(v) => v@.map_values(|s: WebhookStatus| status_event(s)),
        None => Seq::empty(),
    }
}

/// The events of one change: its messages first, then its statuses, each
/// list in array order.
pub open spec fn change_events(c: WebhookChange) -> Seq<WebhookEvent> {
    message_list_events(c.value.messages) + status_list_events(c.value.statuses)
}

/// The events of a sequence of changes, in array order.
pub open spec fn changes_events(cs: Seq<WebhookChange>) -> Seq<WebhookEvent>
    decreases cs.len(),
{
    if cs.len() == 0 {
        Seq::empty()
    } else {
        changes_events(cs.drop_last()) + change_events(cs.last())
    }
}

/// The events of one entry: those of its changes, in array order.
pub open spec fn entry_events(e: WebhookEntry) -> Seq<WebhookEvent> {
    changes_events(e.changes@)
}

/// The events of a sequence of entries, in array order.
pub open spec fn entries_events(es: Seq<WebhookEntry>) -> Seq<WebhookEvent>
    decreases es.len(),
{
    if es.len() == 0 {
        Seq::empty()
    } else {
        entries_events(es.drop_last()) + entry_events(es.last())
    }
}

/// The full event sequence of a payload: entries in array order, changes
/// within an entry in array order, messages before statuses within a
/// change, each list in array order.
pub open spec fn payload_events(p: WebhookPayload) -> Seq<WebhookEvent> {
    entries_events(p.entry@)
}

/// The number of inbound messages carried by one change.
pub open spec fn change_message_count(c: WebhookChange) -> nat {
    match c.value.messages {
        Some(v) => v@.len(),
        None => 0,
    }
}

/// The number of status updates carried by one change.
pub open spec fn change_status_count(c: WebhookChange) -> nat {
    match c.value.statuses {
        Some(v) => v@.len(),
        None => 0,
    }
}

/// The number of messages and statuses carried by a sequence of changes.
pub open spec fn changes_record_count(cs: Seq<WebhookChange>) -> nat
    decreases cs.len(),
{
    if cs.len() == 0 {
        0
    } else {
        changes_record_count(cs.drop_last()) + change_message_count(cs.last())
            + change_status_count(cs.last())
    }
}

/// The number of messages and statuses carried by a sequence of entries.
pub open spec fn entries_record_count(es: Seq<WebhookEntry>) -> nat
    decreases es.len(),
{
    if es.len() == 0 {
        0
    } else {
        entries_record_count(es.drop_last()) + changes_record_count(es.last().changes@)
    }
}

proof fn lemma_changes_events_len(cs: Seq<WebhookChange>)
    ensures
        changes_events(cs).len() == changes_record_count(cs),
    decreases cs.len(),
{
    if cs.len() > 0 {
        lemma_changes_events_len(cs.drop_last());
    }
}

proof fn lemma_entries_events_len(es: Seq<WebhookEntry>)
    ensures
        entries_events(es).len() == entries_record_count(es),
    decreases es.len(),
{
    if es.len() > 0 {
        lemma_entries_events_len(es.drop_last());
        lemma_changes_events_len(es.last().changes@);
    }
}

/// An envelope carrying N messages and M statuses, however they are
/// distributed across its entries and changes, classifies to exactly
/// N + M events.
pub proof fn lemma_event_count(p: WebhookPayload)
    ensures
        payload_events(p).len() == entries_record_count(p.entry@),
{
    lemma_entries_events_len(p.entry@);
}

/// Classification is a pure function of the envelope: equal envelopes
/// always classify to equal event sequences, so invoking it twice on one
/// envelope yields structurally equal results.
pub proof fn lemma_events_deterministic(a: WebhookPayload, b: WebhookPayload)
    requires
        a == b,
    ensures
        payload_events(a) == payload_events(b),
{
}

/// Clone an optional string field.
fn clone_opt_string(s: &Option<String>) -> (r: Option<String>)
    ensures
        r == *s,
{
    match s {
        Some(x) => Some(x.clone()),
        None => None,
    }
}

/// Synthesize the event for one inbound message.
fn event_of_message(m: &WebhookMessage) -> (e: WebhookEvent)
    ensures
        e == message_event(*m),
{
    if crate::types::str_eq(m.message_type.as_str(), "text") {
        match &m.text {
            Some(t) => WebhookEvent::TextMessage {
                from: m.from.clone(),
                text: t.body.clone(),
                message_id: m.id.clone(),
            },
            None => WebhookEvent::Unknown,
        }
    } else if crate::types::str_eq(m.message_type.as_str(), "image") {
        match &m.image {
            Some(i) => WebhookEvent::ImageMessage {
                from: m.from.clone(),
                media_id: i.id.clone(),
                message_id: m.id.clone(),
                caption: clone_opt_string(&i.caption),
            },
            None => WebhookEvent::Unknown,
        }
    } else if crate::types::str_eq(m.message_type.as_str(), "video") {
        match &m.video {
            Some(v) => WebhookEvent::VideoMessage {
                from: m.from.clone(),
                media_id: v.id.clone(),
                message_id: m.id.clone(),
                caption: clone_opt_string(&v.caption),
            },
            None => WebhookEvent::Unknown,
        }
    } else if crate::types::str_eq(m.message_type.as_str(), "audio") {
        match &m.audio {
            Some(a) => WebhookEvent::AudioMessage {
                from: m.from.clone(),
                media_id: a.id.clone(),
                message_id: m.id.clone(),
            },
            None => WebhookEvent::Unknown,
        }
    } else if crate::types::str_eq(m.message_type.as_str(), "document") {
        match &m.document {
            Some(d) => WebhookEvent::DocumentMessage {
                from: m.from.clone(),
                media_id: d.id.clone(),
                message_id: m.id.clone(),
                filename: clone_opt_string(&d.filename),
            },
            None => WebhookEvent::Unknown,
        }
    } else if crate::types::str_eq(m.message_type.as_str(), "sticker") {
        match &m.sticker {
            Some(s) => WebhookEvent::StickerMessage {
                from: m.from.clone(),
                media_id: s.id.clone(),
                message_id: m.id.clone(),
            },
            None => WebhookEvent::Unknown,
        }
    } else if crate::types::str_eq(m.message_type.as_str(), "location") {
        match &m.location {
            Some(l) => WebhookEvent::LocationMessage {
                from: m.from.clone(),
                latitude: l.latitude.clone(),
                longitude: l.longitude.clone(),
                message_id: m.id.clone(),
            },
            None => WebhookEvent::Unknown,
        }
    } else if crate::types::str_eq(m.message_type.as_str(), "contacts") {
        WebhookEvent::ContactMessage { from: m.from.clone(), message_id: m.id.clone() }
    } else if crate::types::str_eq(m.message_type.as_str(), "reaction") {
        match &m.reaction {
            Some(r) => WebhookEvent::Reaction {
                from: m.from.clone(),
                message_id: r.message_id.clone(),
                emoji: r.emoji.clone(),
            },
            None => WebhookEvent::Unknown,
        }
    } else if crate::types::str_eq(m.message_type.as_str(), "interactive") {
        match &m.interactive {
            Some(i) => {
                if crate::types::str_eq(i.response_type.as_str(), "button_reply") {
                    match &i.button_reply {
                        Some(br) => WebhookEvent::ButtonReply {
                            from: m.from.clone(),
                            button_id: br.id.clone(),
                            button_title: br.title.clone(),
                            message_id: m.id.clone(),
                        },
                        None => WebhookEvent::Unknown,
                    }
                } else if crate::types::str_eq(i.response_type.as_str(), "list_reply") {
                    match &i.list_reply {
                        Some(lr) => WebhookEvent::ListReply {
                            from: m.from.clone(),
                            row_id: lr.id.clone(),
                            row_title: lr.title.clone(),
                            message_id: m.id.clone(),
                        },
                        None => WebhookEvent::Unknown,
                    }
                } else {
                    WebhookEvent::Unknown
                }
            },
            None => WebhookEvent::Unknown,
        }
    } else {
        WebhookEvent::Unknown
    }
}

/// Synthesize the event for one status update.
fn event_of_status(s: &WebhookStatus) -> (e: WebhookEvent)
    ensures
        e == status_event(*s),
{
    if crate::types::str_eq(s.status.as_str(), "sent") {
        WebhookEvent::MessageSent {
            message_id: s.id.clone(),
            recipient: s.recipient_id.clone(),
        }
    } else if crate::types::str_eq(s.status.as_str(), "delivered") {
        WebhookEvent::MessageDelivered {
            message_id: s.id.clone(),
            recipient: s.recipient_id.clone(),
        }
    } else if crate::types::str_eq(s.status.as_str(), "read") {
        WebhookEvent::MessageRead {
            message_id: s.id.clone(),
            recipient: s.recipient_id.clone(),
        }
    } else if crate::types::str_eq(s.status.as_str(), "failed") {
        let error_code: i32 = match &s.errors {
            Some(v) => if v.len() > 0 {
                v[0].code
            } else {
                0
            },
            None => 0,
        };
        WebhookEvent::MessageFailed {
            message_id: s.id.clone(),
            recipient: s.recipient_id.clone(),
            error_code,
        }
    } else {
        WebhookEvent::Unknown
    }
}

impl WebhookPayload {
    /// Normalize the payload into its ordered sequence of domain events:
    /// exactly one event per inbound message and one per status update,
    /// iterating entries in array order, changes within an entry in array
    /// order, and, within a change, the message list before the status
    /// list, each in array order.  A malformed single message or status
    /// degrades to `Unknown` without disturbing its neighbours.
    pub fn events(&self) -> (r: Vec<WebhookEvent>)
        ensures
            r@ == payload_events(*self),
    {
        let mut events: Vec<WebhookEvent> = Vec::new();

        let mut ei: usize = 0;
        while ei < self.entry.len()
            invariant
                ei <= self.entry.len(),
                events@ == entries_events(self.entry@.subrange(0, ei as int)),
            decreases self.entry.len() - ei,
        {
            let entry = &self.entry[ei];
            let ghost entry_base = events@;
            let mut ci: usize = 0;
            while ci < entry.changes.len()
                invariant
                    ci <= entry.changes.len(),
                    events@ == entry_base + changes_events(entry.changes@.subrange(0, ci as int)),
                decreases entry.changes.len() - ci,
            {
                let change = &entry.changes[ci];
                let ghost change_base = events@;

                if let Some(messages) = &change.value.messages {
                    let mut mi: usize = 0;
                    while mi < messages.len()
                        invariant
                            mi <= messages.len(),
                            events@ == change_base + messages@.subrange(0, mi as int).map_values(
                                |m: WebhookMessage| message_event(m),
                            ),
                        decreases messages.len() - mi,
                    {
                        events.push(event_of_message(&messages[mi]));
                        proof {
                            assert(messages@.subrange(0, mi + 1 as int).map_values(
                                |m: WebhookMessage| message_event(m),
                            ) =~= messages@.subrange(0, mi as int).map_values(
                                |m: WebhookMessage| message_event(m),
                            ).push(message_event(messages@[mi as int])));
                        }
                        mi = mi + 1;
                    }
                    proof {
                        assert(messages@.subrange(0, messages@.len() as int) =~= messages@);
                    }
                }
                proof {
                    assert(events@ == change_base + message_list_events(change.value.messages));
                }

                let ghost status_base = events@;
                if let Some(statuses) = &change.value.statuses {
                    let mut si: usize = 0;
                    while si < statuses.len()
                        invariant
                            si <= statuses.len(),
                            events@ == status_base + statuses@.subrange(0, si as int).map_values(
                                |s: WebhookStatus| status_event(s),
                            ),
                        decreases statuses.len() - si,
                    {
                        events.push(event_of_status(&statuses[si]));
                        proof {
                            assert(statuses@.subrange(0, si + 1 as int).map_values(
                                |s: WebhookStatus| status_event(s),
                            ) =~= statuses@.subrange(0, si as int).map_values(
                                |s: WebhookStatus| status_event(s),
                            ).push(status_event(statuses@[si as int])));
                        }
                        si = si + 1;
                    }
                    proof {
                        assert(statuses@.subrange(0, statuses@.len() as int) =~= statuses@);
                    }
                }
                proof {
                    assert(events@ == change_base + change_events(*change));
                    assert(entry.changes@.subrange(0, ci + 1 as int).drop_last() =~= entry.changes@
                        .subrange(0, ci as int));
                    assert(entry.changes@.subrange(0, ci + 1 as int).last() == entry.changes@[
                        ci as int]);
                }
                ci = ci + 1;
            }
            proof {
                assert(entry.changes@.subrange(0, entry.changes@.len() as int) =~= entry.changes@);
                assert(events@ == entry_base + entry_events(*entry));
                assert(self.entry@.subrange(0, ei + 1 as int).drop_last() =~= self.entry@.subrange(
                    0,
                    ei as int,
                ));
                assert(self.entry@.subrange(0, ei + 1 as int).last() == self.entry@[ei as int]);
            }
            ei = ei + 1;
        }
        proof {
            assert(self.entry@.subrange(0, self.entry@.len() as int) =~= self.entry@);
        }

        events
    }
}

fn text_from_value(x: &serde_json::Value) -> Result<TextMessage, ()> {
    match json::field_string(x, "body") {
        Ok(body) => Ok(TextMessage { body }),
        Err(()) => Err(()),
    }
}

fn media_from_value(x: &serde_json::Value) -> Result<MediaMessage, ()> {
    let id = match json::field_string(x, "id") {
        Ok(v) => v,
        Err(()) => return Err(()),
    };
    let mime_type = match json::field_string(x, "mime_type") {
        Ok(v) => v,
        Err(()) => return Err(()),
    };
    let sha256 = match json::field_opt_string(x, "sha256") {
        Ok(v) => v,
        Err(()) => return Err(()),
    };
    let caption = match json::field_opt_string(x, "caption") {
        Ok(v) => v,
        Err(()) => return Err(()),
    };
    Ok(MediaMessage { id, mime_type, sha256, caption })
}

fn document_from_value(x: &serde_json::Value) -> Result<DocumentMessage, ()> {
    let id = match json::field_string(x, "id") {
        Ok(v) => v,
        Err(()) => return Err(()),
    };
    let mime_type = match json::field_string(x, "mime_type") {
        Ok(v) => v,
        Err(()) => return Err(()),
    };
    let sha256 = match json::field_opt_string(x, "sha256") {
        Ok(v) => v,
        Err(()) => return Err(()),
    };
    let filename = match json::field_opt_string(x, "filename") {
        Ok(v) => v,
        Err(()) => return Err(()),
    };
    let caption = match json::field_opt_string(x, "caption") {
        Ok(v) => v,
        Err(()) => return Err(()),
    };
    Ok(DocumentMessage { id, mime_type, sha256, filename, caption })
}

fn location_from_value(x: &serde_json::Value) -> Result<LocationMessage, ()> {
    let latitude = match json::get_number_text(x, "latitude") {
        Some(v) => v,
        None => return Err(()),
    };
    let longitude = match json::get_number_text(x, "longitude") {
        Some(v) => v,
        None => return Err(()),
    };
    let name = match json::field_opt_string(x, "name") {
        Ok(v) => v,
        Err(()) => return Err(()),
    };
    let address = match json::field_opt_string(x, "address") {
        Ok(v) => v,
        Err(()) => return Err(()),
    };
    Ok(LocationMessage { latitude, longitude, name, address })
}

fn contact_phone_from_value(x: &serde_json::Value) -> Result<ContactPhone, ()> {
    let phone = match json::field_string(x, "phone") {
        Ok(v) => v,
        Err(()) => return Err(()),
    };
    let phone_type = match json::field_opt_string(x, "type") {
        Ok(v) => v,
        Err(()) => return Err(()),
    };
    let wa_id = match json::field_opt_string(x, "wa_id") {
        Ok(v) => v,
        Err(()) => return Err(()),
    };
    Ok(ContactPhone { phone, phone_type, wa_id })
}

fn contact_message_from_value(x: &serde_json::Value) -> Result<ContactMessage, ()> {
    let name_val = match json::value_get(x, "name") {
        Some(v) => v,
        None => return Err(()),
    };
    let formatted_name = match json::field_string(name_val, "formatted_name") {
        Ok(v) => v,
        Err(()) => return Err(()),
    };
    let first_name = match json::field_opt_string(name_val, "first_name") {
        Ok(v) => v,
        Err(()) => return Err(()),
    };
    let last_name = match json::field_opt_string(name_val, "last_name") {
        Ok(v) => v,
        Err(()) => return Err(()),
    };
    let phones = match json::value_get(x, "phones") {
        Some(p) => {
            if json::value_is_null(p) {
                None
            } else {
                let arr = match json::value_as_array(p) {
                    Some(a) => a,
                    None => return Err(()),
                };
                let mut out: Vec<ContactPhone> = Vec::new();
                let mut i: usize = 0;
                while i < arr.len()
                    decreases arr.len() - i,
                {
                    match contact_phone_from_value(&arr[i]) {
                        Ok(e) => out.push(e),
                        Err(()) => return Err(()),
                    }
                    i = i + 1;
                }
                Some(out)
            }
        },
        None => None,
    };
    Ok(ContactMessage { name: ContactName { formatted_name, first_name, last_name }, phones })
}

fn contact_messages_from_value(x: &serde_json::Value) -> Result<Vec<ContactMessage>, ()> {
    let arr = match json::value_as_array(x) {
        Some(a) => a,
        None => return Err(()),
    };
    let mut out: Vec<ContactMessage> = Vec::new();
    let mut i: usize = 0;
    while i < arr.len()
        decreases arr.len() - i,
    {
        match contact_message_from_value(&arr[i]) {
            Ok(e) => out.push(e),
            Err(()) => return Err(()),
        }
        i = i + 1;
    }
    Ok(out)
}

fn reaction_from_value(x: &serde_json::Value) -> Result<ReactionMessage, ()> {
    let message_id = match json::field_string(x, "message_id") {
        Ok(v) => v,
        Err(()) => return Err(()),
    };
    let emoji = match json::field_string(x, "emoji") {
        Ok(v) => v,
        Err(()) => return Err(()),
    };
    Ok(ReactionMessage { message_id, emoji })
}

fn button_reply_from_value(x: &serde_json::Value) -> Result<ButtonReply, ()> {
    let id = match json::field_string(x, "id") {
        Ok(v) => v,
        Err(()) => return Err(()),
    };
    let title = match json::field_string(x, "title") {
        Ok(v) => v,
        Err(()) => return Err(()),
    };
    Ok(ButtonReply { id, title })
}

fn list_reply_from_value(x: &serde_json::Value) -> Result<ListReply, ()> {
    let id = match json::field_string(x, "id") {
        Ok(v) => v,
        Err(()) => return Err(()),
    };
    let title = match json::field_string(x, "title") {
        Ok(v) => v,
        Err(()) => return Err(()),
    };
    let description = match json::field_opt_string(x, "description") {
        Ok(v) => v,
        Err(()) => return Err(()),
    };
    Ok(ListReply { id, title, description })
}

fn interactive_from_value(x: &serde_json::Value) -> Result<InteractiveResponse, ()> {
    let response_type = match json::field_string(x, "type") {
        Ok(v) => v,
        Err(()) => return Err(()),
    };
    let button_reply = match json::value_get(x, "button_reply") {
        Some(b) => {
            if json::value_is_null(b) {
                None
            } else {
                match button_reply_from_value(b) {
                    Ok(v) => Some(v),
                    Err(()) => return Err(()),
                }
            }
        },
        None => None,
    };
    let list_reply = match json::value_get(x, "list_reply") {
        Some(l) => {
            if json::value_is_null(l) {
                None
            } else {
                match list_reply_from_value(l) {
                    Ok(v) => Some(v),
                    Err(()) => return Err(()),
                }
            }
        },
        None => None,
    };
    Ok(InteractiveResponse { response_type, button_reply, list_reply })
}

fn button_response_from_value(x: &serde_json::Value) -> Result<ButtonResponse, ()> {
    let text = match json::field_string(x, "text") {
        Ok(v) => v,
        Err(()) => return Err(()),
    };
    let payload = match json::field_string(x, "payload") {
        Ok(v) => v,
        Err(()) => return Err(()),
    };
    Ok(ButtonResponse { text, payload })
}

fn context_from_value(x: &serde_json::Value) -> Result<MessageContext, ()> {
    let message_id = match json::field_string(x, "message_id") {
        Ok(v) => v,
        Err(()) => return Err(()),
    };
    let from = match json::field_opt_string(x, "from") {
        Ok(v) => v,
        Err(()) => return Err(()),
    };
    let forwarded = match json::field_opt_bool(x, "forwarded") {
        Ok(v) => v,
        Err(()) => return Err(()),
    };
    let frequently_forwarded = match json::field_opt_bool(x, "frequently_forwarded") {
        Ok(v) => v,
        Err(()) => return Err(()),
    };
    Ok(MessageContext { message_id, from, forwarded, frequently_forwarded })
}

fn identity_from_value(x: &serde_json::Value) -> Result<IdentityInfo, ()> {
    let acknowledged = match json::get_bool(x, "acknowledged") {
        Some(v) => v,
        None => return Err(()),
    };
    let created_timestamp = match json::field_string(x, "created_timestamp") {
        Ok(v) => v,
        Err(()) => return Err(()),
    };
    let hash = match json::field_string(x, "hash") {
        Ok(v) => v,
        Err(()) => return Err(()),
    };
    Ok(IdentityInfo { acknowledged, created_timestamp, hash })
}

fn referral_from_value(x: &serde_json::Value) -> Result<ReferralInfo, ()> {
    let source_url = match json::field_string(x, "source_url") {
        Ok(v) => v,
        Err(()) => return Err(()),
    };
    let source_type = match json::field_string(x, "source_type") {
        Ok(v) => v,
        Err(()) => return Err(()),
    };
    let source_id = match json::field_string(x, "source_id") {
        Ok(v) => v,
        Err(()) => return Err(()),
    };
    let headline = match json::field_opt_string(x, "headline") {
        Ok(v) => v,
        Err(()) => return Err(()),
    };
    let body = match json::field_opt_string(x, "body") {
        Ok(v) => v,
        Err(()) => return Err(()),
    };
    let media_type = match json::field_opt_string(x, "media_type") {
        Ok(v) => v,
        Err(()) => return Err(()),
    };
    let image_url = match json::field_opt_string(x, "image_url") {
        Ok(v) => v,
        Err(()) => return Err(()),
    };
    let video_url = match json::field_opt_string(x, "video_url") {
        Ok(v) => v,
        Err(()) => return Err(()),
    };
    let thumbnail_url = match json::field_opt_string(x, "thumbnail_url") {
        Ok(v) => v,
        Err(()) => return Err(()),
    };
    Ok(ReferralInfo {
        source_url,
        source_type,
        source_id,
        headline,
        body,
        media_type,
        image_url,
        video_url,
        thumbnail_url,
    })
}

fn order_item_from_value(x: &serde_json::Value) -> Result<ProductItem, ()> {
    let product_retailer_id = match json::field_string(x, "product_retailer_id") {
        Ok(v) => v,
        Err(()) => return Err(()),
    };
    let quantity = match json::field_i32(x, "quantity") {
        Ok(v) => v,
        Err(()) => return Err(()),
    };
    let item_price = match json::field_string(x, "item_price") {
        Ok(v) => v,
        Err(()) => return Err(()),
    };
    let currency = match json::field_string(x, "currency") {
        Ok(v) => v,
        Err(()) => return Err(()),
    };
    Ok(ProductItem { product_retailer_id, quantity, item_price, currency })
}

fn order_from_value(x: &serde_json::Value) -> Result<OrderInfo, ()> {
    let catalog_id = match json::field_string(x, "catalog_id") {
        Ok(v) => v,
        Err(()) => return Err(()),
    };
    let items_val = match json::value_get(x, "product_items") {
        Some(v) => v,
        None => return Err(()),
    };
    let arr = match json::value_as_array(items_val) {
        Some(a) => a,
        None => return Err(()),
    };
    let mut product_items: Vec<ProductItem> = Vec::new();
    let mut i: usize = 0;
    while i < arr.len()
        decreases arr.len() - i,
    {
        match order_item_from_value(&arr[i]) {
            Ok(e) => product_items.push(e),
            Err(()) => return Err(()),
        }
        i = i + 1;
    }
    let text = match json::field_opt_string(x, "text") {
        Ok(v) => v,
        Err(()) => return Err(()),
    };
    Ok(OrderInfo { catalog_id, product_items, text })
}

fn system_from_value(x: &serde_json::Value) -> Result<SystemMessage, ()> {
    let body = match json::field_opt_string(x, "body") {
        Ok(v) => v,
        Err(()) => return Err(()),
    };
    let identity = match json::field_opt_string(x, "identity") {
        Ok(v) => v,
        Err(()) => return Err(()),
    };
    let new_wa_id = match json::field_opt_string(x, "new_wa_id") {
        Ok(v) => v,
        Err(()) => return Err(()),
    };
    let system_type = match json::field_opt_string(x, "type") {
        Ok(v) => v,
        Err(()) => return Err(()),
    };
    let customer = match json::field_opt_string(x, "customer") {
        Ok(v) => v,
        Err(()) => return Err(()),
    };
    Ok(SystemMessage { body, identity, new_wa_id, system_type, customer })
}

fn webhook_error_from_value(x: &serde_json::Value) -> Result<WebhookError, ()> {
    let code = match json::field_i32(x, "code") {
        Ok(v) => v,
        Err(()) => return Err(()),
    };
    let title = match json::field_opt_string(x, "title") {
        Ok(v) => v,
        Err(()) => return Err(()),
    };
    let message = match json::field_opt_string(x, "message") {
        Ok(v) => v,
        Err(()) => return Err(()),
    };
    let error_data = match json::value_get(x, "error_data") {
        Some(d) => {
            if json::value_is_null(d) {
                None
            } else {
                match json::field_string(d, "details") {
                    Ok(details) => Some(ErrorData { details }),
                    Err(()) => return Err(()),
                }
            }
        },
        None => None,
    };
    Ok(WebhookError { code, title, message, error_data })
}

fn webhook_errors_from_value(x: &serde_json::Value) -> Result<Vec<WebhookError>, ()> {
    let arr = match json::value_as_array(x) {
        Some(a) => a,
        None => return Err(()),
    };
    let mut out: Vec<WebhookError> = Vec::new();
    let mut i: usize = 0;
    while i < arr.len()
        decreases arr.len() - i,
    {
        match webhook_error_from_value(&arr[i]) {
            Ok(e) => out.push(e),
            Err(()) => return Err(()),
        }
        i = i + 1;
    }
    Ok(out)
}

fn opt_webhook_errors_from_value(x: &serde_json::Value, key: &str) -> Result<
    Option<Vec<WebhookError>>,
    (),
> {
    match json::value_get(x, key) {
        Some(e) => {
            if json::value_is_null(e) {
                Ok(None)
            } else {
                match webhook_errors_from_value(e) {
                    Ok(v) => Ok(Some(v)),
                    Err(()) => Err(()),
                }
            }
        },
        None => Ok(None),
    }
}

fn message_from_value(x: &serde_json::Value) -> Result<WebhookMessage, ()> {
    let from = match json::field_string(x, "from") {
        Ok(v) => v,
        Err(()) => return Err(()),
    };
    let id = match json::field_string(x, "id") {
        Ok(v) => v,
        Err(()) => return Err(()),
    };
    let timestamp = match json::field_string(x, "timestamp") {
        Ok(v) => v,
        Err(()) => return Err(()),
    };
    let message_type = match json::field_string(x, "type") {
        Ok(v) => v,
        Err(()) => return Err(()),
    };
    let text = match json::value_get(x, "text") {
        Some(t) => {
            if json::value_is_null(t) {
                None
            } else {
                match text_from_value(t) {
                    Ok(v) => Some(v),
                    Err(()) => return Err(()),
                }
            }
        },
        None => None,
    };
    let image = match json::value_get(x, "image") {
        Some(m) => {
            if json::value_is_null(m) {
                None
            } else {
                match media_from_value(m) {
                    Ok(v) => Some(v),
                    Err(()) => return Err(()),
                }
            }
        },
        None => None,
    };
    let video = match json::value_get(x, "video") {
        Some(m) => {
            if json::value_is_null(m) {
                None
            } else {
                match media_from_value(m) {
                    Ok(v) => Some(v),
                    Err(()) => return Err(()),
                }
            }
        },
        None => None,
    };
    let audio = match json::value_get(x, "audio") {
        Some(m) => {
            if json::value_is_null(m) {
                None
            } else {
                match media_from_value(m) {
                    Ok(v) => Some(v),
                    Err(()) => return Err(()),
                }
            }
        },
        None => None,
    };
    let document = match json::value_get(x, "document") {
        Some(d) => {
            if json::value_is_null(d) {
                None
            } else {
                match document_from_value(d) {
                    Ok(v) => Some(v),
                    Err(()) => return Err(()),
                }
            }
        },
        None => None,
    };
    let sticker = match json::value_get(x, "sticker") {
        Some(m) => {
            if json::value_is_null(m) {
                None
            } else {
                match media_from_value(m) {
                    Ok(v) => Some(v),
                    Err(()) => return Err(()),
                }
            }
        },
        None => None,
    };
    let location = match json::value_get(x, "location") {
        Some(l) => {
            if json::value_is_null(l) {
                None
            } else {
                match location_from_value(l) {
                    Ok(v) => Some(v),
                    Err(()) => return Err(()),
                }
            }
        },
        None => None,
    };
    let contacts = match json::value_get(x, "contacts") {
        Some(c) => {
            if json::value_is_null(c) {
                None
            } else {
                match contact_messages_from_value(c) {
                    Ok(v) => Some(v),
                    Err(()) => return Err(()),
                }
            }
        },
        None => None,
    };
    let reaction = match json::value_get(x, "reaction") {
        Some(r) => {
            if json::value_is_null(r) {
                None
            } else {
                match reaction_from_value(r) {
                    Ok(v) => Some(v),
                    Err(()) => return Err(()),
                }
            }
        },
        None => None,
    };
    let interactive = match json::value_get(x, "interactive") {
        Some(iv) => {
            if json::value_is_null(iv) {
                None
            } else {
                match interactive_from_value(iv) {
                    Ok(v) => Some(v),
                    Err(()) => return Err(()),
                }
            }
        },
        None => None,
    };
    let button = match json::value_get(x, "button") {
        Some(b) => {
            if json::value_is_null(b) {
                None
            } else {
                match button_response_from_value(b) {
                    Ok(v) => Some(v),
                    Err(()) => return Err(()),
                }
            }
        },
        None => None,
    };
    let context = match json::value_get(x, "context") {
        Some(c) => {
            if json::value_is_null(c) {
                None
            } else {
                match context_from_value(c) {
                    Ok(v) => Some(v),
                    Err(()) => return Err(()),
                }
            }
        },
        None => None,
    };
    let identity = match json::value_get(x, "identity") {
        Some(iv) => {
            if json::value_is_null(iv) {
                None
            } else {
                match identity_from_value(iv) {
                    Ok(v) => Some(v),
                    Err(()) => return Err(()),
                }
            }
        },
        None => None,
    };
    let referral = match json::value_get(x, "referral") {
        Some(r) => {
            if json::value_is_null(r) {
                None
            } else {
                match referral_from_value(r) {
                    Ok(v) => Some(v),
                    Err(()) => return Err(()),
                }
            }
        },
        None => None,
    };
    let order = match json::value_get(x, "order") {
        Some(o) => {
            if json::value_is_null(o) {
                None
            } else {
                match order_from_value(o) {
                    Ok(v) => Some(v),
                    Err(()) => return Err(()),
                }
            }
        },
        None => None,
    };
    let system = match json::value_get(x, "system") {
        Some(s) => {
            if json::value_is_null(s) {
                None
            } else {
                match system_from_value(s) {
                    Ok(v) => Some(v),
                    Err(()) => return Err(()),
                }
            }
        },
        None => None,
    };
    let errors = match opt_webhook_errors_from_value(x, "errors") {
        Ok(v) => v,
        Err(()) => return Err(()),
    };
    Ok(WebhookMessage {
        from,
        id,
        timestamp,
        message_type,
        text,
        image,
        video,
        audio,
        document,
        sticker,
        location,
        contacts,
        reaction,
        interactive,
        button,
        context,
        identity,
        referral,
        order,
        system,
        errors,
    })
}

fn status_from_value(x: &serde_json::Value) -> Result<WebhookStatus, ()> {
    let id = match json::field_string(x, "id") {
        Ok(v) => v,
        Err(()) => return Err(()),
    };
    let recipient_id = match json::field_string(x, "recipient_id") {
        Ok(v) => v,
        Err(()) => return Err(()),
    };
    let status = match json::field_string(x, "status") {
        Ok(v) => v,
        Err(()) => return Err(()),
    };
    let timestamp = match json::field_string(x, "timestamp") {
        Ok(v) => v,
        Err(()) => return Err(()),
    };
    let conversation = match json::value_get(x, "conversation") {
        Some(c) => {
            if json::value_is_null(c) {
                None
            } else {
                match conversation_from_value(c) {
                    Ok(v) => Some(v),
                    Err(()) => return Err(()),
                }
            }
        },
        None => None,
    };
    let pricing = match json::value_get(x, "pricing") {
        Some(p) => {
            if json::value_is_null(p) {
                None
            } else {
                match pricing_from_value(p) {
                    Ok(v) => Some(v),
                    Err(()) => return Err(()),
                }
            }
        },
        None => None,
    };
    let errors = match opt_webhook_errors_from_value(x, "errors") {
        Ok(v) => v,
        Err(()) => return Err(()),
    };
    Ok(WebhookStatus { id, recipient_id, status, timestamp, conversation, pricing, errors })
}

fn conversation_from_value(x: &serde_json::Value) -> Result<ConversationInfo, ()> {
    let id = match json::field_string(x, "id") {
        Ok(v) => v,
        Err(()) => return Err(()),
    };
    let origin = match json::value_get(x, "origin") {
        Some(o) => {
            if json::value_is_null(o) {
                None
            } else {
                match json::field_string(o, "type") {
                    Ok(origin_type) => Some(ConversationOrigin { origin_type }),
                    Err(()) => return Err(()),
                }
            }
        },
        None => None,
    };
    let expiration_timestamp = match json::field_opt_string(x, "expiration_timestamp") {
        Ok(v) => v,
        Err(()) => return Err(()),
    };
    Ok(ConversationInfo { id, origin, expiration_timestamp })
}

fn pricing_from_value(x: &serde_json::Value) -> Result<PricingInfo, ()> {
    let billable = match json::get_bool(x, "billable") {
        Some(v) => v,
        None => return Err(()),
    };
    let pricing_model = match json::field_string(x, "pricing_model") {
        Ok(v) => v,
        Err(()) => return Err(()),
    };
    let category = match json::field_string(x, "category") {
        Ok(v) => v,
        Err(()) => return Err(()),
    };
    Ok(PricingInfo { billable, pricing_model, category })
}

fn webhook_contact_from_value(x: &serde_json::Value) -> Result<WebhookContact, ()> {
    let profile_val = match json::value_get(x, "profile") {
        Some(p) => p,
        None => return Err(()),
    };
    let name = match json::field_string(profile_val, "name") {
        Ok(v) => v,
        Err(()) => return Err(()),
    };
    let wa_id = match json::field_string(x, "wa_id") {
        Ok(v) => v,
        Err(()) => return Err(()),
    };
    Ok(WebhookContact { profile: WebhookProfile { name }, wa_id })
}

fn value_object_from_value(x: &serde_json::Value) -> Result<WebhookValue, ()> {
    let messaging_product = match json::field_string(x, "messaging_product") {
        Ok(v) => v,
        Err(()) => return Err(()),
    };
    let metadata_val = match json::value_get(x, "metadata") {
        Some(m) => m,
        None => return Err(()),
    };
    let display_phone_number = match json::field_string(metadata_val, "display_phone_number") {
        Ok(v) => v,
        Err(()) => return Err(()),
    };
    let phone_number_id = match json::field_string(metadata_val, "phone_number_id") {
        Ok(v) => v,
        Err(()) => return Err(()),
    };
    let contacts = match json::value_get(x, "contacts") {
        Some(c) => {
            if json::value_is_null(c) {
                None
            } else {
                let arr = match json::value_as_array(c) {
                    Some(a) => a,
                    None => return Err(()),
                };
                let mut out: Vec<WebhookContact> = Vec::new();
                let mut i: usize = 0;
                while i < arr.len()
                    decreases arr.len() - i,
                {
                    match webhook_contact_from_value(&arr[i]) {
                        Ok(e) => out.push(e),
                        Err(()) => return Err(()),
                    }
                    i = i + 1;
                }
                Some(out)
            }
        },
        None => None,
    };
    let messages = match json::value_get(x, "messages") {
        Some(ms) => {
            if json::value_is_null(ms) {
                None
            } else {
                let arr = match json::value_as_array(ms) {
                    Some(a) => a,
                    None => return Err(()),
                };
                let mut out: Vec<WebhookMessage> = Vec::new();
                let mut i: usize = 0;
                while i < arr.len()
                    decreases arr.len() - i,
                {
                    match message_from_value(&arr[i]) {
                        Ok(e) => out.push(e),
                        Err(()) => return Err(()),
                    }
                    i = i + 1;
                }
                Some(out)
            }
        },
        None => None,
    };
    let statuses = match json::value_get(x, "statuses") {
        Some(ss) => {
            if json::value_is_null(ss) {
                None
            } else {
                let arr = match json::value_as_array(ss) {
                    Some(a) => a,
                    None => return Err(()),
                };
                let mut out: Vec<WebhookStatus> = Vec::new();
                let mut i: usize = 0;
                while i < arr.len()
                    decreases arr.len() - i,
                {
                    match status_from_value(&arr[i]) {
                        Ok(e) => out.push(e),
                        Err(()) => return Err(()),
                    }
                    i = i + 1;
                }
                Some(out)
            }
        },
        None => None,
    };
    let errors = match opt_webhook_errors_from_value(x, "errors") {
        Ok(v) => v,
        Err(()) => return Err(()),
    };
    Ok(WebhookValue {
        messaging_product,
        metadata: WebhookMetadata { display_phone_number, phone_number_id },
        contacts,
        messages,
        statuses,
        errors,
    })
}

fn entry_from_value(x: &serde_json::Value) -> Result<WebhookEntry, ()> {
    let id = match json::field_string(x, "id") {
        Ok(v) => v,
        Err(()) => return Err(()),
    };
    let changes_val = match json::value_get(x, "changes") {
        Some(c) => c,
        None => return Err(()),
    };
    let arr = match json::value_as_array(changes_val) {
        Some(a) => a,
        None => return Err(()),
    };
    let mut changes: Vec<WebhookChange> = Vec::new();
    let mut i: usize = 0;
    while i < arr.len()
        decreases arr.len() - i,
    {
        let change_val = &arr[i];
        let value_val = match json::value_get(change_val, "value") {
            Some(v) => v,
            None => return Err(()),
        };
        let value = match value_object_from_value(value_val) {
            Ok(v) => v,
            Err(()) => return Err(()),
        };
        let field = match json::field_string(change_val, "field") {
            Ok(f) => f,
            Err(()) => return Err(()),
        };
        changes.push(WebhookChange { value, field });
        i = i + 1;
    }
    Ok(WebhookEntry { id, changes })
}

impl WebhookPayload {
    /// Parse an inbound request body as the webhook envelope.  Text that is
    /// not JSON fails with `Error::Json` carrying the parser's description
    /// — and only such text does; structurally valid JSON that lacks a
    /// required envelope field fails with `Error::Envelope` naming the
    /// outermost field at fault.  The optional lists and sub-objects
    /// inside a change may be absent or null without failing;
    /// classification of the parsed envelope is a separate, total step
    /// (`events`).
    pub fn from_json(payload: &str) -> (r: Result<WebhookPayload, Error>)
        ensures
            r matches Err(e) ==> e is Json || e is Envelope,
            !json::parses_as_json(payload@) ==> (r matches Err(e) && e is Json),
            (r matches Err(e) && e is Json) ==> !json::parses_as_json(payload@),
    {
        let v = match json::parse_value(payload) {
            Ok(v) => v,
            Err(msg) => return Err(Error::Json(msg)),
        };
        let object = match json::field_string(&v, "object") {
            Ok(o) => o,
            Err(()) => return Err(Error::Envelope("object".to_owned())),
        };
        let entries_val = match json::value_get(&v, "entry") {
            Some(e) => e,
            None => return Err(Error::Envelope("entry".to_owned())),
        };
        let arr = match json::value_as_array(entries_val) {
            Some(a) => a,
            None => return Err(Error::Envelope("entry".to_owned())),
        };
        let mut entry: Vec<WebhookEntry> = Vec::new();
        let mut i: usize = 0;
        while i < arr.len()
            invariant
                json::parses_as_json(payload@),
            decreases arr.len() - i,
        {
            match entry_from_value(&arr[i]) {
                Ok(e) => entry.push(e),
                Err(()) => return Err(Error::Envelope("entry".to_owned())),
            }
            i = i + 1;
        }
        Ok(WebhookPayload { object, entry })
    }
}

/// The HMAC-SHA256 digest of `data` keyed by `key`: a function of the two
/// arguments alone, computed by an outside cryptographic library.
pub uninterp spec fn hmac_sha256_of(key: Seq<u8>, data: Seq<u8>) -> Seq<u8>;

/// Keyed message digest used to authenticate webhook payloads.
pub struct HMAC;

impl HMAC {
    /// Relies on `hmac_sha256::HMAC::mac`: the HMAC-SHA256 of `data` keyed
    /// by `key`, a 32-byte digest depending on the two arguments alone.
    #[verifier::external_body]
    pub fn mac(data: &[u8], key: &[u8]) -> (r: [u8; 32])
        ensures
            r@ == hmac_sha256_of(key@, data@),
    {
        hmac_sha256::HMAC::mac(data, key)
    }
}

/// The ASCII code of the lowercase hexadecimal digit for `n`.
pub open spec fn hex_digit(n: u8) -> u8
    recommends
        n < 16,
{
    if n < 10 {
        (48 + n) as u8
    } else {
        (87 + n) as u8
    }
}

/// The ASCII bytes of the lowercase hexadecimal encoding of `data`: two
/// digits per byte, high nibble first.
pub open spec fn hex_bytes(data: Seq<u8>) -> Seq<u8> {
    Seq::new(
        2 * data.len(),
        |i: int|
            if i % 2 == 0 {
                hex_digit(data[i / 2] >> 4u8)
            } else {
                hex_digit(data[i / 2] & 0x0fu8)
            },
    )
}

/// The hexadecimal encoding is injective: distinct digests always have
/// distinct hex texts, so a header that spells one digest is rejected
/// whenever the digest computed for the presented body differs from it.
pub proof fn lemma_hex_bytes_injective(a: Seq<u8>, b: Seq<u8>)
    requires
        hex_bytes(a) == hex_bytes(b),
    ensures
        a == b,
{
    assert(hex_bytes(a).len() == 2 * a.len());
    assert(hex_bytes(b).len() == 2 * b.len());
    assert(a.len() == b.len());
    assert forall|i: int| 0 <= i < a.len() implies a[i] == b[i] by {
        let x = a[i];
        let y = b[i];
        assert((2 * i) % 2 == 0 && (2 * i) / 2 == i);
        assert((2 * i + 1) % 2 == 1 && (2 * i + 1) / 2 == i);
        assert(hex_bytes(a)[2 * i] == hex_digit(x >> 4u8));
        assert(hex_bytes(b)[2 * i] == hex_digit(y >> 4u8));
        assert(hex_bytes(a)[2 * i + 1] == hex_digit(x & 0x0fu8));
        assert(hex_bytes(b)[2 * i + 1] == hex_digit(y & 0x0fu8));
        assert(hex_digit(x >> 4u8) == hex_digit(y >> 4u8));
        assert(hex_digit(x & 0x0fu8) == hex_digit(y & 0x0fu8));
        let ah = x >> 4u8;
        let bh = y >> 4u8;
        let al = x & 0x0fu8;
        let bl = y & 0x0fu8;
        assert(ah < 16 && bh < 16 && al < 16 && bl < 16) by (bit_vector)
            requires
                ah == x >> 4u8 && bh == y >> 4u8 && al == x & 0x0fu8 && bl == y & 0x0fu8,
        ;
        assert(ah == bh && al == bl);
        assert(x == y) by (bit_vector)
            requires
                ah == x >> 4u8 && bh == y >> 4u8 && al == x & 0x0fu8 && bl == y & 0x0fu8 && ah
                    == bh && al == bl,
        ;
    }
    assert(a =~= b);
}

/// A header accepted for one body is rejected for every body whose keyed
/// digest differs.  A mutation of the body therefore defeats verification
/// as soon as it changes the digest; that a mutation does change it is
/// the collision resistance of the keyed hash itself, which here enters
/// as the hypothesis on `hmac_sha256_of`.
pub proof fn lemma_changed_digest_rejected(
    payload: Seq<u8>,
    mutated: Seq<u8>,
    header: Seq<u8>,
    secret: Seq<u8>,
)
    requires
        signature_accepted(payload, header, secret),
        hmac_sha256_of(secret, mutated) != hmac_sha256_of(secret, payload),
    ensures
        !signature_accepted(mutated, header, secret),
{
    let d1 = hmac_sha256_of(secret, payload);
    let d2 = hmac_sha256_of(secret, mutated);
    if signature_accepted(mutated, header, secret) {
        assert(hex_bytes(d1) == hex_bytes(d2));
        lemma_hex_bytes_injective(d1, d2);
    }
}

/// Encode bytes as lowercase hexadecimal ASCII.
fn hex_encode(data: &[u8]) -> (r: Vec<u8>)
    ensures
        r@ == hex_bytes(data@),
{
    let mut out: Vec<u8> = Vec::new();
    let mut i: usize = 0;
    while i < data.len()
        invariant
            i <= data.len(),
            out@ =~= hex_bytes(data@.subrange(0, i as int)),
        decreases data.len() - i,
    {
        let b = data[i];
        let hi = b >> 4u8;
        let lo = b & 0x0fu8;
        proof {
            assert(hi < 16 && lo < 16) by (bit_vector)
                requires
                    hi == b >> 4u8 && lo == b & 0x0fu8,
            ;
        }
        let hi_digit: u8 = if hi < 10 {
            48 + hi
        } else {
            87 + hi
        };
        let lo_digit: u8 = if lo < 10 {
            48 + lo
        } else {
            87 + lo
        };
        out.push(hi_digit);
        out.push(lo_digit);
        proof {
            assert(out@ =~= hex_bytes(data@.subrange(0, i + 1 as int)));
        }
        i = i + 1;
    }
    proof {
        assert(data@.subrange(0, data@.len() as int) =~= data@);
    }
    out
}

/// Compare two byte strings for equality in constant time for a given
/// length: after the public length check, every byte is examined and the
/// differences are accumulated, with no early exit, so the running time
/// does not reveal the position of the first mismatch.
fn constant_time_eq(a: &[u8], b: &[u8]) -> (r: bool)
    ensures
        r == (a@ == b@),
{
    if a.len() != b.len() {
        return false;
    }
    proof {
        assert(a@.subrange(0, 0) =~= b@.subrange(0, 0));
    }
    let mut diff: u8 = 0;
    let mut i: usize = 0;
    while i < a.len()
        invariant
            i <= a.len(),
            a@.len() == b@.len(),
            (diff == 0) <==> (a@.subrange(0, i as int) == b@.subrange(0, i as int)),
        decreases a.len() - i,
    {
        let x = a[i];
        let y = b[i];
        let ghost old_diff = diff;
        diff = diff | (x ^ y);
        proof {
            assert((old_diff | (x ^ y)) == 0 <==> (old_diff == 0 && x == y)) by (bit_vector);
            if diff == 0 {
                assert(a@.subrange(0, i + 1 as int) =~= b@.subrange(0, i + 1 as int));
            } else {
                if a@.subrange(0, i + 1 as int) == b@.subrange(0, i + 1 as int) {
                    assert(a@.subrange(0, i as int) =~= a@.subrange(0, i + 1 as int).subrange(
                        0,
                        i as int,
                    ));
                    assert(b@.subrange(0, i as int) =~= b@.subrange(0, i + 1 as int).subrange(
                        0,
                        i as int,
                    ));
                    assert(a@[i as int] == a@.subrange(0, i + 1 as int)[i as int]);
                }
            }
        }
        i = i + 1;
    }
    proof {
        assert(a@.subrange(0, a@.len() as int) =~= a@);
        assert(b@.subrange(0, b@.len() as int) =~= b@);
    }
    diff == 0
}

/// The bytes of the optional scheme prefix `"sha256="` of a signature
/// header.
pub open spec fn scheme_prefix() -> Seq<u8> {
    seq!['s' as u8, 'h' as u8, 'a' as u8, '2' as u8, '5' as u8, '6' as u8, '=' as u8]
}

/// A signature header with its optional scheme prefix removed.
pub open spec fn strip_scheme_prefix(sig: Seq<u8>) -> Seq<u8> {
    if sig.len() >= 7 && sig.subrange(0, 7) == scheme_prefix() {
        sig.subrange(7, sig.len() as int)
    } else {
        sig
    }
}

/// Whether a signature header authenticates a payload under a secret: its
/// stripped form must be exactly the lowercase hexadecimal encoding of the
/// HMAC-SHA256 digest of the raw payload bytes keyed by the secret.
pub open spec fn signature_accepted(payload: Seq<u8>, signature: Seq<u8>, secret: Seq<u8>) -> bool {
    strip_scheme_prefix(signature) == hex_bytes(hmac_sha256_of(secret, payload))
}

/// Verify webhook signature using HMAC-SHA256
///
/// The optional `"sha256="` scheme prefix is stripped from the header, the
/// keyed digest is computed over the exact raw body bytes, and the header
/// is compared against the digest's lowercase hexadecimal encoding with a
/// comparison that takes the same time wherever the first mismatch lies.
/// A missing or malformed header simply compares unequal and yields
/// `false`; the function never fails and has no side effects.
///
/// # Arguments
///
/// * `payload` - The raw request body
/// * `signature` - The X-Hub-Signature-256 header value
/// * `app_secret` - Your Facebook App Secret
///
/// # Returns
///
/// Returns true if the signature is valid
pub fn verify_signature(payload: &[u8], signature: &str, app_secret: &str) -> (r: bool)
    ensures
        r == signature_accepted(payload@, signature.spec_bytes(), app_secret.spec_bytes()),
{
    let sig_bytes = signature.as_bytes();
    let has_prefix = sig_bytes.len() >= 7 && sig_bytes[0] == 's' as u8 && sig_bytes[1] == 'h' as u8
        && sig_bytes[2] == 'a' as u8 && sig_bytes[3] == '2' as u8 && sig_bytes[4] == '5' as u8
        && sig_bytes[5] == '6' as u8 && sig_bytes[6] == '=' as u8;
    proof {
        if sig_bytes@.len() >= 7 {
            assert(sig_bytes@.subrange(0, 7) == scheme_prefix() <==> (sig_bytes@[0] == 's' as u8
                && sig_bytes@[1] == 'h' as u8 && sig_bytes@[2] == 'a' as u8 && sig_bytes@[3] == '2'
                as u8 && sig_bytes@[4] == '5' as u8 && sig_bytes@[5] == '6' as u8 && sig_bytes@[6]
                == '=' as u8)) by {
                if sig_bytes@[0] == 's' as u8 && sig_bytes@[1] == 'h' as u8 && sig_bytes@[2] == 'a'
                    as u8 && sig_bytes@[3] == '2' as u8 && sig_bytes@[4] == '5' as u8 && sig_bytes@[
                    5] == '6' as u8 && sig_bytes@[6] == '=' as u8 {
                    assert(sig_bytes@.subrange(0, 7) =~= scheme_prefix());
                }
                if sig_bytes@.subrange(0, 7) == scheme_prefix() {
                    assert(forall|k: int|
                        0 <= k < 7 ==> sig_bytes@[k] == #[trigger] scheme_prefix()[k]);
                }
            }
        }
    }
    let start: usize = if has_prefix {
        7
    } else {
        0
    };

    let mut stripped: Vec<u8> = Vec::new();
    let mut j: usize = start;
    while j < sig_bytes.len()
        invariant
            start <= j <= sig_bytes.len(),
            stripped@ =~= sig_bytes@.subrange(start as int, j as int),
        decreases sig_bytes.len() - j,
    {
        stripped.push(sig_bytes[j]);
        proof {
            assert(stripped@ =~= sig_bytes@.subrange(start as int, j + 1 as int));
        }
        j = j + 1;
    }
    proof {
        assert(stripped@ == strip_scheme_prefix(sig_bytes@));
    }

    let mac = HMAC::mac(payload, app_secret.as_bytes());
    let hex = hex_encode(mac.as_slice());
    constant_time_eq(stripped.as_slice(), hex.as_slice())
}

/// A header that carries exactly the lowercase hexadecimal text of the
/// keyed digest of the body under the shared secret is accepted, with or
/// without the scheme prefix; a header whose stripped form differs from
/// that text anywhere — as any mutation of the header does — is rejected.
pub proof fn lemma_signature_verification(payload: Seq<u8>, secret: Seq<u8>, header: Seq<u8>)
    ensures
        header == scheme_prefix() + hex_bytes(hmac_sha256_of(secret, payload))
            ==> signature_accepted(payload, header, secret),
        header == hex_bytes(hmac_sha256_of(secret, payload)) ==> signature_accepted(
            payload,
            header,
            secret,
        ),
        strip_scheme_prefix(header) != hex_bytes(hmac_sha256_of(secret, payload))
            ==> !signature_accepted(payload, header, secret),
{
    let digest = hmac_sha256_of(secret, payload);
    let hex = hex_bytes(digest);
    if header == scheme_prefix() + hex {
        assert(header.len() >= 7);
        assert(header.subrange(0, 7) =~= scheme_prefix());
        assert(header.subrange(7, header.len() as int) =~= hex);
    }
    if header == hex {
        if header.len() >= 7 {
            let b0 = digest[0];
            let n = b0 >> 4u8;
            assert(n < 16) by (bit_vector)
                requires
                    n == b0 >> 4u8,
            ;
            assert(header[0] == hex_digit(n));
            assert(hex_digit(n) < 112);
            assert('s' as u8 == 115);
            if header.subrange(0, 7) == scheme_prefix() {
                assert(header.subrange(0, 7)[0] == scheme_prefix()[0]);
            }
            assert(header.subrange(0, 7) != scheme_prefix());
        }
        assert(strip_scheme_prefix(header) == header);
    }
}

} // verus!
