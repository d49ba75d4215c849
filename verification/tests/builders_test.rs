//! Tests for the wire-string tables and the request builders

use wacloudapi::analytics::Granularity;
use wacloudapi::flows::{FlowAction, FlowCategory};
use wacloudapi::media::MediaType;
use wacloudapi::messages::{Button, Interactive, ListRow, ListSection};
use wacloudapi::phone_numbers::BusinessProfileUpdate;
use wacloudapi::products::{ProductItem, ProductSection};
use wacloudapi::qr_codes::QrImageFormat;
use wacloudapi::templates::{CreateTemplate, HeaderFormat, TemplateCategory, TemplateStatus};
use wacloudapi::types::QualityRating;
use wacloudapi::waba::WebhookField;
use wacloudapi::webhooks_management::SubscriptionField;

#[test]
fn test_granularity_as_str() {
    assert_eq!(Granularity::HalfHour.as_str(), "HALF_HOUR");
    assert_eq!(Granularity::Daily.as_str(), "DAILY");
    assert_eq!(Granularity::Monthly.as_str(), "MONTHLY");
}

#[test]
fn test_flow_enums_as_str() {
    assert_eq!(FlowAction::Navigate.as_str(), "navigate");
    assert_eq!(FlowAction::DataExchange.as_str(), "data_exchange");
    assert_eq!(FlowCategory::SignUp.as_str(), "SIGN_UP");
    assert_eq!(FlowCategory::Appointment.as_str(), "APPOINTMENT_BOOKING");
    assert_eq!(FlowCategory::Other.as_str(), "OTHER");
}

#[test]
fn test_qr_image_format_as_str() {
    assert_eq!(QrImageFormat::Png.as_str(), "PNG");
    assert_eq!(QrImageFormat::Svg.as_str(), "SVG");
}

#[test]
fn test_template_enums_as_str() {
    assert_eq!(TemplateStatus::Approved.as_str(), "APPROVED");
    assert_eq!(TemplateStatus::Disabled.as_str(), "DISABLED");
    assert_eq!(TemplateCategory::Marketing.as_str(), "MARKETING");
    assert_eq!(TemplateCategory::Authentication.as_str(), "AUTHENTICATION");
    assert_eq!(HeaderFormat::Text.as_str(), "TEXT");
    assert_eq!(HeaderFormat::Location.as_str(), "LOCATION");
}

#[test]
fn test_quality_rating_as_str() {
    assert_eq!(QualityRating::Green.as_str(), "GREEN");
    assert_eq!(QualityRating::Na.as_str(), "NA");
}

#[test]
fn test_webhook_field_as_str() {
    assert_eq!(WebhookField::Messages.as_str(), "messages");
    assert_eq!(
        WebhookField::MessageTemplateStatusUpdate.as_str(),
        "message_template_status_update"
    );
    assert_eq!(WebhookField::Security.as_str(), "security");
}

#[test]
fn test_subscription_field_as_str() {
    assert_eq!(SubscriptionField::Messages.as_str(), "messages");
    assert_eq!(SubscriptionField::Flows.as_str(), "flows");
    assert_eq!(
        SubscriptionField::PhoneNumberQualityUpdate.as_str(),
        "phone_number_quality_update"
    );
}

#[test]
fn test_media_type_tables() {
    assert_eq!(
        MediaType::Audio.supported_mime_types(),
        &["audio/aac", "audio/mp4", "audio/mpeg", "audio/amr", "audio/ogg"]
    );
    assert_eq!(MediaType::Sticker.supported_mime_types(), &["image/webp"]);
    assert!(MediaType::Image.is_mime_supported("image/png"));
    assert!(!MediaType::Image.is_mime_supported("image/gif"));
    assert!(MediaType::Video.is_mime_supported("video/mp4"));
    assert!(!MediaType::Audio.is_mime_supported("video/mp4"));

    assert_eq!(MediaType::Audio.max_size(), 16 * 1024 * 1024);
    assert_eq!(MediaType::Document.max_size(), 100 * 1024 * 1024);
    assert_eq!(MediaType::Image.max_size(), 5 * 1024 * 1024);
    assert_eq!(MediaType::Sticker.max_size(), 500 * 1024);
    assert_eq!(MediaType::Video.max_size(), 16 * 1024 * 1024);
}

#[test]
fn test_button_reply_builder() {
    let b = Button::reply("btn_1", "Confirm");
    assert_eq!(b.button_type, "reply");
    assert_eq!(b.reply.id, "btn_1");
    assert_eq!(b.reply.title, "Confirm");
}

#[test]
fn test_list_row_builder() {
    let row = ListRow::new("row_1", "First");
    assert_eq!(row.id, "row_1");
    assert_eq!(row.title, "First");
    assert!(row.description.is_none());

    let row = row.with_description("The first row");
    assert_eq!(row.id, "row_1");
    assert_eq!(row.description.as_deref(), Some("The first row"));
}

#[test]
fn test_interactive_list_builder() {
    let sections = vec![ListSection {
        title: "Products".to_string(),
        rows: vec![ListRow::new("row_1", "First")],
    }];
    let i = Interactive::list(Some("Menu"), "Pick one", Some("bye"), "Open", sections);
    assert_eq!(i.interactive_type, "list");
    let header = i.header.unwrap();
    assert_eq!(header.header_type, "text");
    assert_eq!(header.text.as_deref(), Some("Menu"));
    assert!(header.image.is_none() && header.video.is_none() && header.document.is_none());
    assert_eq!(i.body.text, "Pick one");
    assert_eq!(i.footer.unwrap().text, "bye");
    assert_eq!(i.action.button.as_deref(), Some("Open"));
    assert!(i.action.buttons.is_none());
    let sections = i.action.sections.unwrap();
    assert_eq!(sections.len(), 1);
    assert_eq!(sections[0].title, "Products");
    assert_eq!(sections[0].rows[0].id, "row_1");
    assert!(i.action.catalog_id.is_none() && i.action.product_retailer_id.is_none());
}

#[test]
fn test_interactive_buttons_builder() {
    let i = Interactive::buttons(None, "Confirm?", None, vec![Button::reply("b1", "Yes")]);
    assert_eq!(i.interactive_type, "button");
    assert!(i.header.is_none());
    assert_eq!(i.body.text, "Confirm?");
    assert!(i.footer.is_none());
    assert!(i.action.button.is_none());
    let buttons = i.action.buttons.unwrap();
    assert_eq!(buttons.len(), 1);
    assert_eq!(buttons[0].button_type, "reply");
    assert_eq!(buttons[0].reply.id, "b1");
    assert_eq!(buttons[0].reply.title, "Yes");
    assert!(i.action.sections.is_none());
}

#[test]
fn test_product_builders() {
    let item = ProductItem::new("sku-1");
    assert_eq!(item.product_retailer_id, "sku-1");

    let section = ProductSection::new("Specials", vec![ProductItem::new("sku-1")]);
    assert_eq!(section.title, "Specials");
    assert_eq!(section.product_items.len(), 1);
    assert_eq!(section.product_items[0].product_retailer_id, "sku-1");
}

#[test]
fn test_business_profile_update_builder() {
    let update = BusinessProfileUpdate::new();
    assert_eq!(update.messaging_product, "whatsapp");
    assert!(update.about.is_none());
    assert!(update.websites.is_none());

    let update = BusinessProfileUpdate::new()
        .about("We sell things")
        .address("1 Main St")
        .description("A shop")
        .email("shop@example.com")
        .websites(vec!["https://example.com".to_string()])
        .vertical("RETAIL");
    assert_eq!(update.messaging_product, "whatsapp");
    assert_eq!(update.about.as_deref(), Some("We sell things"));
    assert_eq!(update.address.as_deref(), Some("1 Main St"));
    assert_eq!(update.description.as_deref(), Some("A shop"));
    assert_eq!(update.email.as_deref(), Some("shop@example.com"));
    assert_eq!(
        update.websites,
        Some(vec!["https://example.com".to_string()])
    );
    assert_eq!(update.vertical.as_deref(), Some("RETAIL"));
}

#[test]
fn test_create_template_builder() {
    let t = CreateTemplate::new("order_update", TemplateCategory::Utility, "en_US")
        .with_header(HeaderFormat::Text, Some("Your order".to_string()))
        .with_body("Order {{1}} has shipped")
        .with_footer("Thanks for shopping");
    assert_eq!(t.name, "order_update");
    assert_eq!(t.category, "UTILITY");
    assert_eq!(t.language, "en_US");
    assert_eq!(t.allow_category_change, None);
    assert_eq!(t.components.len(), 3);
    assert_eq!(t.components[0].component_type, "HEADER");
    assert_eq!(t.components[0].format.as_deref(), Some("TEXT"));
    assert_eq!(t.components[0].text.as_deref(), Some("Your order"));
    assert_eq!(t.components[1].component_type, "BODY");
    assert_eq!(
        t.components[1].text.as_deref(),
        Some("Order {{1}} has shipped")
    );
    assert_eq!(t.components[2].component_type, "FOOTER");
    assert_eq!(t.components[2].text.as_deref(), Some("Thanks for shopping"));
}

#[test]
fn test_create_template_with_buttons() {
    let t = CreateTemplate::new("promo", TemplateCategory::Marketing, "en").with_buttons(vec![
        wacloudapi::templates::TemplateButton {
            button_type: "QUICK_REPLY".to_string(),
            text: "Stop".to_string(),
            url: None,
            phone_number: None,
        },
    ]);
    assert_eq!(t.components.len(), 1);
    assert_eq!(t.components[0].component_type, "BUTTONS");
    let buttons = t.components[0].buttons.as_ref().unwrap();
    assert_eq!(buttons.len(), 1);
    assert_eq!(buttons[0].button_type, "QUICK_REPLY");
    assert_eq!(buttons[0].text, "Stop");
}
