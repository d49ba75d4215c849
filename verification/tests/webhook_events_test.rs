//! Tests for webhook classification: remaining message kinds, statuses,
//! ordering, totality and purity.

use wacloudapi::webhooks::{WebhookEvent, WebhookPayload};

fn one_message_payload(message_json: &str) -> String {
    format!(
        r#"{{
        "object": "whatsapp_business_account",
        "entry": [{{
            "id": "WABA_ID",
            "changes": [{{
                "value": {{
                    "messaging_product": "whatsapp",
                    "metadata": {{
                        "display_phone_number": "628123456789",
                        "phone_number_id": "PHONE_ID"
                    }},
                    "messages": [{}]
                }},
                "field": "messages"
            }}]
        }}]
    }}"#,
        message_json
    )
}

fn one_status_payload(status_json: &str) -> String {
    format!(
        r#"{{
        "object": "whatsapp_business_account",
        "entry": [{{
            "id": "WABA_ID",
            "changes": [{{
                "value": {{
                    "messaging_product": "whatsapp",
                    "metadata": {{
                        "display_phone_number": "628123456789",
                        "phone_number_id": "PHONE_ID"
                    }},
                    "statuses": [{}]
                }},
                "field": "messages"
            }}]
        }}]
    }}"#,
        status_json
    )
}

#[test]
fn test_parse_audio_message_webhook() {
    let payload = one_message_payload(
        r#"{
            "from": "628111222333",
            "id": "wamid.AUD123",
            "timestamp": "1704067200",
            "type": "audio",
            "audio": { "id": "audio_media_1", "mime_type": "audio/ogg" }
        }"#,
    );
    let events = WebhookPayload::from_json(&payload).unwrap().events();
    assert_eq!(
        events,
        vec![WebhookEvent::AudioMessage {
            from: "628111222333".to_string(),
            media_id: "audio_media_1".to_string(),
            message_id: "wamid.AUD123".to_string(),
        }]
    );
}

#[test]
fn test_parse_document_message_webhook() {
    let payload = one_message_payload(
        r#"{
            "from": "628111222333",
            "id": "wamid.DOC123",
            "timestamp": "1704067200",
            "type": "document",
            "document": {
                "id": "doc_media_1",
                "mime_type": "application/pdf",
                "filename": "report.pdf"
            }
        }"#,
    );
    let events = WebhookPayload::from_json(&payload).unwrap().events();
    assert_eq!(
        events,
        vec![WebhookEvent::DocumentMessage {
            from: "628111222333".to_string(),
            media_id: "doc_media_1".to_string(),
            message_id: "wamid.DOC123".to_string(),
            filename: Some("report.pdf".to_string()),
        }]
    );
}

#[test]
fn test_parse_sticker_message_webhook() {
    let payload = one_message_payload(
        r#"{
            "from": "628111222333",
            "id": "wamid.STK123",
            "timestamp": "1704067200",
            "type": "sticker",
            "sticker": { "id": "sticker_media_1", "mime_type": "image/webp" }
        }"#,
    );
    let events = WebhookPayload::from_json(&payload).unwrap().events();
    assert_eq!(
        events,
        vec![WebhookEvent::StickerMessage {
            from: "628111222333".to_string(),
            media_id: "sticker_media_1".to_string(),
            message_id: "wamid.STK123".to_string(),
        }]
    );
}

#[test]
fn test_parse_contacts_message_webhook() {
    let payload = one_message_payload(
        r#"{
            "from": "628111222333",
            "id": "wamid.CON123",
            "timestamp": "1704067200",
            "type": "contacts",
            "contacts": [{
                "name": { "formatted_name": "Jane Doe" },
                "phones": [{ "phone": "+49123456789" }]
            }]
        }"#,
    );
    let events = WebhookPayload::from_json(&payload).unwrap().events();
    assert_eq!(
        events,
        vec![WebhookEvent::ContactMessage {
            from: "628111222333".to_string(),
            message_id: "wamid.CON123".to_string(),
        }]
    );
}

#[test]
fn test_empty_reaction_emoji_is_not_an_error() {
    let payload = one_message_payload(
        r#"{
            "from": "628111222333",
            "id": "wamid.REM123",
            "timestamp": "1704067200",
            "type": "reaction",
            "reaction": { "message_id": "wamid.TARGET9", "emoji": "" }
        }"#,
    );
    let events = WebhookPayload::from_json(&payload).unwrap().events();
    assert_eq!(
        events,
        vec![WebhookEvent::Reaction {
            from: "628111222333".to_string(),
            message_id: "wamid.TARGET9".to_string(),
            emoji: "".to_string(),
        }]
    );
}

#[test]
fn test_unsupported_future_type_degrades_to_unknown() {
    let payload = one_message_payload(
        r#"{
            "from": "628111222333",
            "id": "wamid.FUT123",
            "timestamp": "1704067200",
            "type": "unsupported_future_type"
        }, {
            "from": "628111222333",
            "id": "wamid.OK456",
            "timestamp": "1704067201",
            "type": "text",
            "text": { "body": "still here" }
        }"#,
    );
    let events = WebhookPayload::from_json(&payload).unwrap().events();
    assert_eq!(events.len(), 2);
    assert_eq!(events[0], WebhookEvent::Unknown);
    assert_eq!(
        events[1],
        WebhookEvent::TextMessage {
            from: "628111222333".to_string(),
            text: "still here".to_string(),
            message_id: "wamid.OK456".to_string(),
        }
    );
}

#[test]
fn test_text_type_without_text_object_is_unknown() {
    let payload = one_message_payload(
        r#"{
            "from": "628111222333",
            "id": "wamid.NOTXT",
            "timestamp": "1704067200",
            "type": "text"
        }"#,
    );
    let events = WebhookPayload::from_json(&payload).unwrap().events();
    assert_eq!(events, vec![WebhookEvent::Unknown]);
}

#[test]
fn test_interactive_inner_type_mismatch_is_unknown() {
    let payload = one_message_payload(
        r#"{
            "from": "628111222333",
            "id": "wamid.MIX123",
            "timestamp": "1704067200",
            "type": "interactive",
            "interactive": {
                "type": "button_reply",
                "list_reply": { "id": "row", "title": "Row" }
            }
        }"#,
    );
    let events = WebhookPayload::from_json(&payload).unwrap().events();
    assert_eq!(events, vec![WebhookEvent::Unknown]);
}

#[test]
fn test_status_sent_and_read() {
    let sent = one_status_payload(
        r#"{
            "id": "wamid.S1",
            "status": "sent",
            "timestamp": "1704067200",
            "recipient_id": "628111222333"
        }"#,
    );
    let events = WebhookPayload::from_json(&sent).unwrap().events();
    assert_eq!(
        events,
        vec![WebhookEvent::MessageSent {
            message_id: "wamid.S1".to_string(),
            recipient: "628111222333".to_string(),
        }]
    );

    let read = one_status_payload(
        r#"{
            "id": "wamid.S2",
            "status": "read",
            "timestamp": "1704067200",
            "recipient_id": "628111222333"
        }"#,
    );
    let events = WebhookPayload::from_json(&read).unwrap().events();
    assert_eq!(
        events,
        vec![WebhookEvent::MessageRead {
            message_id: "wamid.S2".to_string(),
            recipient: "628111222333".to_string(),
        }]
    );
}

#[test]
fn test_status_failed_takes_first_error_code() {
    let payload = one_status_payload(
        r#"{
            "id": "wamid.F1",
            "status": "failed",
            "timestamp": "1704067200",
            "recipient_id": "628111222333",
            "errors": [
                { "code": 131026, "title": "Undeliverable" },
                { "code": 470 }
            ]
        }"#,
    );
    let events = WebhookPayload::from_json(&payload).unwrap().events();
    assert_eq!(
        events,
        vec![WebhookEvent::MessageFailed {
            message_id: "wamid.F1".to_string(),
            recipient: "628111222333".to_string(),
            error_code: 131026,
        }]
    );
}

#[test]
fn test_status_failed_empty_errors_defaults_to_zero() {
    let payload = one_status_payload(
        r#"{
            "id": "wamid.F2",
            "status": "failed",
            "timestamp": "1704067200",
            "recipient_id": "628111222333",
            "errors": []
        }"#,
    );
    let events = WebhookPayload::from_json(&payload).unwrap().events();
    assert_eq!(
        events,
        vec![WebhookEvent::MessageFailed {
            message_id: "wamid.F2".to_string(),
            recipient: "628111222333".to_string(),
            error_code: 0,
        }]
    );
}

#[test]
fn test_status_unknown_discriminator_is_unknown() {
    let payload = one_status_payload(
        r#"{
            "id": "wamid.S3",
            "status": "vaporized",
            "timestamp": "1704067200",
            "recipient_id": "628111222333"
        }"#,
    );
    let events = WebhookPayload::from_json(&payload).unwrap().events();
    assert_eq!(events, vec![WebhookEvent::Unknown]);
}

#[test]
fn test_event_order_across_entries_changes_and_lists() {
    let payload = r#"{
        "object": "whatsapp_business_account",
        "entry": [{
            "id": "WABA_1",
            "changes": [{
                "value": {
                    "messaging_product": "whatsapp",
                    "metadata": {
                        "display_phone_number": "628123456789",
                        "phone_number_id": "PHONE_ID"
                    },
                    "messages": [{
                        "from": "1", "id": "m1", "timestamp": "1", "type": "text",
                        "text": { "body": "a" }
                    }, {
                        "from": "1", "id": "m2", "timestamp": "2", "type": "text",
                        "text": { "body": "b" }
                    }],
                    "statuses": [{
                        "id": "s1", "status": "sent", "timestamp": "3", "recipient_id": "2"
                    }]
                },
                "field": "messages"
            }, {
                "value": {
                    "messaging_product": "whatsapp",
                    "metadata": {
                        "display_phone_number": "628123456789",
                        "phone_number_id": "PHONE_ID"
                    },
                    "statuses": [{
                        "id": "s2", "status": "delivered", "timestamp": "4", "recipient_id": "2"
                    }]
                },
                "field": "messages"
            }]
        }, {
            "id": "WABA_2",
            "changes": [{
                "value": {
                    "messaging_product": "whatsapp",
                    "metadata": {
                        "display_phone_number": "628123456789",
                        "phone_number_id": "PHONE_ID"
                    },
                    "messages": [{
                        "from": "3", "id": "m3", "timestamp": "5", "type": "text",
                        "text": { "body": "c" }
                    }]
                },
                "field": "messages"
            }]
        }]
    }"#;
    let events = WebhookPayload::from_json(payload).unwrap().events();
    // 3 messages + 2 statuses, in entry-then-change-then-array order, the
    // message list of a change before its status list.
    assert_eq!(events.len(), 5);
    assert_eq!(
        events[0],
        WebhookEvent::TextMessage {
            from: "1".to_string(),
            text: "a".to_string(),
            message_id: "m1".to_string(),
        }
    );
    assert_eq!(
        events[1],
        WebhookEvent::TextMessage {
            from: "1".to_string(),
            text: "b".to_string(),
            message_id: "m2".to_string(),
        }
    );
    assert_eq!(
        events[2],
        WebhookEvent::MessageSent {
            message_id: "s1".to_string(),
            recipient: "2".to_string(),
        }
    );
    assert_eq!(
        events[3],
        WebhookEvent::MessageDelivered {
            message_id: "s2".to_string(),
            recipient: "2".to_string(),
        }
    );
    assert_eq!(
        events[4],
        WebhookEvent::TextMessage {
            from: "3".to_string(),
            text: "c".to_string(),
            message_id: "m3".to_string(),
        }
    );
}

#[test]
fn test_classify_twice_yields_equal_sequences() {
    let payload = r#"{
        "object": "whatsapp_business_account",
        "entry": [{
            "id": "WABA_ID",
            "changes": [{
                "value": {
                    "messaging_product": "whatsapp",
                    "metadata": {
                        "display_phone_number": "628123456789",
                        "phone_number_id": "PHONE_ID"
                    },
                    "messages": [{
                        "from": "628111222333",
                        "id": "wamid.TWICE",
                        "timestamp": "1704067200",
                        "type": "text",
                        "text": { "body": "same" }
                    }],
                    "statuses": [{
                        "id": "wamid.ST",
                        "status": "failed",
                        "timestamp": "1704067200",
                        "recipient_id": "628111222333"
                    }]
                },
                "field": "messages"
            }]
        }]
    }"#;
    let webhook = WebhookPayload::from_json(payload).unwrap();
    let first = webhook.events();
    let second = webhook.events();
    assert_eq!(first, second);
}

#[test]
fn test_malformed_json_is_a_parse_error() {
    assert!(matches!(
        WebhookPayload::from_json("{ not json"),
        Err(wacloudapi::Error::Json(_))
    ));
}

#[test]
fn test_missing_entry_is_an_envelope_error() {
    assert!(matches!(
        WebhookPayload::from_json(r#"{"object": "whatsapp_business_account"}"#),
        Err(wacloudapi::Error::Envelope(_))
    ));
}
