use lambda_rocket::webhook::{
    dispatch_payload, handle_webhook, webhook_status, WebhookError, WebhookOutcome, WebhookPayload,
};

const PING_BODY: &[u8] = br#"{"hook_id": 42, "zen": "Keep it logically awesome."}"#;

#[test]
fn ping_is_acknowledged_with_its_hook_id() {
    let r = handle_webhook(Some("ping"), PING_BODY);
    assert_eq!(webhook_status(&r), 200);
    match r {
        Ok(WebhookOutcome::Acknowledged { hook_id, zen }) => {
            assert_eq!(hook_id, Some(42));
            assert_eq!(zen, Some("Keep it logically awesome.".to_string()));
        }
        _ => panic!("expected an acknowledged ping"),
    }
}

#[test]
fn ping_without_fields_is_acknowledged() {
    match handle_webhook(Some("ping"), b"{}") {
        Ok(WebhookOutcome::Acknowledged { hook_id, zen }) => {
            assert_eq!(hook_id, None);
            assert_eq!(zen, None);
        }
        _ => panic!("expected an acknowledged ping"),
    }
}

#[test]
fn unknown_kind_is_reported_not_failed() {
    let r = handle_webhook(Some("some-unknown-kind"), br#"{"anything": [1, 2, 3]}"#);
    assert_eq!(webhook_status(&r), 200);
    match r {
        Ok(WebhookOutcome::Unhandled { kind }) => assert_eq!(kind, "some-unknown-kind"),
        _ => panic!("expected an unhandled kind"),
    }
}

#[test]
fn missing_kind_is_a_client_error() {
    let r = handle_webhook(None, PING_BODY);
    assert!(matches!(r, Err(WebhookError::MissingTypeTag)));
    assert_eq!(webhook_status(&r), 400);
    let r = handle_webhook(None, b"not even json");
    assert!(matches!(r, Err(WebhookError::MissingTypeTag)));
}

#[test]
fn body_that_does_not_decode_is_a_client_error() {
    let r = handle_webhook(Some("ping"), b"not json");
    assert!(matches!(r, Err(WebhookError::UnparseableBody)));
    assert_eq!(webhook_status(&r), 400);
    let r = handle_webhook(Some("ping"), br#"{"hook_id": "forty-two"}"#);
    assert!(matches!(r, Err(WebhookError::UnparseableBody)));
}

#[test]
fn dispatch_by_variant() {
    let p = WebhookPayload::Ping { hook_id: Some(7), zen: None };
    assert!(matches!(
        dispatch_payload("ping", Some(p)),
        Ok(WebhookOutcome::Acknowledged { hook_id: Some(7), zen: None })
    ));
    match dispatch_payload("push", Some(WebhookPayload::Other)) {
        Ok(WebhookOutcome::Unhandled { kind }) => assert_eq!(kind, "push"),
        _ => panic!("expected an unhandled kind"),
    }
    assert!(matches!(dispatch_payload("ping", None), Err(WebhookError::UnparseableBody)));
}

#[test]
fn unknown_kind_with_any_body_is_reported_not_failed() {
    let bodies: [&[u8]; 4] = [b"not json", b"", &[0xff, 0x00, 0xfe], b"[1, 2"];
    for body in bodies {
        let r = handle_webhook(Some("some-unknown-kind"), body);
        assert_eq!(webhook_status(&r), 200);
        match r {
            Ok(WebhookOutcome::Unhandled { kind }) => assert_eq!(kind, "some-unknown-kind"),
            _ => panic!("expected an unhandled kind"),
        }
    }
}

#[test]
fn known_kind_other_than_ping_is_unhandled() {
    let r = handle_webhook(Some("star"), br#"{"action": "created", "starred_at": null}"#);
    assert_eq!(webhook_status(&r), 200);
    match r {
        Ok(WebhookOutcome::Unhandled { kind }) => assert_eq!(kind, "star"),
        _ => panic!("expected an unhandled kind"),
    }
}

#[test]
fn known_kind_with_mismatched_body_is_a_client_error() {
    let r = handle_webhook(Some("push"), b"{}");
    assert!(matches!(r, Err(WebhookError::UnparseableBody)));
    assert_eq!(webhook_status(&r), 400);
    assert!(matches!(handle_webhook(Some("push"), b"not json"), Err(WebhookError::UnparseableBody)));
}
