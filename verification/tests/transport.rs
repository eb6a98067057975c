use lenso_email_smtp_plugin::config::{SmtpConfig, TlsMode};
use lenso_email_smtp_plugin::email::{
    DispatchRequest, DispatchRequestMessage, DispatchRequestRecipient,
};
use lenso_email_smtp_plugin::transport::{
    attach_identities, bounded, check_request, compose_mail, content_digest,
    estimated_encoded_size, message_id, prepare_dispatch, request_fingerprint, valid_locale,
    PrepareError,
};

fn config() -> SmtpConfig {
    SmtpConfig {
        schema: "smtp".into(),
        database_url_secret: "secret://postgres".into(),
        provider: "smtp-primary".into(),
        smtp_host: "smtp.example.com".into(),
        smtp_port: 465,
        tls_mode: TlsMode::ImplicitTls,
        username_secret_ref: "secret://smtp/user".into(),
        password_secret_ref: "secret://smtp/pass".into(),
        from_address: "hello@example.com".into(),
        from_name: Some("Example".into()),
        message_id_domain: "mail.example.com".into(),
        command_timeout_ms: 10_000,
        effect_lease_ms: 20_000,
        max_message_bytes: 900_000,
        allowed_callers: vec!["notification".into()],
    }
}

fn request() -> DispatchRequest {
    let mut message = DispatchRequestMessage {
        content_digest: String::new(),
        html: "<p>Hello</p>".into(),
        locale: "en-US".into(),
        subject: "Hello".into(),
        template_id: "welcome".into(),
        template_version: "v1".into(),
        text: "Hello".into(),
    };
    message.content_digest = content_digest(&message);
    DispatchRequest {
        attempt_id: "attempt_1".into(),
        correlation_id: "story_1".into(),
        delivery_id: "delivery_1".into(),
        idempotency_key: "attempt_1".into(),
        message,
        recipient: DispatchRequestRecipient {
            address: "person@example.com".into(),
        },
        run_id: "run_1".into(),
    }
}

fn with_content(subject: &str, text: &str, html: &str) -> DispatchRequest {
    let mut request = request();
    request.message.subject = subject.into();
    request.message.text = text.into();
    request.message.html = html.into();
    request.message.content_digest = content_digest(&request.message);
    request
}

fn refusal(request: &DispatchRequest) -> PrepareError {
    prepare_dispatch(&config(), request).unwrap_err()
}

#[test]
fn validates_digest_and_builds_stable_message_id_without_recipient() {
    let first = prepare_dispatch(&config(), &request()).unwrap();
    let second = prepare_dispatch(&config(), &request()).unwrap();
    assert_eq!(first.message_id, second.message_id);
    assert!(!first.message_id.contains("person"));
    assert!(!first.request_fingerprint.contains("person"));
}

#[test]
fn rejects_modified_content_before_effect() {
    let mut request = request();
    request.message.html.push_str("changed");
    assert_eq!(
        prepare_dispatch(&config(), &request).unwrap_err(),
        PrepareError::Invalid
    );
}

#[test]
fn identities_have_known_values() {
    let prepared = prepare_dispatch(&config(), &request()).unwrap();
    assert_eq!(
        request().message.content_digest,
        "sha256:35d11139c6b9b52329638cc00c9da641252880b4d865b11c02895a4c9670d28f"
    );
    assert_eq!(
        prepared.message_id,
        "<23b14746ab3cca0ce1fa5dfb0b68c77c68e2fb48cb7b4c2470a668c1c3587878@mail.example.com>"
    );
    assert_eq!(
        prepared.request_fingerprint,
        "sha256:c5c645c2bbf3f7fed870aee653523539fc6a3341ece8ba3d9a3f33a94bdcaca5"
    );
    assert_eq!(
        prepared.idempotency_key_hash,
        "sha256:6d4468a80979cb27bcd19e026aa52ac91a631ad3afe752464893f87d39b9d3e1"
    );
    assert_eq!(
        prepared.delivery_id_hash,
        "sha256:af6c7667e4f4fecdab3565f8ee2ab9083f141a30f6714c4d91404b0343d209ce"
    );
    assert_eq!(prepared.attempt_id_hash, prepared.idempotency_key_hash);
    assert_ne!(prepared.delivery_id_hash, prepared.attempt_id_hash);
    for identity in [
        &prepared.idempotency_key_hash,
        &prepared.delivery_id_hash,
        &prepared.attempt_id_hash,
        &prepared.request_fingerprint,
    ] {
        assert_eq!(identity.len(), 71);
        assert!(identity.starts_with("sha256:"));
    }
}

#[test]
fn the_message_holds_what_was_asked_for() {
    let prepared = prepare_dispatch(&config(), &request()).unwrap();
    let formatted = String::from_utf8(prepared.message.formatted()).unwrap();
    assert!(formatted.contains("From: Example <hello@example.com>"), "{formatted}");
    assert!(formatted.contains("To: person@example.com"));
    assert!(formatted.contains("Subject: Hello"));
    assert!(formatted.contains(&format!("Message-ID: {}", prepared.message_id)));
    assert!(formatted.contains("User-Agent: lenso-email-smtp-plugin/0.1"));
    assert!(formatted.contains("multipart/alternative"));
    let text = formatted.find("text/plain").unwrap();
    let html = formatted.find("text/html").unwrap();
    assert!(text < html);
    assert!(formatted[text..html].contains("Hello"));
    assert!(formatted[html..].contains("<p>Hello</p>"));
    let envelope = prepared.message.envelope();
    assert_eq!(envelope.to().len(), 1);
    assert_eq!(envelope.to()[0].to_string(), "person@example.com");
    assert_eq!(envelope.from().unwrap().to_string(), "hello@example.com");
}

#[test]
fn the_mail_is_laid_out_from_the_request() {
    let mail = compose_mail(&config(), &request());
    assert_eq!(mail.from_name.as_deref(), Some("Example"));
    assert_eq!(mail.from_address, "hello@example.com");
    assert_eq!(mail.to_address, "person@example.com");
    assert_eq!(mail.subject, "Hello");
    assert_eq!(mail.message_id, message_id(&config(), &request()));
    assert_eq!(mail.user_agent, "lenso-email-smtp-plugin/0.1");
    assert_eq!(mail.text, "Hello");
    assert_eq!(mail.html, "<p>Hello</p>");
    let mut nameless = config();
    nameless.from_name = None;
    assert!(compose_mail(&nameless, &request()).from_name.is_none());
    assert!(prepare_dispatch(&nameless, &request()).is_ok());
}

#[test]
fn the_message_id_depends_on_the_attempt_alone() {
    let id = message_id(&config(), &request());
    let mut other = with_content("Other", "Other", "Other");
    other.recipient.address = "somebody@example.org".into();
    other.run_id = "run_2".into();
    other.correlation_id = "story_2".into();
    assert_eq!(message_id(&config(), &other), id);
    for change in 0..3 {
        let mut changed = request();
        let field = match change {
            0 => &mut changed.idempotency_key,
            1 => &mut changed.delivery_id,
            _ => &mut changed.attempt_id,
        };
        field.push('x');
        assert_ne!(message_id(&config(), &changed), id);
    }
    let mut elsewhere = config();
    elsewhere.message_id_domain = "example.org".into();
    assert!(message_id(&elsewhere, &request()).ends_with("@example.org>"));
}

#[test]
fn the_fingerprint_covers_each_field() {
    let fingerprint = request_fingerprint(&request());
    for change in 0..13 {
        let mut changed = request();
        let field = match change {
            0 => &mut changed.delivery_id,
            1 => &mut changed.attempt_id,
            2 => &mut changed.run_id,
            3 => &mut changed.idempotency_key,
            4 => &mut changed.recipient.address,
            5 => &mut changed.message.template_id,
            6 => &mut changed.message.template_version,
            7 => &mut changed.message.locale,
            8 => &mut changed.message.subject,
            9 => &mut changed.message.text,
            10 => &mut changed.message.html,
            11 => &mut changed.message.content_digest,
            _ => &mut changed.correlation_id,
        };
        field.push('x');
        assert_ne!(request_fingerprint(&changed), fingerprint, "{change}");
    }
}

#[test]
fn every_field_has_its_bounds() {
    for (field, maximum) in [
        (0, 160),
        (1, 160),
        (2, 160),
        (3, 240),
        (4, 240),
        (5, 160),
        (6, 80),
        (7, 32),
    ] {
        let set = |length: usize| {
            let mut request = request();
            let value = "\u{e9}".repeat(length);
            match field {
                0 => request.delivery_id = value,
                1 => request.attempt_id = value,
                2 => request.run_id = value,
                3 => request.idempotency_key = value,
                4 => request.correlation_id = value,
                5 => request.message.template_id = value,
                6 => request.message.template_version = value,
                _ => request.message.locale = value,
            }
            request
        };
        let minimum = if field == 7 { 2 } else { 1 };
        assert!(prepare_dispatch(&config(), &set(minimum)).is_ok(), "{field}");
        assert!(prepare_dispatch(&config(), &set(maximum)).is_ok(), "{field}");
        assert_eq!(refusal(&set(minimum - 1)), PrepareError::Invalid);
        assert_eq!(refusal(&set(maximum + 1)), PrepareError::Invalid);
    }
}

#[test]
fn content_has_its_bounds() {
    assert!(prepare_dispatch(&config(), &with_content(&"s".repeat(998), "t", "h")).is_ok());
    assert_eq!(
        refusal(&with_content(&"s".repeat(999), "t", "h")),
        PrepareError::Invalid
    );
    assert!(prepare_dispatch(&config(), &with_content("s", &"t".repeat(131_072), "h")).is_ok());
    assert_eq!(
        refusal(&with_content("s", &"t".repeat(131_073), "h")),
        PrepareError::Invalid
    );
    assert!(prepare_dispatch(&config(), &with_content("s", "t", &"h".repeat(262_144))).is_ok());
    assert_eq!(
        refusal(&with_content("s", "t", &"h".repeat(262_145))),
        PrepareError::Invalid
    );
    assert_eq!(refusal(&with_content("", "t", "h")), PrepareError::Invalid);
    assert_eq!(refusal(&with_content("s", "", "h")), PrepareError::Invalid);
    assert_eq!(refusal(&with_content("s", "t", "")), PrepareError::Invalid);
}

#[test]
fn subjects_stay_on_their_line() {
    for subject in ["a\nb", "a\rb", "a\r\nBcc: x@example.com"] {
        assert_eq!(
            refusal(&with_content(subject, "t", "h")),
            PrepareError::Invalid
        );
    }
}

#[test]
fn recipients_must_be_addresses() {
    for address in [
        "ab",
        "person",
        "person@",
        "@example.com",
        "person@@example.com",
        "two words@example.com",
        "a@example.com, b@example.com",
        "person@example.com\r\nBcc: x@example.com",
    ] {
        let mut request = request();
        request.recipient.address = address.into();
        assert_eq!(refusal(&request), PrepareError::Invalid, "{address}");
    }
    let mut request = request();
    request.recipient.address = format!("{}@example.com", "a".repeat(309));
    assert_eq!(refusal(&request), PrepareError::Invalid);
}

#[test]
fn large_messages_are_unsupported() {
    let request = request();
    let size = 3 * (5 + 5 + 12 + 18) + 8192;
    assert_eq!(estimated_encoded_size(&request), Some(size));
    let mut exact = config();
    exact.max_message_bytes = size;
    assert!(prepare_dispatch(&exact, &request).is_ok());
    exact.max_message_bytes = size - 1;
    assert_eq!(
        prepare_dispatch(&exact, &request).unwrap_err(),
        PrepareError::Unsupported
    );
    let mut invalid = with_content("", "t", "h");
    invalid.recipient.address = "nobody".into();
    assert_eq!(
        prepare_dispatch(&exact, &invalid).unwrap_err(),
        PrepareError::Invalid
    );
}

#[test]
fn a_request_is_judged_by_the_digest_it_is_given() {
    let request = request();
    assert_eq!(
        check_request(&config(), &request, &request.message.content_digest),
        Ok(())
    );
    assert_eq!(
        check_request(&config(), &request, "sha256:other"),
        Err(PrepareError::Invalid)
    );
}

#[test]
fn identities_are_attached_to_a_message_only() {
    assert_eq!(
        attach_identities(&config(), &request(), None).unwrap_err(),
        PrepareError::Invalid
    );
    let built = prepare_dispatch(&config(), &request()).unwrap().message;
    let attached = attach_identities(&config(), &request(), Some(built)).unwrap();
    assert_eq!(attached.message_id, message_id(&config(), &request()));
    assert_eq!(attached.request_fingerprint, request_fingerprint(&request()));
}

#[test]
fn lengths_are_counted_in_characters() {
    assert!(bounded("\u{1f600}\u{1f600}", 2, 2));
    assert!(!bounded("\u{1f600}\u{1f600}", 3, 8));
    assert!(!bounded("abc", 0, 2));
    assert!(valid_locale("en"));
    assert!(!valid_locale("e"));
}
