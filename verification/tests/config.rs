use lenso_email_smtp_plugin::config::{
    valid_hostname, valid_id, valid_secret_ref, validate_config, ConfigError, SmtpConfig, TlsMode,
};
use lenso_email_smtp_plugin::failure::RuntimeFailure;
use lenso_email_smtp_plugin::text::contains_white_space;

fn config() -> SmtpConfig {
    SmtpConfig {
        schema: "smtp".into(),
        database_url_secret: "secret://postgres/smtp".into(),
        provider: "smtp-primary".into(),
        smtp_host: "smtp.example.com".into(),
        smtp_port: 465,
        tls_mode: TlsMode::ImplicitTls,
        username_secret_ref: "secret://smtp/username".into(),
        password_secret_ref: "secret://smtp/password".into(),
        from_address: "hello@example.com".into(),
        from_name: Some("Example".into()),
        message_id_domain: "mail.example.com".into(),
        command_timeout_ms: 10_000,
        effect_lease_ms: 12_000,
        max_message_bytes: 900_000,
        allowed_callers: vec!["notification".into()],
    }
}

#[test]
fn validates_tls_only_configuration_and_lease_boundary() {
    config().validate().unwrap();
    let mut invalid = config();
    invalid.effect_lease_ms = invalid.command_timeout_ms;
    assert_eq!(invalid.validate(), Err(ConfigError::Limits));
}

#[test]
fn debug_redacts_all_secret_references_and_sender_address() {
    let debug = format!("{:?}", config().redacted());
    assert!(!debug.contains("secret://"));
    assert!(!debug.contains("hello@example.com"));
    assert!(debug.contains("smtp.example.com"));
}

#[test]
fn rejects_plaintext_or_url_shaped_endpoints_by_construction() {
    let mut invalid = config();
    invalid.smtp_host = "smtp://smtp.example.com".into();
    assert_eq!(invalid.validate(), Err(ConfigError::Endpoint));
}

#[test]
fn what_is_shown_keeps_everything_that_is_no_secret() {
    let shown = config().redacted();
    assert_eq!(shown.schema, "smtp");
    assert_eq!(shown.provider, "smtp-primary");
    assert_eq!(shown.smtp_port, 465);
    assert_eq!(shown.tls_mode, TlsMode::ImplicitTls);
    assert_eq!(shown.from_address, "<redacted>");
    assert_eq!(shown.message_id_domain, "mail.example.com");
    assert_eq!(shown.command_timeout_ms, 10_000);
    assert_eq!(shown.effect_lease_ms, 12_000);
    assert_eq!(shown.max_message_bytes, 900_000);
    assert_eq!(shown.allowed_callers, vec!["notification".to_string()]);
    let mut other = config();
    other.username_secret_ref = "secret://elsewhere".into();
    other.from_address = "bye@example.com".into();
    other.from_name = None;
    assert_eq!(other.redacted(), shown);
}

#[test]
fn each_rule_has_its_error() {
    let mut invalid = config();
    invalid.schema = "public".into();
    assert_eq!(invalid.validate(), Err(ConfigError::Schema));

    for (database, username, password) in [
        ("", "u", "p"),
        ("d", "u v", "p"),
        ("d", "u", "p\u{2003}"),
        ("d", "same", "same"),
    ] {
        let mut invalid = config();
        invalid.database_url_secret = database.into();
        invalid.username_secret_ref = username.into();
        invalid.password_secret_ref = password.into();
        assert_eq!(invalid.validate(), Err(ConfigError::Secrets));
    }

    let mut invalid = config();
    invalid.provider = "smtp primary".into();
    assert_eq!(invalid.validate(), Err(ConfigError::Endpoint));
    let mut invalid = config();
    invalid.message_id_domain = "mail..example.com".into();
    assert_eq!(invalid.validate(), Err(ConfigError::Endpoint));
    let mut invalid = config();
    invalid.smtp_port = 0;
    assert_eq!(invalid.validate(), Err(ConfigError::Endpoint));

    for address in ["a@", "hello", "hello@@example.com", "hello @example.com", ""] {
        let mut invalid = config();
        invalid.from_address = address.into();
        assert_eq!(invalid.validate(), Err(ConfigError::Sender), "{address}");
    }
    for name in ["Example\r\nBcc: x@example.com".to_string(), "n".repeat(161)] {
        let mut invalid = config();
        invalid.from_name = Some(name);
        assert_eq!(invalid.validate(), Err(ConfigError::Sender));
    }

    let mut invalid = config();
    invalid.allowed_callers = vec![];
    assert_eq!(invalid.validate(), Err(ConfigError::Callers));
    let mut invalid = config();
    invalid.allowed_callers = vec!["a".into(), "b".into(), "a".into()];
    assert_eq!(invalid.validate(), Err(ConfigError::Callers));
    let mut invalid = config();
    invalid.allowed_callers = vec!["two words".into()];
    assert_eq!(invalid.validate(), Err(ConfigError::Callers));
    let mut many = config();
    many.allowed_callers = (0..64).map(|i| format!("caller-{i}")).collect();
    assert_eq!(many.validate(), Ok(()));
    many.allowed_callers.push("one-more".into());
    assert_eq!(many.validate(), Err(ConfigError::Callers));
}

#[test]
fn the_first_broken_rule_is_reported() {
    let mut invalid = config();
    invalid.allowed_callers = vec![];
    invalid.max_message_bytes = 0;
    assert_eq!(invalid.validate(), Err(ConfigError::Limits));
    invalid.smtp_port = 0;
    assert_eq!(invalid.validate(), Err(ConfigError::Endpoint));
    invalid.schema = String::new();
    assert_eq!(invalid.validate(), Err(ConfigError::Schema));
}

#[test]
fn limits_hold_at_their_boundaries() {
    for (timeout, lease, bytes, valid) in [
        (1_000, 2_500, 1_024, true),
        (1_000, 2_499, 1_024, false),
        (999, 2_500, 1_024, false),
        (120_000, 121_500, 1_048_576, true),
        (120_000, 121_499, 1_048_576, false),
        (120_001, 300_000, 1_048_576, false),
        (1_000, 300_000, 1_024, true),
        (1_000, 300_001, 1_024, false),
        (1_000, 2_500, 1_023, false),
        (1_000, 2_500, 1_048_577, false),
        (u64::MAX, u64::MAX, 1_024, false),
    ] {
        let mut candidate = config();
        candidate.command_timeout_ms = timeout;
        candidate.effect_lease_ms = lease;
        candidate.max_message_bytes = bytes;
        assert_eq!(candidate.validate().is_ok(), valid, "{timeout} {lease} {bytes}");
    }
}

#[test]
fn a_valid_lease_outlasts_the_submission() {
    let valid = config();
    assert_eq!(valid.send_timeout_ms(), 11_000);
    assert_eq!(valid.lease_ms(), 12_000);
    let mut extreme = config();
    extreme.command_timeout_ms = u64::MAX;
    extreme.effect_lease_ms = u64::MAX;
    assert_eq!(extreme.send_timeout_ms(), u64::MAX);
    assert_eq!(extreme.lease_ms(), i64::MAX);
}

#[test]
fn the_kernel_is_told_what_is_wrong() {
    assert_eq!(validate_config(&config()), Ok(()));
    let mut invalid = config();
    invalid.smtp_port = 0;
    assert_eq!(
        validate_config(&invalid),
        Err(RuntimeFailure::InvalidResolvedPlan {
            detail: "SMTP Plugin configuration is invalid: \
                invalid SMTP endpoint or provider identifier"
                .into(),
        })
    );
    for (error, text) in [
        (ConfigError::Schema, "invalid PostgreSQL schema"),
        (ConfigError::Secrets, "invalid or aliased secret reference"),
        (
            ConfigError::Endpoint,
            "invalid SMTP endpoint or provider identifier",
        ),
        (ConfigError::Sender, "invalid sender mailbox"),
        (
            ConfigError::Limits,
            "invalid timeout, lease, or message-size limit",
        ),
        (
            ConfigError::Callers,
            "caller allowlist must contain unique Instance keys",
        ),
    ] {
        assert_eq!(error.message(), text);
    }
}

#[test]
fn only_listed_instances_are_allowed() {
    let config = config();
    assert!(config.allowed(Some("notification")));
    assert!(!config.allowed(Some("notification2")));
    assert!(!config.allowed(Some("")));
    assert!(!config.allowed(None));
}

#[test]
fn secret_references_hold_no_white_space() {
    assert!(valid_secret_ref("secret://smtp/username"));
    assert!(!valid_secret_ref(""));
    assert!(!valid_secret_ref("a b"));
    assert!(valid_secret_ref(&"a".repeat(256)));
    assert!(!valid_secret_ref(&"a".repeat(257)));
    assert!(!valid_secret_ref(&"\u{e9}".repeat(129)));
}

#[test]
fn white_space_is_what_unicode_says() {
    for code in 0..=0x10ffffu32 {
        if let Some(c) = char::from_u32(code) {
            let text = c.to_string();
            assert_eq!(contains_white_space(&text), c.is_whitespace(), "{code:x}");
        }
    }
}

#[test]
fn identifiers_are_short_and_plain() {
    assert!(valid_id("A-z_0.9:/", 9));
    assert!(!valid_id("A-z_0.9:/", 8));
    assert!(!valid_id("", 8));
    assert!(!valid_id("a b", 8));
    assert!(!valid_id("a@b", 8));
    assert!(!valid_id("\u{e9}", 8));
}

#[test]
fn host_names_are_dotted_labels() {
    let label = "a".repeat(63);
    let long_label = "a".repeat(64);
    let full = format!("{label}.{label}.{label}.{}", "b".repeat(61));
    let over = format!("{label}.{label}.{label}.{}", "b".repeat(62));
    for host in [
        "localhost",
        "smtp.example.com",
        "1.2.3.4",
        "a-b.c",
        "A.B",
        label.as_str(),
        full.as_str(),
    ] {
        assert!(valid_hostname(host), "{host}");
    }
    for host in [
        "",
        ".",
        ".example.com",
        "example.com.",
        "a..b",
        "-a.b",
        "a-.b",
        "a.-b",
        "a_b.c",
        "smtp.example.com:465",
        "smtp://example.com",
        "ex\u{e4}mple.com",
        "exa mple.com",
        long_label.as_str(),
        over.as_str(),
    ] {
        assert!(!valid_hostname(host), "{host}");
    }
}
