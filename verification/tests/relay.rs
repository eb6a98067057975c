use lenso_email_smtp_plugin::config::{SmtpConfig, TlsMode};
use lenso_email_smtp_plugin::relay::{configured_relay, relay_builder, usable_relay};
use lenso_email_smtp_plugin::response::SendOutcome;

fn config(tls_mode: TlsMode) -> SmtpConfig {
    SmtpConfig {
        schema: "smtp".into(),
        database_url_secret: "secret://postgres".into(),
        provider: "smtp-primary".into(),
        smtp_host: "smtp.example.com".into(),
        smtp_port: 2525,
        tls_mode,
        username_secret_ref: "secret://smtp/user".into(),
        password_secret_ref: "secret://smtp/pass".into(),
        from_address: "hello@example.com".into(),
        from_name: None,
        message_id_domain: "mail.example.com".into(),
        command_timeout_ms: 10_000,
        effect_lease_ms: 20_000,
        max_message_bytes: 900_000,
        allowed_callers: vec!["notification".into()],
    }
}

#[test]
fn connections_are_encrypted_as_configured() {
    for (mode, encryption, other) in [
        (TlsMode::ImplicitTls, "Wrapper", "Required"),
        (TlsMode::StarttlsRequired, "Required", "Wrapper"),
    ] {
        let builder = relay_builder(&config(mode), "user-name", "pass-word").unwrap();
        let debug = format!("{builder:?}");
        assert!(debug.contains(encryption), "{debug}");
        assert!(!debug.contains(other));
        assert!(!debug.contains("Opportunistic"));
        assert!(debug.contains("smtp.example.com"));
        assert!(debug.contains("2525"));
        assert!(debug.contains("10s"));
        assert!(debug.contains("credentials: Some"));
        assert!(!debug.contains("user-name"));
        assert!(!debug.contains("pass-word"));
    }
}

#[test]
fn without_a_connection_the_relay_is_unusable() {
    assert!(matches!(usable_relay(None), Err(SendOutcome::RelayUnusable)));
    let builder = relay_builder(&config(TlsMode::ImplicitTls), "user-name", "pass-word");
    let set_up = format!("{:?}", builder.clone().unwrap());
    assert_eq!(format!("{:?}", usable_relay(builder).ok().unwrap()), set_up);
}

#[test]
fn the_relay_is_the_configured_one() {
    let relay = configured_relay(&config(TlsMode::ImplicitTls), "user-name", "pass-word");
    assert_eq!(relay.host, "smtp.example.com");
    assert_eq!(relay.port, 2525);
    assert_eq!(relay.username, "user-name");
    assert_eq!(relay.password, "pass-word");
    assert_eq!(relay.command_timeout_ms, 10_000);
}
