use lenso_email_smtp_plugin::schema::{schema_plan, CREATE_SMTP_EFFECTS};

#[test]
fn migration_contains_effect_fence_without_sensitive_payload_columns() {
    let sql = CREATE_SMTP_EFFECTS;
    assert!(sql.contains("fence bigint"));
    assert!(sql.contains("lease_expires_at"));
    assert!(sql.contains("UNIQUE (delivery_id_hash, attempt_id_hash)"));
    for forbidden in [
        "recipient text",
        "subject text",
        "html text",
        "password text",
    ] {
        assert!(!sql.contains(forbidden));
    }
}

#[test]
fn a_plan_carries_the_schema_and_the_one_migration() {
    let plan = schema_plan("lenso_email_smtp").unwrap();
    assert_eq!(plan.schema(), "lenso_email_smtp");
    assert_eq!(plan.current_version(), 1);
}

#[test]
fn plans_exist_for_names_that_one_plugin_can_own() {
    for name in ["smtp", "s", "a1_b2", "publicity", "pgx"] {
        assert!(schema_plan(name).is_ok(), "{name}");
    }
    let longest = "a".repeat(63);
    assert!(schema_plan(&longest).is_ok());
    let too_long = "a".repeat(64);
    for name in [
        "",
        "public",
        "information_schema",
        "pg_catalog",
        "pg_",
        "1smtp",
        "_smtp",
        "Smtp",
        "smtp-effects",
        "smtp.effects",
        "sm\u{e9}",
        "smtp ",
        too_long.as_str(),
    ] {
        assert!(schema_plan(name).is_err(), "{name}");
    }
}
