use mailer::config::{EmailConfig, EnvSource, SmtpCredentials};
use mailer::tls::TlsMode;

fn s(v: &str) -> Option<String> {
    Some(v.to_string())
}

fn smtp_env() -> EnvSource {
    EnvSource {
        mailer_type: s("smtp"),
        address: s("smtp.example.com"),
        username: s("user"),
        password: s("secret"),
        port: None,
        tls_mode: None,
        from_email: None,
        from_name: None,
        legacy_from: None,
    }
}

#[test]
fn disabled_when_mailer_type_is_unset() {
    let mut env = smtp_env();
    env.mailer_type = None;
    let (res, warnings) = EmailConfig::new(&env);
    assert!(matches!(res, Ok(EmailConfig::Disabled)));
    assert!(warnings.is_empty());
}

#[test]
fn disabled_when_mailer_type_is_something_else() {
    let mut env = smtp_env();
    env.mailer_type = s("sendmail");
    // Even invalid values elsewhere are never read.
    env.address = None;
    env.port = s("not a number");
    let (res, warnings) = EmailConfig::new(&env);
    assert!(matches!(res, Ok(EmailConfig::Disabled)));
    assert!(warnings.is_empty());
}

#[test]
fn resolves_a_full_configuration() {
    let mut env = smtp_env();
    env.port = s("587");
    env.tls_mode = s("starttls");
    env.from_email = s("a@x.com");
    env.from_name = s("A");
    let (res, warnings) = EmailConfig::new(&env);
    let config = res.unwrap();
    match config {
        EmailConfig::Smtp(c) => {
            assert_eq!(c.address, "smtp.example.com");
            assert_eq!(c.username, "user");
            assert_eq!(c.password, "secret");
            assert_eq!(c.port, 587);
            assert_eq!(c.tls_mode, TlsMode::StartTls);
            assert_eq!(c.default_from, "A <a@x.com>");
        }
        EmailConfig::Disabled => panic!("expected SMTP configuration"),
    }
    assert!(warnings.is_empty());
}

#[test]
fn port_defaults_to_465_and_tls_is_inferred() {
    let (res, warnings) = SmtpCredentials::new(&smtp_env());
    let c = res.unwrap();
    assert_eq!(c.port, 465);
    assert_eq!(c.tls_mode, TlsMode::ImplicitTls);
    assert!(warnings.is_empty());
}

#[test]
fn tls_mode_string_wins_over_the_port() {
    let mut env = smtp_env();
    env.port = s("465");
    env.tls_mode = s("NONE");
    let (res, _) = SmtpCredentials::new(&env);
    assert_eq!(res.unwrap().tls_mode, TlsMode::NoTls);
}

#[test]
fn name_and_email_form_a_full_mailbox() {
    let mut env = smtp_env();
    env.from_email = s("a@x.com");
    env.from_name = s("A");
    let (res, _) = SmtpCredentials::new(&env);
    assert_eq!(res.unwrap().default_from, "A <a@x.com>");
}

#[test]
fn email_alone_gets_the_application_label() {
    let mut env = smtp_env();
    env.from_email = s("a@x.com");
    let (res, _) = SmtpCredentials::new(&env);
    assert_eq!(res.unwrap().default_from, "Hoodik <a@x.com>");
}

#[test]
fn deprecated_from_is_used_verbatim_with_a_warning() {
    let mut env = smtp_env();
    env.legacy_from = s("B <b@x.com>");
    let (res, warnings) = SmtpCredentials::new(&env);
    assert_eq!(res.unwrap().default_from, "B <b@x.com>");
    assert_eq!(warnings.len(), 1);
    assert_eq!(
        warnings[0],
        "SMTP_DEFAULT_FROM is deprecated and will be removed in a future version. \
         Please use SMTP_DEFAULT_FROM_EMAIL and SMTP_DEFAULT_FROM_NAME instead."
    );
}

#[test]
fn preferred_fields_win_over_the_deprecated_one() {
    let mut env = smtp_env();
    env.from_email = s("a@x.com");
    env.legacy_from = s("B <b@x.com>");
    let (res, warnings) = SmtpCredentials::new(&env);
    assert_eq!(res.unwrap().default_from, "Hoodik <a@x.com>");
    assert!(warnings.is_empty());
}

#[test]
fn empty_fields_defer_to_an_empty_default_from() {
    let mut env = smtp_env();
    env.from_email = s("");
    env.from_name = s("A");
    let (res, warnings) = SmtpCredentials::new(&env);
    assert_eq!(res.unwrap().default_from, "");
    assert!(warnings.is_empty());
}

#[test]
fn invalid_tls_mode_falls_back_to_the_port_with_a_warning() {
    let mut env = smtp_env();
    env.port = s("587");
    env.tls_mode = s("bogus");
    let (res, warnings) = SmtpCredentials::new(&env);
    let c = res.unwrap();
    assert_eq!(c.tls_mode, TlsMode::StartTls);
    assert_eq!(warnings.len(), 1);
    assert_eq!(
        warnings[0],
        "Invalid SMTP_TLS_MODE 'bogus'. Valid values are: starttls, implicit, none. \
         Auto-detected 'starttls' from port 587"
    );
}

#[test]
fn missing_address_is_a_named_configuration_error() {
    let mut env = smtp_env();
    env.address = None;
    let (res, warnings) = SmtpCredentials::new(&env);
    let err = res.unwrap_err();
    assert_eq!(err.missing, vec!["SMTP_ADDRESS".to_string()]);
    assert!(warnings.is_empty());
}

#[test]
fn every_missing_field_is_aggregated_into_one_error() {
    let mut env = smtp_env();
    env.address = None;
    env.username = None;
    env.password = None;
    env.port = s("not-a-number");
    let (res, _) = SmtpCredentials::new(&env);
    let err = res.unwrap_err();
    assert_eq!(
        err.missing,
        vec![
            "SMTP_ADDRESS".to_string(),
            "SMTP_USERNAME".to_string(),
            "SMTP_PASSWORD".to_string(),
            "SMTP_PORT".to_string(),
        ]
    );
}

#[test]
fn out_of_range_port_is_an_error() {
    let mut env = smtp_env();
    env.port = s("70000");
    let (res, _) = SmtpCredentials::new(&env);
    assert_eq!(res.unwrap_err().missing, vec!["SMTP_PORT".to_string()]);
}

#[test]
fn mailer_error_reaches_email_config() {
    let mut env = smtp_env();
    env.username = None;
    let (res, _) = EmailConfig::new(&env);
    assert_eq!(res.unwrap_err().missing, vec!["SMTP_USERNAME".to_string()]);
}

#[test]
fn default_from_mailbox_validation_accepts_and_rejects() {
    let mut env = smtp_env();
    env.from_email = s("a@x.com");
    env.from_name = s("A");
    let (res, _) = SmtpCredentials::new(&env);
    let good = res.unwrap();
    assert!(good.default_from_parses());

    let (res2, _) = SmtpCredentials::new(&smtp_env());
    let bad = res2.unwrap();
    assert_eq!(bad.default_from, "");
    assert!(!bad.default_from_parses());
}
