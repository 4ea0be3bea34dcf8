use mailer::template::{Template, TemplateError};

fn based() -> Template {
    Template::new("Welcome", "A short preview")
}

#[test]
fn render_substitutes_a_registered_variable() {
    let mut t = based();
    t.add_template_var("app_name", "X");
    t.register_content_template("<h1>Hello {{app_name}}!</h1>").unwrap();
    let t = t.to("a@x.com").unwrap();
    let m = t.message_with_from("S <s@x.com>").unwrap();
    assert_eq!(m.body, "<h1>Hello X!</h1>");
    assert!(!m.body.contains("{{"));
    assert_eq!(m.from, "S <s@x.com>");
    assert_eq!(m.to, "a@x.com");
    assert_eq!(m.subject, "Welcome");
    assert_eq!(m.preview, "A short preview");
}

#[test]
fn render_substitutes_every_occurrence() {
    let mut t = based();
    t.add_template_var("app_name", "X");
    t.add_template_var("v", "1.0");
    t.register_content_template("{{app_name}} {{v}} {{app_name}}").unwrap();
    let t = t.to("a@x.com").unwrap();
    let m = t.message_with_from("s@x.com").unwrap();
    assert_eq!(m.body, "X 1.0 X");
}

#[test]
fn the_last_registration_of_a_name_wins() {
    let mut t = based();
    t.add_template_var("app_name", "X");
    t.add_template_var("app_name", "Y");
    t.register_content_template("{{app_name}}").unwrap();
    let t = t.to("a@x.com").unwrap();
    let m = t.message_with_from("s@x.com").unwrap();
    assert_eq!(m.body, "Y");
}

#[test]
fn an_unregistered_marker_renders_empty() {
    let mut t = based();
    t.register_content_template("a{{missing}}b").unwrap();
    let t = t.to("a@x.com").unwrap();
    let m = t.message_with_from("s@x.com").unwrap();
    assert_eq!(m.body, "ab");
}

#[test]
fn an_unclosed_marker_is_rejected_at_registration() {
    let mut t = based();
    let r = t.register_content_template("oops {{app_name");
    assert_eq!(r, Err(TemplateError::UnrenderableBody));
    assert!(t.body.is_none());
}

#[test]
fn plain_text_goes_through_unchanged() {
    let mut t = based();
    t.register_content_template("no markers here, just } and { alone").unwrap();
    let t = t.to("a@x.com").unwrap();
    let m = t.message_with_from("s@x.com").unwrap();
    assert_eq!(m.body, "no markers here, just } and { alone");
}

#[test]
fn message_requires_a_recipient() {
    let mut t = based();
    t.register_content_template("body").unwrap();
    let r = t.message_with_from("s@x.com");
    assert_eq!(r.unwrap_err(), TemplateError::MissingRecipient);
}

#[test]
fn message_requires_a_body() {
    let t = based().to("a@x.com").unwrap();
    let r = t.message_with_from("s@x.com");
    assert_eq!(r.unwrap_err(), TemplateError::MissingBody);
}

#[test]
fn message_requires_a_from_mailbox() {
    let mut t = based();
    t.register_content_template("body").unwrap();
    let t = t.to("a@x.com").unwrap();
    assert_eq!(t.message().unwrap_err(), TemplateError::MissingFrom);
}

#[test]
fn an_explicit_from_wins_over_the_default() {
    let mut t = based();
    t.register_content_template("body").unwrap();
    let t = t.to("a@x.com").unwrap();
    let t = t.from_mailbox("Me <me@x.com>").unwrap();
    assert!(t.has_from());
    let m = t.message_with_from("default@x.com").unwrap();
    assert_eq!(m.from, "Me <me@x.com>");
    let m2 = t.message().unwrap();
    assert_eq!(m2.from, "Me <me@x.com>");
}

#[test]
fn an_invalid_recipient_is_rejected() {
    let r = based().to("definitely not a mailbox");
    assert!(matches!(r, Err(TemplateError::InvalidMailbox)));
}

#[test]
fn an_invalid_from_is_rejected() {
    let r = based().from_mailbox("no-at-sign");
    assert!(matches!(r, Err(TemplateError::InvalidMailbox)));
}

#[test]
fn skip_send_is_an_independent_flag() {
    let mut t = based();
    assert!(!t.skip_send);
    t.set_skip_send(true);
    assert!(t.skip_send);
    assert!(!t.has_from());
    t.set_skip_send(false);
    assert!(!t.skip_send);
}
