use mailer::sender::{send_tally, BatchStep, SendBatch, SendError, TransportOutcome};
use mailer::template::{Template, TemplateError};

fn message_to(to: &str) -> Template {
    let mut t = Template::new("Subject", "Preview");
    t.add_template_var("app_name", "X");
    t.register_content_template("Hello {{app_name}}").unwrap();
    t.to(to).unwrap()
}

#[test]
fn a_transport_error_mid_batch_returns_an_error_not_a_partial_count() {
    let msgs = vec![
        message_to("a@x.com"),
        message_to("b@x.com"),
        message_to("c@x.com"),
    ];
    let outcomes = vec![
        TransportOutcome::Positive,
        TransportOutcome::Failed("connection reset".to_string()),
        TransportOutcome::Positive,
    ];
    let r = send_tally(&msgs, "s@x.com", &outcomes);
    match r {
        Err(SendError::Transport(s)) => assert_eq!(s, "connection reset"),
        other => panic!("expected a transport error, got {:?}", other),
    }
}

#[test]
fn a_skipped_message_counts_as_sent_without_the_transport() {
    let mut skipped = message_to("a@x.com");
    skipped.set_skip_send(true);
    let msgs = vec![skipped, message_to("b@x.com")];
    // The outcome slot of the skipped message is never consulted: even a
    // transport failure there cannot surface.
    let outcomes = vec![
        TransportOutcome::Failed("never reached".to_string()),
        TransportOutcome::Positive,
    ];
    let r = send_tally(&msgs, "s@x.com", &outcomes);
    assert_eq!(r.unwrap(), 2);
}

#[test]
fn a_negative_acknowledgment_is_tolerated_but_not_counted() {
    let msgs = vec![
        message_to("a@x.com"),
        message_to("b@x.com"),
        message_to("c@x.com"),
    ];
    let outcomes = vec![
        TransportOutcome::Positive,
        TransportOutcome::Negative,
        TransportOutcome::Positive,
    ];
    let r = send_tally(&msgs, "s@x.com", &outcomes);
    assert_eq!(r.unwrap(), 2);
}

#[test]
fn an_all_positive_batch_counts_every_message() {
    let msgs = vec![
        message_to("a@x.com"),
        message_to("b@x.com"),
        message_to("c@x.com"),
    ];
    let outcomes = vec![
        TransportOutcome::Positive,
        TransportOutcome::Positive,
        TransportOutcome::Positive,
    ];
    assert_eq!(send_tally(&msgs, "s@x.com", &outcomes).unwrap(), 3);
}

#[test]
fn a_message_that_cannot_render_aborts_the_batch() {
    let broken = Template::new("Subject", "Preview").to("a@x.com").unwrap();
    let msgs = vec![message_to("a@x.com"), broken];
    let outcomes = vec![TransportOutcome::Positive, TransportOutcome::Positive];
    let r = send_tally(&msgs, "s@x.com", &outcomes);
    assert!(matches!(
        r,
        Err(SendError::Message(TemplateError::MissingBody))
    ));
}

#[test]
fn the_batch_machine_stamps_the_default_from_and_tallies() {
    let mut skipped = message_to("a@x.com");
    skipped.set_skip_send(true);
    let explicit = message_to("b@x.com").from_mailbox("Me <me@x.com>").unwrap();
    let msgs = vec![skipped, explicit, message_to("c@x.com")];
    let mut batch = SendBatch::new(msgs, "Default <d@x.com>".to_string());

    // The skipped message is passed over and counted; the second message
    // keeps its explicit from-mailbox.
    let w1 = match batch.next() {
        BatchStep::Wire(w) => w,
        other => panic!("expected a wire message, got {:?}", other),
    };
    assert_eq!(w1.from, "Me <me@x.com>");
    assert_eq!(w1.to, "b@x.com");
    assert!(batch.apply_outcome(&TransportOutcome::Positive).is_none());

    // The third message carries none and is stamped with the default.
    let w2 = match batch.next() {
        BatchStep::Wire(w) => w,
        other => panic!("expected a wire message, got {:?}", other),
    };
    assert_eq!(w2.from, "Default <d@x.com>");
    assert!(batch.apply_outcome(&TransportOutcome::Negative).is_none());

    match batch.next() {
        BatchStep::Done(sent) => assert_eq!(sent, 2),
        other => panic!("expected the batch to be done, got {:?}", other),
    }
}

#[test]
fn the_batch_machine_reports_a_transport_failure_as_the_final_error() {
    let msgs = vec![message_to("a@x.com")];
    let mut batch = SendBatch::new(msgs, "d@x.com".to_string());
    match batch.next() {
        BatchStep::Wire(_) => {}
        other => panic!("expected a wire message, got {:?}", other),
    }
    let err = batch
        .apply_outcome(&TransportOutcome::Failed("tls handshake failed".to_string()))
        .unwrap();
    assert!(matches!(err, SendError::Transport(s) if s == "tls handshake failed"));
}

#[test]
fn an_empty_batch_is_done_at_once_with_zero_sent() {
    let mut batch = SendBatch::new(Vec::new(), "d@x.com".to_string());
    match batch.next() {
        BatchStep::Done(sent) => assert_eq!(sent, 0),
        other => panic!("expected the batch to be done, got {:?}", other),
    }
    let r = send_tally(&Vec::new(), "d@x.com", &Vec::new());
    assert_eq!(r.unwrap(), 0);
}
