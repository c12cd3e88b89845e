use codex_exec::delay::Delay;
use codex_exec::delivery::{
    backoff, backoff_with, judge_response, read_response, read_transport_error, should_not_retry,
    AttemptFailure, AttemptOutcome, Delivery, DeliveryState,
};
use codex_exec::retry_after::{delay_until, parse_retry_after};
use codex_exec::text::{is_blank, parse_unsigned, to_decimal};
use codex_exec::webhook::WebhookRequest;

fn refused(status: Option<u16>, retry_after: Option<Delay>) -> AttemptOutcome {
    AttemptOutcome::Refused(AttemptFailure {
        status,
        message: "no".to_string(),
        retry_after,
    })
}

#[test]
fn statuses_are_final_or_not() {
    for status in [200u16, 204, 299, 300, 302, 399, 400, 401, 404, 407, 409, 428, 430, 499] {
        assert!(should_not_retry(status));
    }
    for status in [100u16, 199, 408, 429, 500, 502, 599, 600, 999] {
        assert!(!should_not_retry(status));
    }
}

fn some_request() -> WebhookRequest {
    WebhookRequest {
        url: "http://h".to_string(),
        headers: vec![("X-Seq".to_string(), "7".to_string())],
        body: "{}".to_string(),
    }
}

/// The delivery that stands before this attempt, after failures that may be tried again.
fn before_attempt(request: &WebhookRequest, attempt: u8) -> Delivery<'_> {
    let mut delivery = Delivery::start(request);
    for _ in 0..attempt {
        delivery = delivery.after_attempt(refused(Some(503), None)).after_wait();
    }
    delivery
}

#[test]
fn four_attempts_at_most() {
    let request = some_request();
    let mut delivery = Delivery::start(&request);
    for n in 0u8..3 {
        assert!(matches!(delivery.state(), DeliveryState::Attempt { attempt } if *attempt == n));
        delivery = delivery.after_attempt(refused(Some(503), None));
        assert!(matches!(delivery.state(), DeliveryState::Backoff { retry } if *retry == n));
        delivery = delivery.after_wait();
    }
    assert!(matches!(delivery.state(), DeliveryState::Attempt { attempt: 3 }));
    match delivery.after_attempt(refused(Some(503), None)).state() {
        DeliveryState::Abandoned { attempt, message } => {
            assert_eq!(*attempt, 3);
            assert_eq!(message, "no");
        }
        _ => panic!("goes on"),
    }
    assert!(matches!(
        before_attempt(&request, 2).after_attempt(AttemptOutcome::Accepted).state(),
        DeliveryState::Delivered { attempt: 2 }
    ));
}

#[test]
fn every_attempt_sends_the_same() {
    let request = some_request();
    for attempt in 0u8..4 {
        let delivery = before_attempt(&request, attempt);
        assert_eq!(delivery.request().url, "http://h");
        assert_eq!(delivery.request().headers, request.headers);
        assert_eq!(delivery.request().body, "{}");
    }
}

#[test]
fn final_statuses_end_at_once() {
    let request = some_request();
    assert!(matches!(
        Delivery::start(&request).after_attempt(refused(Some(404), None)).state(),
        DeliveryState::Abandoned { attempt: 0, .. }
    ));
    let unreachable = read_transport_error("refused".to_string());
    assert!(matches!(
        Delivery::start(&request).after_attempt(unreachable).state(),
        DeliveryState::Backoff { retry: 0 }
    ));
}

#[test]
fn requested_waits_are_honoured_between_retries() {
    let request = some_request();
    let wait = Delay::from_secs(7);
    assert!(matches!(
        before_attempt(&request, 0).after_attempt(refused(Some(429), Some(wait))).state(),
        DeliveryState::Backoff { retry: 0 }
    ));
    let delivery = before_attempt(&request, 1).after_attempt(refused(Some(429), Some(wait)));
    match delivery.state() {
        DeliveryState::Comply { delay, retry } => {
            assert_eq!(*delay, wait);
            assert_eq!(*retry, 1);
        }
        _ => panic!("does not wait"),
    }
    let delivery = delivery.after_wait();
    assert!(matches!(delivery.state(), DeliveryState::Backoff { retry: 1 }));
    assert!(matches!(delivery.after_wait().state(), DeliveryState::Attempt { attempt: 2 }));
    assert!(matches!(
        before_attempt(&request, 1).after_attempt(refused(None, Some(wait))).state(),
        DeliveryState::Backoff { retry: 1 }
    ));
    assert!(matches!(
        before_attempt(&request, 3).after_attempt(refused(Some(429), Some(wait))).state(),
        DeliveryState::Abandoned { attempt: 3, .. }
    ));
}

#[test]
fn backoff_has_its_steps() {
    assert_eq!(backoff_with(0, 0), Delay { secs: 0, nanos: 200_000_000 });
    assert_eq!(backoff_with(1, 50), Delay { secs: 0, nanos: 550_000_000 });
    assert_eq!(backoff_with(2, 7), Delay { secs: 1, nanos: 7_000_000 });
    for _ in 0..200 {
        let delay = backoff(0);
        assert_eq!(delay.secs, 0);
        assert!(delay.nanos >= 200_000_000 && delay.nanos <= 250_000_000);
        assert_eq!(delay.nanos % 1_000_000, 0);
    }
}

#[test]
fn responses_are_judged() {
    assert!(matches!(judge_response(204, None), AttemptOutcome::Accepted));
    match read_response(503, Some("9")) {
        AttemptOutcome::Refused(failure) => {
            assert_eq!(failure.status, Some(503));
            assert_eq!(
                failure.message,
                "Webhook failed with status 503 Service Unavailable"
            );
            assert_eq!(failure.retry_after, None);
        }
        _ => panic!("accepted"),
    }
    match read_response(429, Some("9")) {
        AttemptOutcome::Refused(failure) => {
            assert_eq!(
                failure.message,
                "Webhook failed with status 429 Too Many Requests"
            );
            assert_eq!(failure.retry_after, Some(Delay::from_secs(9)));
        }
        _ => panic!("accepted"),
    }
    match judge_response(799, None) {
        AttemptOutcome::Refused(failure) => assert_eq!(
            failure.message,
            "Webhook failed with status 799 <unknown status code>"
        ),
        _ => panic!("accepted"),
    }
    match read_transport_error("refused".to_string()) {
        AttemptOutcome::Refused(failure) => {
            assert_eq!(failure.status, None);
            assert_eq!(failure.message, "refused");
            assert_eq!(failure.retry_after, None);
        }
        _ => panic!("accepted"),
    }
}

#[test]
fn retry_after_takes_seconds_and_dates() {
    assert_eq!(parse_retry_after("120"), Some(Delay::from_secs(120)));
    assert_eq!(parse_retry_after("0"), Some(Delay::from_secs(0)));
    assert_eq!(parse_retry_after("99999"), Some(Delay::from_secs(99_999)));
    assert_eq!(parse_retry_after("Fri, 21 Nov 1997 09:55:06 -0600"), None);
    assert_eq!(
        parse_retry_after("Fri, 31 Dec 9998 09:55:06 GMT"),
        Some(Delay::from_secs(300))
    );
    assert_eq!(parse_retry_after("soon"), None);
    assert_eq!(parse_retry_after(""), None);
    assert_eq!(parse_retry_after("-1"), None);
}

#[test]
fn deadlines_are_capped() {
    assert_eq!(delay_until(None, 5), None);
    assert_eq!(delay_until(Some(5), 5), None);
    assert_eq!(delay_until(Some(4), 5), None);
    assert_eq!(delay_until(Some(6), 5), Some(Delay { secs: 0, nanos: 1 }));
    assert_eq!(
        delay_until(Some(2_500_000_000), 0),
        Some(Delay { secs: 2, nanos: 500_000_000 })
    );
    assert_eq!(delay_until(Some(300_000_000_000), 0), Some(Delay::from_secs(300)));
    assert_eq!(delay_until(Some(300_000_000_001), 0), Some(Delay::from_secs(300)));
    assert_eq!(delay_until(Some(i128::MAX), i128::MIN), Some(Delay::from_secs(300)));
}

#[test]
fn numerals_read_and_write() {
    for n in [0u64, 7, 10, 42, 1_000_000, u64::MAX] {
        assert_eq!(to_decimal(n), n.to_string());
        assert_eq!(parse_unsigned(&to_decimal(n)), Some(n));
    }
    for text in ["", "+", "+5", "007", "-0", "1 ", " 1", "1e3", "18446744073709551616", "++1"] {
        assert_eq!(parse_unsigned(text), text.parse::<u64>().ok());
    }
}

#[test]
fn blank_text_is_what_trims_to_nothing() {
    for text in ["", " ", "\t\n\u{b}\u{c}\r", "\u{85}\u{a0}\u{1680}\u{2003}\u{3000}", "x", " x "] {
        assert_eq!(is_blank(text), text.trim().is_empty());
    }
    for code in 0u32..0x11_0000 {
        if let Some(c) = char::from_u32(code) {
            assert_eq!(is_blank(&c.to_string()), c.is_whitespace());
        }
    }
    assert!(!is_blank("\u{200b}"));
    assert!(!is_blank("\u{feff}"));
}
