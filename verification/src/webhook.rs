//! The signed request that carries an event to a webhook.

use vstd::prelude::*;
use vstd::utf8::encode_utf8;

use crate::event::{event_json, PlanEvent, PlanEventEnvelope};
use crate::failure::Failure;
use crate::instant::{
    has_four_digit_year, rfc3339_text, text_determines_the_instant, text_ends_with_its_zone,
};
use crate::outside;
use crate::outside::{
    compact_json, hex_digit, hex_text, hmac_sha256_tag, is_hex_digit, texts,
};
use crate::text::{decimal, join, to_decimal};

verus! {

/// Seconds that establishing the connection may take.
pub const CONNECT_TIMEOUT_SECS: u64 = 1;

/// Seconds that a whole request may take.
pub const REQUEST_TIMEOUT_SECS: u64 = 2;

/// A POST request.
#[derive(Debug)]
pub struct WebhookRequest {
    pub url: String,
    pub headers: Vec<(String, String)>,
    pub body: String,
}

/// The mathematical counterpart of [`WebhookRequest`].
pub struct Request {
    pub url: Seq<char>,
    pub headers: Seq<(Seq<char>, Seq<char>)>,
    pub body: Seq<char>,
}

impl View for WebhookRequest {
    type V = Request;

    open spec fn view(&self) -> Request {
        Request { url: self.url@, headers: texts(self.headers@), body: self.body@ }
    }
}

/// What is signed: the version of the scheme, the timestamp and the body.
pub open spec fn canonical_text(timestamp: Seq<char>, body: Seq<char>) -> Seq<char> {
    "v0:"@ + timestamp + ":"@ + body
}

/// The HMAC-SHA256 of a message under a secret, in hexadecimal.
pub open spec fn signature_text(secret: Seq<char>, message: Seq<char>) -> Seq<char> {
    hex_text(hmac_sha256_tag(encode_utf8(secret), encode_utf8(message)))
}

/// The request that carries the event of this number for a run and a task, given its timestamp,
/// signature and body.
pub open spec fn request_of(
    url: Seq<char>,
    run_id: Seq<char>,
    task_id: Seq<char>,
    seq: u64,
    timestamp: Seq<char>,
    signature: Seq<char>,
    body: Seq<char>,
) -> Request {
    Request {
        url,
        headers: seq![
            ("Content-Type"@, "application/json"@),
            ("X-Run-Id"@, run_id),
            ("X-Task-Id"@, task_id),
            ("X-Seq"@, decimal(seq as nat)),
            ("X-Timestamp"@, timestamp),
            ("X-Signature"@, "sha256="@ + signature),
        ],
        body,
    }
}

/// The signed request that carries an event for a run and a task: its body is the event as JSON on
/// one line, and its timestamp is the text of the event's instant, as in the body.
pub open spec fn signed_request(
    url: Seq<char>,
    secret: Seq<char>,
    run_id: Seq<char>,
    task_id: Seq<char>,
    event: PlanEvent,
) -> Request {
    let body = compact_json(event_json(event));
    let timestamp = rfc3339_text(event.ts);
    let signature = signature_text(secret, canonical_text(timestamp, body));
    request_of(url, run_id, task_id, event.seq, timestamp, signature, body)
}

/// Joins what is signed.
pub fn canonical_string(timestamp: &str, body: &str) -> (r: String)
    ensures
        r@ == canonical_text(timestamp@, body@),
{
    let mut r = join("v0:", timestamp);
    r.append(":");
    r.append(body);
    r
}

/// Every character of a hexadecimal text is a hexadecimal digit.
proof fn lemma_hex_text_digits(bytes: Seq<u8>)
    ensures
        hex_text(bytes).len() == 2 * bytes.len(),
        forall|i: int| 0 <= i < hex_text(bytes).len() ==> is_hex_digit(#[trigger] hex_text(bytes)[i]),
{
    assert forall|i: int| 0 <= i < hex_text(bytes).len() implies is_hex_digit(
        #[trigger] hex_text(bytes)[i],
    ) by {
        let b = bytes[i / 2] as int;
        let v = if i % 2 == 0 {
            b / 16
        } else {
            b % 16
        };
        assert(0 <= v < 16);
        assert(hex_text(bytes)[i] == hex_digit(v));
    }
}

/// Signs a message.
pub fn sign(secret: &str, message: &str) -> (r: Result<String, Failure>)
    ensures
        r is Ok,
        r matches Ok(signature) ==> {
            &&& signature@ == signature_text(secret@, message@)
            &&& signature@.len() == 64
            &&& forall|i: int| 0 <= i < 64 ==> is_hex_digit(#[trigger] signature@[i])
        },
{
    match outside::hmac_sha256(secret.as_bytes(), message.as_bytes()) {
        Ok(tag) => {
            proof {
                lemma_hex_text_digits(tag@);
            }
            Ok(outside::hex_encode(tag.as_slice()))
        },
        Err(_) => Err(Failure::InvalidKey),
    }
}

impl PlanEventEnvelope {
    /// Puts together the request that carries the event for a run and a task.
    pub fn request_with(
        &self,
        url: &str,
        run_id: &str,
        task_id: &str,
        timestamp: &str,
        signature: &str,
        body: String,
    ) -> (r: WebhookRequest)
        ensures
            r@ == request_of(
                url@,
                run_id@,
                task_id@,
                self.seq,
                timestamp@,
                signature@,
                body@,
            ),
    {
        let mut headers: Vec<(String, String)> = Vec::new();
        headers.push(("Content-Type".to_owned(), "application/json".to_owned()));
        headers.push(("X-Run-Id".to_owned(), run_id.to_owned()));
        headers.push(("X-Task-Id".to_owned(), task_id.to_owned()));
        headers.push(("X-Seq".to_owned(), to_decimal(self.seq)));
        headers.push(("X-Timestamp".to_owned(), timestamp.to_owned()));
        headers.push(("X-Signature".to_owned(), join("sha256=", signature)));
        let r = WebhookRequest { url: url.to_owned(), headers, body };
        proof {
            assert(r@.headers =~= request_of(
                url@,
                run_id@,
                task_id@,
                self.seq,
                timestamp@,
                signature@,
                body@,
            ).headers);
        }
        r
    }
}

/// A signature covers both parts: the signed text determines the instant and the body.
pub proof fn canonical_text_is_unambiguous(
    ts: int,
    body: Seq<char>,
    other_ts: int,
    other_body: Seq<char>,
)
    requires
        has_four_digit_year(ts),
        has_four_digit_year(other_ts),
        canonical_text(rfc3339_text(ts), body) == canonical_text(
            rfc3339_text(other_ts),
            other_body,
        ),
    ensures
        ts == other_ts,
        body == other_body,
{
    let (t, u) = (rfc3339_text(ts), rfc3339_text(other_ts));
    let (m, n) = (t.len() as int, u.len() as int);
    let a = canonical_text(t, body);
    let b = canonical_text(u, other_body);
    reveal_strlit("v0:");
    reveal_strlit(":");
    text_ends_with_its_zone(ts);
    text_ends_with_its_zone(other_ts);
    if m < n {
        assert(a[2 + m] == t[m - 1]);
        assert(b[2 + m] == u.drop_last()[m - 1]);
    }
    if n < m {
        assert(b[2 + n] == u[n - 1]);
        assert(a[2 + n] == t.drop_last()[n - 1]);
    }
    assert(t =~= a.subrange(3, 3 + m));
    assert(u =~= b.subrange(3, 3 + n));
    assert(body =~= a.skip(4 + m));
    assert(other_body =~= b.skip(4 + n));
    text_determines_the_instant(ts, other_ts);
}

/// A receiver that knows the secret can check a request by itself: the signature is that of the
/// timestamp in its header and of the body as it was sent.
pub proof fn requests_can_be_verified(
    url: Seq<char>,
    secret: Seq<char>,
    run_id: Seq<char>,
    task_id: Seq<char>,
    event: PlanEvent,
)
    ensures
        ({
            let request = signed_request(url, secret, run_id, task_id, event);
            &&& request.headers[4].0 == "X-Timestamp"@
            &&& request.headers[5].0 == "X-Signature"@
            &&& request.headers[5].1 == "sha256="@ + signature_text(
                secret,
                canonical_text(request.headers[4].1, request.body),
            )
        }),
{
}

/// The sequence number in the header of a request is that of the event in its body: requests of
/// the same number have the same header, others a different one.
pub proof fn sequence_header_identifies_the_event(
    url: Seq<char>,
    secret: Seq<char>,
    run_id: Seq<char>,
    task_id: Seq<char>,
    a: PlanEvent,
    b: PlanEvent,
)
    ensures
        signed_request(url, secret, run_id, task_id, a).headers[3] == signed_request(
            url,
            secret,
            run_id,
            task_id,
            b,
        ).headers[3] <==> a.seq == b.seq,
{
    if decimal(a.seq as nat) == decimal(b.seq as nat) {
        crate::text::decimal_is_injective(a.seq, b.seq);
    }
}

/// What a receiver finds in a request: the address, the event as it is signed, and six headers, of
/// which the timestamp is the text that the body has for the event's instant and the signature is
/// the HMAC-SHA256 of version, timestamp and body under the secret.
pub proof fn requests_hold_what_receivers_need(
    url: Seq<char>,
    secret: Seq<char>,
    run_id: Seq<char>,
    task_id: Seq<char>,
    event: PlanEvent,
)
    ensures
        ({
            let request = signed_request(url, secret, run_id, task_id, event);
            let body = compact_json(event_json(event));
            let timestamp = rfc3339_text(event.ts);
            &&& request.url == url
            &&& request.body == body
            &&& request.headers.len() == 6
            &&& request.headers[0] == ("Content-Type"@, "application/json"@)
            &&& request.headers[1] == ("X-Run-Id"@, run_id)
            &&& request.headers[2] == ("X-Task-Id"@, task_id)
            &&& request.headers[3] == ("X-Seq"@, decimal(event.seq as nat))
            &&& request.headers[4] == ("X-Timestamp"@, timestamp)
            &&& event_json(event)->Object_0[4] == ("ts"@, crate::json::Json::Text(timestamp))
            &&& request.headers[5].0 == "X-Signature"@
            &&& request.headers[5].1 == "sha256="@ + hex_text(
                hmac_sha256_tag(
                    encode_utf8(secret),
                    encode_utf8("v0:"@ + timestamp + ":"@ + body),
                ),
            )
        }),
{
}

/// A connection may take a second and a request two.
pub proof fn requests_do_not_hang()
    ensures
        CONNECT_TIMEOUT_SECS == 1,
        REQUEST_TIMEOUT_SECS == 2,
{
}

/// What is signed, and how: version, timestamp and body, joined by colons, under the secret.
pub proof fn signatures_are_as_agreed(
    secret: Seq<char>,
    message: Seq<char>,
    timestamp: Seq<char>,
    body: Seq<char>,
)
    ensures
        canonical_text(timestamp, body) == "v0:"@ + timestamp + ":"@ + body,
        signature_text(secret, message) == hex_text(
            hmac_sha256_tag(encode_utf8(secret), encode_utf8(message)),
        ),
{
}

/// A request stands for what it holds: address, headers in order, and body.
pub proof fn requests_stand_for_what_they_hold(request: WebhookRequest, i: int)
    ensures
        request@.url == request.url@,
        request@.body == request.body@,
        request@.headers.len() == request.headers@.len(),
        0 <= i < request.headers@.len() ==> request@.headers[i] == (
            request.headers@[i].0@,
            request.headers@[i].1@,
        ),
{
}

} // verus!
