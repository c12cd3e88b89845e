//! How often a webhook is tried, and what is waited for in between.

use vstd::prelude::*;

use crate::delay::Delay;
use crate::instant::{INSTANT_BOUND, YEAR_10000};
use crate::outside;
use crate::outside::{status_reason, status_text};
use crate::retry_after::{delay_wf, length_of, parse_retry_after, requested_wait};
use crate::text::{decimal, join};
use crate::webhook::{Request, WebhookRequest};

verus! {

/// How many times a delivery is tried again.
pub const MAX_RETRIES: u8 = 3;

/// Milliseconds of chance that are added to a wait, at most.
pub const MAX_JITTER_MS: u64 = 50;

/// Milliseconds to wait before a retry, chance aside.
pub open spec fn base_delay_ms(retry: int) -> nat {
    if retry == 0 {
        200
    } else if retry == 1 {
        500
    } else {
        1000
    }
}

/// Whether a response with this status ends the delivery: a success, a redirect, and every
/// client error but a timeout and a rate limit.
pub open spec fn is_final_status(status: u16) -> bool {
    200 <= status <= 499 && status != 408 && status != 429
}

/// Tells whether a response with this status ends the delivery.
pub fn should_not_retry(status: u16) -> (r: bool)
    ensures
        r == is_final_status(status),
{
    if 200 <= status && status <= 299 {
        true
    } else if 300 <= status && status <= 399 {
        true
    } else if status == 408 || status == 429 {
        false
    } else if 400 <= status && status <= 499 {
        true
    } else {
        false
    }
}

/// What came back from one attempt.
#[derive(Debug)]
pub enum AttemptOutcome {
    /// The endpoint accepted the event.
    Accepted,
    /// It did not, or could not be reached.
    Refused(AttemptFailure),
}

/// Why an attempt failed.
#[derive(Debug)]
pub struct AttemptFailure {
    /// The status of the response, where there was one.
    pub status: Option<u16>,
    pub message: String,
    /// How long the endpoint asked to be left alone.
    pub retry_after: Option<Delay>,
}

/// What the sender does next.
#[derive(Debug)]
pub enum DeliveryState {
    /// Send the request. Attempt zero is the first one.
    Attempt { attempt: u8 },
    /// Wait the base delay of this retry and some chance, then send again.
    Backoff { retry: u8 },
    /// Wait as long as the endpoint asked, then back off before this retry.
    Comply { delay: Delay, retry: u8 },
    /// The event was accepted by this attempt.
    Delivered { attempt: u8 },
    /// Sending ended with this attempt, which failed with this message.
    Abandoned { attempt: u8, message: String },
}

/// Whether a failed attempt ends the delivery.
pub open spec fn ends_delivery(attempt: u8, status: Option<u16>) -> bool {
    ||| attempt >= MAX_RETRIES
    ||| status matches Some(s) && is_final_status(s)
}

/// The wait that an endpoint asked for and that is honoured: one that came with a response, not
/// to the first attempt, and only while a retry is left.
pub open spec fn honoured_wait(attempt: u8, failure: AttemptFailure) -> Option<Delay> {
    if attempt >= 1 && failure.status is Some {
        failure.retry_after
    } else {
        None
    }
}

/// What follows an attempt.
pub open spec fn next_state(attempt: u8, outcome: AttemptOutcome) -> DeliveryState {
    match outcome {
        AttemptOutcome::Accepted => DeliveryState::Delivered { attempt },
        AttemptOutcome::Refused(failure) => if ends_delivery(attempt, failure.status) {
            DeliveryState::Abandoned { attempt, message: failure.message }
        } else {
            match honoured_wait(attempt, failure) {
                Some(delay) => DeliveryState::Comply { delay, retry: attempt },
                None => DeliveryState::Backoff { retry: attempt },
            }
        },
    }
}

/// A delivery under way: the request, which stays the same to the end, and what is done next.
#[derive(Debug)]
pub struct Delivery<'a> {
    request: &'a WebhookRequest,
    state: DeliveryState,
}

/// The mathematical counterpart of [`Delivery`].
pub struct DeliveryModel {
    pub request: Request,
    pub state: DeliveryState,
}

impl<'a> View for Delivery<'a> {
    type V = DeliveryModel;

    closed spec fn view(&self) -> DeliveryModel {
        DeliveryModel { request: self.request@, state: self.state }
    }
}

/// Whether there is such an attempt or retry.
pub open spec fn is_within_bounds(state: DeliveryState) -> bool {
    match state {
        DeliveryState::Attempt { attempt } => attempt <= MAX_RETRIES,
        DeliveryState::Backoff { retry } => retry < MAX_RETRIES,
        DeliveryState::Comply { retry, .. } => retry < MAX_RETRIES,
        _ => true,
    }
}

/// Where the delivery of a request starts.
pub open spec fn started(request: Request) -> DeliveryModel {
    DeliveryModel { request, state: DeliveryState::Attempt { attempt: 0 } }
}

/// The delivery after an attempt.
pub open spec fn attempted(d: DeliveryModel, outcome: AttemptOutcome) -> DeliveryModel {
    match d.state {
        DeliveryState::Attempt { attempt } => DeliveryModel {
            state: next_state(attempt, outcome),
            ..d
        },
        _ => d,
    }
}

/// The delivery after a wait: having complied, the sender still backs off, and then tries again.
pub open spec fn waited(d: DeliveryModel) -> DeliveryModel {
    match d.state {
        DeliveryState::Comply { retry, .. } => DeliveryModel {
            state: DeliveryState::Backoff { retry },
            ..d
        },
        DeliveryState::Backoff { retry } => DeliveryModel {
            state: DeliveryState::Attempt { attempt: (retry + 1) as u8 },
            ..d
        },
        _ => d,
    }
}

impl<'a> Delivery<'a> {
    #[verifier::type_invariant]
    spec fn wf(self) -> bool {
        is_within_bounds(self.state)
    }

    /// Starts the delivery of a request.
    pub fn start(request: &'a WebhookRequest) -> (r: Delivery<'a>)
        ensures
            r@ == started(request@),
    {
        Delivery { request, state: DeliveryState::Attempt { attempt: 0 } }
    }

    /// What is sent by every attempt.
    pub fn request(&self) -> (r: &'a WebhookRequest)
        ensures
            r@ == self@.request,
    {
        self.request
    }

    /// What is done next.
    pub fn state(&self) -> (r: &DeliveryState)
        ensures
            *r == self@.state,
            is_within_bounds(*r),
    {
        proof {
            use_type_invariant(self);
        }
        &self.state
    }

    /// Goes on after an attempt.
    pub fn after_attempt(self, outcome: AttemptOutcome) -> (next: Delivery<'a>)
        requires
            self@.state is Attempt,
        ensures
            next@ == attempted(self@, outcome),
    {
        proof {
            use_type_invariant(&self);
        }
        let attempt: u8 = match self.state {
            DeliveryState::Attempt { attempt } => attempt,
            _ => 0,
        };
        let state: DeliveryState = match outcome {
            AttemptOutcome::Accepted => DeliveryState::Delivered { attempt },
            AttemptOutcome::Refused(failure) => {
                let mut finished: bool = attempt >= MAX_RETRIES;
                if let Some(status) = failure.status {
                    if should_not_retry(status) {
                        finished = true;
                    }
                }
                let mut wait: Option<Delay> = None;
                if attempt >= 1 && failure.status.is_some() {
                    wait = failure.retry_after;
                }
                if finished {
                    DeliveryState::Abandoned { attempt, message: failure.message }
                } else {
                    match wait {
                        Some(delay) => DeliveryState::Comply { delay, retry: attempt },
                        None => DeliveryState::Backoff { retry: attempt },
                    }
                }
            },
        };
        Delivery { request: self.request, state }
    }

    /// Goes on after a wait.
    pub fn after_wait(self) -> (next: Delivery<'a>)
        requires
            self@.state is Comply || self@.state is Backoff,
        ensures
            next@ == waited(self@),
    {
        proof {
            use_type_invariant(&self);
        }
        let state: DeliveryState = match self.state {
            DeliveryState::Comply { retry, .. } => DeliveryState::Backoff { retry },
            DeliveryState::Backoff { retry } => DeliveryState::Attempt { attempt: retry + 1 },
            other => other,
        };
        Delivery { request: self.request, state }
    }
}

/// Nanoseconds to back off before a retry, with the chance given in milliseconds.
pub open spec fn backoff_length(retry: int, jitter_ms: u64) -> nat {
    ((base_delay_ms(retry) + jitter_ms) * 1_000_000) as nat
}

/// How long to back off before a retry, with the chance given.
pub fn backoff_with(retry: u8, jitter_ms: u64) -> (r: Delay)
    requires
        retry < MAX_RETRIES,
        jitter_ms <= MAX_JITTER_MS,
    ensures
        r.wf(),
        r.total() == backoff_length(retry as int, jitter_ms),
{
    let base: u64 = match retry {
        0 => 200,
        1 => 500,
        _ => 1000,
    };
    Delay::from_millis(base + jitter_ms)
}

/// How long to back off before a retry.
pub fn backoff(retry: u8) -> (r: Delay)
    requires
        retry < MAX_RETRIES,
    ensures
        r.wf(),
        exists|jitter_ms: u64|
            jitter_ms <= MAX_JITTER_MS && r.total() == #[trigger] backoff_length(
                retry as int,
                jitter_ms,
            ),
{
    let jitter_ms: u64 = outside::random_up_to(MAX_JITTER_MS);
    backoff_with(retry, jitter_ms)
}

/// Whether a status is one of success.
pub open spec fn is_success(status: u16) -> bool {
    200 <= status <= 299
}

/// The wait that counts, of the one that an endpoint asked for.
pub open spec fn counted_wait(status: u16, asked: Option<Delay>) -> Option<Delay> {
    if status == 429 {
        asked
    } else {
        None
    }
}

/// The message of a response that was no success.
pub open spec fn status_message(status: u16) -> Seq<char> {
    "Webhook failed with status "@ + (decimal(status as nat).push(' ') + status_reason(status))
}

/// Judges a response by its status: only a 2xx status is a success. `asked` is the wait that the
/// endpoint asked for, which counts for a rate limit alone.
pub fn judge_response(status: u16, asked: Option<Delay>) -> (r: AttemptOutcome)
    requires
        100 <= status <= 999,
    ensures
        (r is Accepted) == (200 <= status <= 299),
        (r is Accepted) == is_success(status),
        r matches AttemptOutcome::Refused(f) ==> {
            &&& f.status == Some(status)
            &&& f.message@ == status_message(status)
            &&& f.retry_after == counted_wait(status, asked)
            &&& f.retry_after == if status == 429 {
                asked
            } else {
                None
            }
        },
{
    if 200 <= status && status <= 299 {
        return AttemptOutcome::Accepted;
    }
    let description: String = match status_text(status) {
        Some(t) => t,
        None => String::new(),
    };
    let message: String = join("Webhook failed with status ", description.as_str());
    let retry_after: Option<Delay> = if status == 429 {
        asked
    } else {
        None
    };
    AttemptOutcome::Refused(AttemptFailure { status: Some(status), message, retry_after })
}

/// Reads a response. `header` is the text of its `Retry-After` header, which is looked at for a
/// rate limit alone.
pub fn read_response(status: u16, header: Option<&str>) -> (r: AttemptOutcome)
    requires
        100 <= status <= 999,
    ensures
        (r is Accepted) == (200 <= status <= 299),
        (r is Accepted) == is_success(status),
        r matches AttemptOutcome::Refused(f) ==> {
            &&& f.status == Some(status)
            &&& f.message@ == status_message(status)
            &&& delay_wf(f.retry_after)
            &&& status != 429 || header is None ==> f.retry_after is None
            &&& status == 429 && header is Some ==> exists|now: i128|
                -INSTANT_BOUND <= now < YEAR_10000 && length_of(f.retry_after)
                    == #[trigger] requested_wait(header->0@, now as int)
        },
{
    let asked: Option<Delay> = match header {
        Some(value) => if status == 429 {
            parse_retry_after(value)
        } else {
            None
        },
        None => None,
    };
    judge_response(status, asked)
}

/// Reads the failure to get any response.
pub fn read_transport_error(message: String) -> (r: AttemptOutcome)
    ensures
        r == AttemptOutcome::Refused(AttemptFailure { status: None, message, retry_after: None }),
{
    AttemptOutcome::Refused(AttemptFailure { status: None, message, retry_after: None })
}

/// How a delivery ends that starts with this attempt, when attempt `i` comes out as
/// `outcomes[i]`.
pub open spec fn verdict(outcomes: Seq<AttemptOutcome>, attempt: u8) -> DeliveryState
    decreases MAX_RETRIES - attempt,
{
    let next = next_state(attempt, outcomes[attempt as int]);
    if attempt < MAX_RETRIES && (next is Comply || next is Backoff) {
        verdict(outcomes, (attempt + 1) as u8)
    } else {
        next
    }
}

/// Whether an attempt failed in a way that may be tried again.
pub open spec fn is_retryable(outcome: AttemptOutcome) -> bool {
    outcome matches AttemptOutcome::Refused(f) && !(f.status matches Some(s) && is_final_status(s))
}

/// The requests that a delivery sends from here on, when its attempts come out as `outcomes` says,
/// in order.
pub open spec fn sent(d: DeliveryModel, outcomes: Seq<AttemptOutcome>) -> Seq<Request>
    decreases
            outcomes.len(),
            match d.state {
                DeliveryState::Comply { .. } => 2int,
                DeliveryState::Backoff { .. } => 1,
                _ => 0,
            },
{
    match d.state {
        DeliveryState::Attempt { .. } => if outcomes.len() == 0 {
            Seq::empty()
        } else {
            seq![d.request] + sent(attempted(d, outcomes[0]), outcomes.skip(1))
        },
        DeliveryState::Comply { .. } => sent(waited(d), outcomes),
        DeliveryState::Backoff { .. } => sent(waited(d), outcomes),
        _ => Seq::empty(),
    }
}

/// How many attempts are left at most.
pub open spec fn attempts_left(state: DeliveryState) -> int {
    match state {
        DeliveryState::Attempt { attempt } => MAX_RETRIES + 1 - attempt,
        DeliveryState::Backoff { retry } => MAX_RETRIES - retry,
        DeliveryState::Comply { retry, .. } => MAX_RETRIES - retry,
        _ => 0,
    }
}

/// Every attempt sends the same request: the address, the body and all headers, so that number,
/// timestamp and signature are those of the first attempt and a receiver can drop duplicates.
pub proof fn every_attempt_sends_the_same_request(
    d: DeliveryModel,
    outcomes: Seq<AttemptOutcome>,
)
    requires
        is_within_bounds(d.state),
    ensures
        sent(d, outcomes).len() <= attempts_left(d.state),
        forall|i: int| 0 <= i < sent(d, outcomes).len() ==> #[trigger] sent(d, outcomes)[i]
            == d.request,
    decreases
            outcomes.len(),
            match d.state {
                DeliveryState::Comply { .. } => 2int,
                DeliveryState::Backoff { .. } => 1,
                _ => 0,
            },
{
    match d.state {
        DeliveryState::Attempt { .. } => {
            if outcomes.len() > 0 {
                let next = attempted(d, outcomes[0]);
                every_attempt_sends_the_same_request(next, outcomes.skip(1));
                assert forall|i: int| 0 <= i < sent(d, outcomes).len() implies #[trigger] sent(
                    d,
                    outcomes,
                )[i] == d.request by {
                    if i > 0 {
                        assert(sent(d, outcomes)[i] == sent(next, outcomes.skip(1))[i - 1]);
                    }
                }
            }
        },
        DeliveryState::Comply { .. } => every_attempt_sends_the_same_request(waited(d), outcomes),
        DeliveryState::Backoff { .. } => every_attempt_sends_the_same_request(waited(d), outcomes),
        _ => {},
    }
}

/// How far a state is from the end of its delivery.
pub open spec fn distance(state: DeliveryState) -> int {
    match state {
        DeliveryState::Attempt { attempt } => 3 * (MAX_RETRIES + 1 - attempt),
        DeliveryState::Comply { retry, .. } => 3 * (MAX_RETRIES - retry) + 2,
        DeliveryState::Backoff { retry } => 3 * (MAX_RETRIES - retry) + 1,
        _ => 0,
    }
}

/// What comes of a delivery once it is driven to the end, when attempt `i` comes out as
/// `outcomes[i]`.
pub open spec fn concluded(d: DeliveryModel, outcomes: Seq<AttemptOutcome>) -> DeliveryModel
    decreases distance(d.state),
{
    if !is_within_bounds(d.state) {
        d
    } else {
        match d.state {
            DeliveryState::Attempt { attempt } => concluded(
                attempted(d, outcomes[attempt as int]),
                outcomes,
            ),
            DeliveryState::Comply { .. } => concluded(waited(d), outcomes),
            DeliveryState::Backoff { .. } => concluded(waited(d), outcomes),
            _ => d,
        }
    }
}

/// Driving on from an attempt ends as a delivery does that starts with it.
proof fn lemma_driving(request: Request, outcomes: Seq<AttemptOutcome>, attempt: u8)
    requires
        attempt <= MAX_RETRIES,
    ensures
        concluded(
            DeliveryModel { request, state: DeliveryState::Attempt { attempt } },
            outcomes,
        ) == (DeliveryModel { request, state: verdict(outcomes, attempt) }),
    decreases MAX_RETRIES - attempt,
{
    reveal_with_fuel(concluded, 4);
    reveal_with_fuel(verdict, 2);
    let next = next_state(attempt, outcomes[attempt as int]);
    if next is Comply || next is Backoff {
        lemma_driving(request, outcomes, (attempt + 1) as u8);
    }
}

/// Whoever starts a delivery, and after each attempt and each wait does what is decided then, ends
/// with its verdict, and with the request with which it started.
pub proof fn driving_reaches_the_verdict(request: Request, outcomes: Seq<AttemptOutcome>)
    requires
        outcomes.len() == MAX_RETRIES + 1,
    ensures
        concluded(started(request), outcomes) == (DeliveryModel {
            request,
            state: verdict(outcomes, 0),
        }),
{
    lemma_driving(request, outcomes, 0);
}

/// Every delivery ends, with the first attempt or one of three retries. It is delivered exactly
/// when an attempt is accepted after nothing but retryable failures; otherwise it reports the
/// failure that ended it, which is either final or that of the last retry.
pub proof fn deliveries_are_bounded(outcomes: Seq<AttemptOutcome>)
    requires
        outcomes.len() == MAX_RETRIES + 1,
    ensures
        match verdict(outcomes, 0) {
            DeliveryState::Delivered { attempt } => {
                &&& attempt <= MAX_RETRIES
                &&& outcomes[attempt as int] is Accepted
                &&& forall|i: int| 0 <= i < attempt ==> is_retryable(#[trigger] outcomes[i])
            },
            DeliveryState::Abandoned { attempt, message } => {
                &&& attempt <= MAX_RETRIES
                &&& outcomes[attempt as int] matches AttemptOutcome::Refused(f)
                &&& f.message == message
                &&& attempt == MAX_RETRIES || !is_retryable(outcomes[attempt as int])
                &&& forall|i: int| 0 <= i < attempt ==> is_retryable(#[trigger] outcomes[i])
            },
            _ => false,
        },
{
    reveal_with_fuel(verdict, 5);
    assert(is_retryable(outcomes[0]) || !is_retryable(outcomes[0]));
    assert(is_retryable(outcomes[1]) || !is_retryable(outcomes[1]));
    assert(is_retryable(outcomes[2]) || !is_retryable(outcomes[2]));
    assert(is_retryable(outcomes[3]) || !is_retryable(outcomes[3]));
}

/// An attempt that is accepted after nothing but retryable failures delivers the event.
pub proof fn persistence_pays(outcomes: Seq<AttemptOutcome>, attempt: u8)
    requires
        outcomes.len() == MAX_RETRIES + 1,
        attempt <= MAX_RETRIES,
        outcomes[attempt as int] is Accepted,
        forall|i: int| 0 <= i < attempt ==> is_retryable(#[trigger] outcomes[i]),
    ensures
        verdict(outcomes, 0) == (DeliveryState::Delivered { attempt }),
{
    reveal_with_fuel(verdict, 5);
    assert(attempt > 0 ==> is_retryable(outcomes[0]));
    assert(attempt > 1 ==> is_retryable(outcomes[1]));
    assert(attempt > 2 ==> is_retryable(outcomes[2]));
}

/// Waits grow from retry to retry, whatever chance adds to them.
pub proof fn backoff_grows(retry: int, jitter_ms: u64, later_jitter_ms: u64)
    requires
        0 <= retry < MAX_RETRIES - 1,
        jitter_ms <= MAX_JITTER_MS,
    ensures
        backoff_length(retry, jitter_ms) < backoff_length(retry + 1, later_jitter_ms),
{
}

/// A delivery goes on after a response exactly when its status says that a later attempt may fare
/// better: a timeout, a rate limit, a fault of the server, or no status of the common classes.
pub proof fn retryable_statuses(status: u16)
    ensures
        !is_final_status(status) <==> status == 408 || status == 429 || status < 200 || status >= 500,
{
}

/// An accepted attempt delivers. A refused one ends the delivery where its status is final or no
/// retry is left, with its own message; otherwise the same attempt is tried again after a wait,
/// which is the one that the endpoint asked for where a response to a retry asks for one.
pub proof fn attempts_lead_on(attempt: u8, outcome: AttemptOutcome)
    ensures
        outcome is Accepted <==> next_state(attempt, outcome) is Delivered,
        next_state(attempt, outcome) matches DeliveryState::Delivered { attempt: a } ==> a == attempt,
        outcome matches AttemptOutcome::Refused(f) ==> {
            let gives_up = attempt >= 3 || (f.status matches Some(s) && 200 <= s < 500 && s != 408
                && s != 429);
            match next_state(attempt, outcome) {
                DeliveryState::Abandoned { attempt: a, message } => gives_up && a == attempt
                    && message == f.message,
                DeliveryState::Comply { delay, retry } => !gives_up && attempt > 0 && f.status is Some
                    && f.retry_after == Some(delay) && retry == attempt,
                DeliveryState::Backoff { retry } => !gives_up && retry == attempt && (attempt == 0
                    || f.status is None || f.retry_after is None),
                _ => false,
            }
        },
{
}

/// The waits before the three retries, with up to fifty milliseconds of chance.
pub proof fn backoff_is_as_agreed(jitter_ms: u64)
    ensures
        MAX_RETRIES == 3,
        MAX_JITTER_MS == 50,
        backoff_length(0, jitter_ms) == 200_000_000 + jitter_ms * 1_000_000,
        backoff_length(1, jitter_ms) == 500_000_000 + jitter_ms * 1_000_000,
        backoff_length(2, jitter_ms) == 1_000_000_000 + jitter_ms * 1_000_000,
{
}

/// A wait that was asked for is followed by the backoff of the same retry, and that by the next
/// attempt; a wait never changes what is sent.
pub proof fn waits_lead_to_the_next_attempt(d: DeliveryModel)
    ensures
        waited(d).request == d.request,
        d.state matches DeliveryState::Comply { retry, .. } ==> waited(d).state == (
        DeliveryState::Backoff { retry }),
        d.state matches DeliveryState::Backoff { retry } ==> retry < 3 ==> waited(d).state == (
        DeliveryState::Attempt { attempt: (retry + 1) as u8 }),
{
}

/// A delivery starts with its first attempt, and sends four requests where nothing but retryable
/// failures come back.
pub proof fn failing_deliveries_send_four_requests(
    request: Request,
    outcomes: Seq<AttemptOutcome>,
)
    requires
        outcomes.len() >= 4,
        forall|i: int|
            0 <= i < 4 ==> (#[trigger] outcomes[i] matches AttemptOutcome::Refused(f) && (
            f.status matches Some(s) ==> s < 200 || s >= 500 || s == 408 || s == 429)),
    ensures
        started(request).state == (DeliveryState::Attempt { attempt: 0 }),
        sent(started(request), outcomes) == seq![request, request, request, request],
{
    let d0 = started(request);
    let o1 = outcomes.skip(1);
    let o2 = o1.skip(1);
    let o3 = o2.skip(1);
    assert(outcomes[0] is Refused);
    assert(o1[0] == outcomes[1] && outcomes[1] is Refused);
    assert(o2[0] == outcomes[2] && outcomes[2] is Refused);
    assert(o3[0] == outcomes[3] && outcomes[3] is Refused);
    reveal_with_fuel(sent, 14);
    let d1 = DeliveryModel { request, state: DeliveryState::Attempt { attempt: 1 } };
    let d2 = DeliveryModel { request, state: DeliveryState::Attempt { attempt: 2 } };
    let d3 = DeliveryModel { request, state: DeliveryState::Attempt { attempt: 3 } };
    assert(sent(d3, o3) =~= seq![request]);
    assert(sent(d2, o2) =~= seq![request] + sent(d3, o3));
    assert(sent(d1, o1) =~= seq![request] + sent(d2, o2));
    assert(sent(d0, outcomes) =~= seq![request] + sent(d1, o1));
}

/// The message of a refused request names its status.
pub proof fn messages_name_the_status(status: u16)
    ensures
        status_message(status) == "Webhook failed with status "@ + decimal(status as nat) + " "@
            + status_reason(status),
{
    reveal_strlit(" ");
    assert(status_message(status) =~= "Webhook failed with status "@ + decimal(status as nat)
        + " "@ + status_reason(status));
}

/// A response is a success exactly where its status is of the class of successes, and the wait that
/// it asks for counts exactly where it limits the rate.
pub proof fn responses_are_judged_by_status(status: u16, asked: Option<Delay>)
    ensures
        is_success(status) <==> 200 <= status < 300,
        counted_wait(status, asked) == if status == 429 {
            asked
        } else {
            None
        },
{
}

} // verus!
