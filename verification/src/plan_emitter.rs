//! The emitter: what is done with a plan, and how the sequence of events goes on.

use vstd::prelude::*;

use crate::event::{
    event_json, sequence_json, EventMeta, Meta, PlanEvent, PlanEventEnvelope, SequenceMeta,
    CODEX_VERSION, PLAN_UPDATE, SHUTDOWN,
};
use crate::failure::Failure;
use crate::instant::{has_four_digit_year, rfc3339_text, INSTANT_BOUND, YEAR_10000};
use crate::json::{writable, write_compact, write_pretty, Json};
use crate::outside;
use crate::outside::{
    compact_json, extended_path, is_hex_digit, pretty_json, read_json, renamed_path,
};
use crate::plan::{
    copy_optional, item_json, optional_text, plan_json, Plan, PlanItem, UpdatePlanArgs,
};
use crate::step::{
    atomic_write, models, replaces_atomically, temp_path, write_atomic, Step, StepModel,
    SEQUENCE_FILE_NAME,
};
use crate::text::{decimal, join};
use crate::webhook::{canonical_string, sign, signature_text, signed_request};

verus! {

/// Where events go, and whom they speak of.
pub struct PlanEmitter {
    webhook_url: Option<String>,
    webhook_secret: Option<String>,
    plan_events_path: Option<std::path::PathBuf>,
    plan_state_path: Option<std::path::PathBuf>,
    task_id: String,
    run_id: String,
    model: String,
    emit_stdout: bool,
    json_mode: bool,
}

/// The mathematical counterpart of [`PlanEmitter`].
pub struct Emitter {
    pub webhook_url: Option<Seq<char>>,
    pub webhook_secret: Option<Seq<char>>,
    pub plan_events_path: Option<std::path::PathBuf>,
    pub plan_state_path: Option<std::path::PathBuf>,
    pub task_id: Seq<char>,
    pub run_id: Seq<char>,
    pub model: Seq<char>,
    pub emit_stdout: bool,
    pub json_mode: bool,
}

impl View for PlanEmitter {
    type V = Emitter;

    closed spec fn view(&self) -> Emitter {
        Emitter {
            webhook_url: optional_text(self.webhook_url),
            webhook_secret: optional_text(self.webhook_secret),
            plan_events_path: self.plan_events_path,
            plan_state_path: self.plan_state_path,
            task_id: self.task_id@,
            run_id: self.run_id@,
            model: self.model@,
            emit_stdout: self.emit_stdout,
            json_mode: self.json_mode,
        }
    }
}

impl Clone for PlanEmitter {
    fn clone(&self) -> (r: Self)
        ensures
            r@ == self@,
    {
        PlanEmitter {
            webhook_url: copy_optional(&self.webhook_url),
            webhook_secret: copy_optional(&self.webhook_secret),
            plan_events_path: copy_path(&self.plan_events_path),
            plan_state_path: copy_path(&self.plan_state_path),
            task_id: self.task_id.clone(),
            run_id: self.run_id.clone(),
            model: self.model.clone(),
            emit_stdout: self.emit_stdout,
            json_mode: self.json_mode,
        }
    }
}

/// Copies an optional path.
pub(crate) fn copy_path(path: &Option<std::path::PathBuf>) -> (r: Option<std::path::PathBuf>)
    ensures
        r == *path,
{
    match path {
        Some(p) => Some(p.clone()),
        None => None,
    }
}

/// The event that reports a plan at the instant `now`.
pub open spec fn plan_event(c: Emitter, plan: Plan, seq: u64, now: int) -> PlanEvent {
    PlanEvent {
        event: PLAN_UPDATE@,
        run_id: c.run_id,
        task_id: c.task_id,
        seq,
        ts: now,
        plan,
        meta: Meta { model: c.model, codex_ver: CODEX_VERSION@ },
    }
}

/// The event that reports the end of a run at the instant `now`. It bears an empty plan and the
/// number of the next plan without using it up: a number names at most one plan, and besides it any
/// end of a run that came before that plan. The kind of the event tells them apart.
pub open spec fn final_event(c: Emitter, seq: u64, now: int) -> PlanEvent {
    PlanEvent {
        event: SHUTDOWN@,
        run_id: c.run_id,
        task_id: c.task_id,
        seq,
        ts: now,
        plan: Plan { explanation: None, items: Seq::empty() },
        meta: Meta { model: c.model, codex_ver: CODEX_VERSION@ },
    }
}

/// Whether the emitter delivers to a webhook: it takes both an address and a secret.
pub open spec fn has_webhook(c: Emitter) -> bool {
    c.webhook_url is Some && c.webhook_secret is Some
}

/// The line that shows an event on the terminal. It goes to standard error where standard output
/// carries JSON.
pub open spec fn print_steps(c: Emitter, e: PlanEvent) -> Seq<StepModel> {
    if c.emit_stdout {
        seq![
            StepModel::Print { to_stderr: c.json_mode, line: "@plan "@ + compact_json(event_json(e)) },
        ]
    } else {
        Seq::empty()
    }
}

/// The steps that append an event to a log: one line, in one write.
pub open spec fn log_append(path: std::path::PathBuf, e: PlanEvent) -> Seq<StepModel> {
    seq![
        StepModel::CreateParent(path),
        StepModel::OpenLog(path),
        StepModel::WriteLog(path, compact_json(event_json(e)).push('\n')),
        StepModel::FlushLog(path),
    ]
}

/// The steps that append an event to the log of an emitter.
pub open spec fn log_steps(c: Emitter, e: PlanEvent) -> Seq<StepModel> {
    match c.plan_events_path {
        Some(path) => log_append(path, e),
        None => Seq::empty(),
    }
}

/// The steps that replace a plan state.
pub open spec fn state_replacement(path: std::path::PathBuf, e: PlanEvent) -> Seq<StepModel> {
    seq![StepModel::CreateParent(path)] + atomic_write(path, pretty_json(event_json(e)))
}

/// The steps that replace the plan state of an emitter.
pub open spec fn state_steps(c: Emitter, e: PlanEvent) -> Seq<StepModel> {
    match c.plan_state_path {
        Some(path) => state_replacement(path, e),
        None => Seq::empty(),
    }
}

/// The steps that append an event to a log, or find out that it cannot be written.
pub open spec fn log_call(path: std::path::PathBuf, e: PlanEvent) -> Seq<StepModel> {
    if has_four_digit_year(e.ts) {
        log_append(path, e)
    } else {
        seq![StepModel::CreateParent(path), StepModel::Fail(Failure::SerializeLogEntry)]
    }
}

/// The steps that replace a plan state, or find out that the event cannot be written.
pub open spec fn state_call(path: std::path::PathBuf, e: PlanEvent) -> Seq<StepModel> {
    if has_four_digit_year(e.ts) {
        state_replacement(path, e)
    } else {
        seq![StepModel::CreateParent(path), StepModel::Fail(Failure::SerializeState)]
    }
}

/// The steps that deliver an event.
pub open spec fn webhook_steps(c: Emitter, e: PlanEvent) -> Seq<StepModel> {
    if has_webhook(c) {
        seq![
            StepModel::CreateClient,
            StepModel::Deliver(
                signed_request(c.webhook_url->0, c.webhook_secret->0, c.run_id, c.task_id, e),
            ),
        ]
    } else {
        Seq::empty()
    }
}

/// The steps for an event whose instant cannot be written: the first destination finds out.
pub open spec fn unwritable_steps(c: Emitter) -> Seq<StepModel> {
    if c.emit_stdout {
        seq![StepModel::Fail(Failure::SerializeEvent)]
    } else if c.plan_events_path is Some {
        seq![
            StepModel::CreateParent(c.plan_events_path->0),
            StepModel::Fail(Failure::SerializeLogEntry),
        ]
    } else if c.plan_state_path is Some {
        seq![
            StepModel::CreateParent(c.plan_state_path->0),
            StepModel::Fail(Failure::SerializeState),
        ]
    } else if has_webhook(c) {
        seq![StepModel::CreateClient, StepModel::Fail(Failure::SerializePayload)]
    } else {
        Seq::empty()
    }
}

/// The steps that emit an event: first the terminal, then the log, then the plan state, and last
/// the webhook.
pub open spec fn emission(c: Emitter, e: PlanEvent) -> Seq<StepModel> {
    if has_four_digit_year(e.ts) {
        print_steps(c, e) + log_steps(c, e) + state_steps(c, e) + webhook_steps(c, e)
    } else {
        unwritable_steps(c)
    }
}

/// An emitter without its plan state.
pub open spec fn without_state(c: Emitter) -> Emitter {
    Emitter { plan_state_path: None, ..c }
}

/// The text of an event that a step carries.
pub open spec fn payload(step: StepModel) -> Option<Seq<char>> {
    match step {
        StepModel::Print { line, .. } => Some(line.skip(6)),
        StepModel::WriteLog(_, content) => Some(content.drop_last()),
        StepModel::WriteTemp(_, content) => Some(content),
        StepModel::Deliver(request) => Some(request.body),
        _ => None,
    }
}

/// Whether every destination gets a text that reads back as the value, and the terminal and the log
/// get exactly one line.
pub open spec fn carries(steps: Seq<StepModel>, value: Json) -> bool {
    forall|i: int|
        0 <= i < steps.len() ==> {
            &&& payload(#[trigger] steps[i]) matches Some(t) ==> read_json(t) == Some(value)
            &&& steps[i] matches StepModel::WriteLog(_, content) ==> {
                &&& content.len() > 0 && content.last() == '\n'
                &&& !content.drop_last().contains('\n')
            }
            &&& steps[i] matches StepModel::Print { line, .. } ==> !line.contains('\n')
        }
}

/// Where the sequence record of a plan state is kept: beside it, under [`SEQUENCE_FILE_NAME`].
pub open spec fn record_path(state: std::path::PathBuf) -> std::path::PathBuf {
    renamed_path(state, SEQUENCE_FILE_NAME@)
}

/// The steps that record the last sequence number.
pub open spec fn persistence(c: Emitter, seq: u64) -> Seq<StepModel> {
    match c.plan_state_path {
        Some(state) => seq![StepModel::CreateParent(record_path(state))] + atomic_write(
            record_path(state),
            pretty_json(sequence_json(SequenceMeta { last_seq: seq })),
        ),
        None => Seq::empty(),
    }
}

/// What was found where the sequence record should be.
#[derive(Debug, Clone, Copy, PartialEq, Eq, Structural)]
pub enum SequenceFile {
    Missing,
    Unreadable,
    /// The file does not hold a sequence record.
    Malformed,
    Record(SequenceMeta),
}

/// The number with which the sequence goes on. Without a plan state no record is kept. After the
/// largest number there is none.
pub open spec fn resumed_sequence(c: Emitter, file: SequenceFile) -> Result<int, Failure> {
    if c.plan_state_path is None {
        Ok(1)
    } else {
        match file {
            SequenceFile::Missing => Ok(1),
            SequenceFile::Unreadable => Err(Failure::ReadSequence),
            SequenceFile::Malformed => Err(Failure::ParseSequence),
            SequenceFile::Record(meta) => if meta.last_seq < u64::MAX {
                Ok(meta.last_seq + 1)
            } else {
                Err(Failure::SequenceExhausted)
            },
        }
    }
}

/// Events and sequence records can be written as JSON.
proof fn lemma_event_json_writable(e: PlanEvent)
    ensures
        writable(event_json(e), 100),
{
    reveal_with_fuel(writable, 6);
    reveal_strlit("event");
    reveal_strlit("run_id");
    reveal_strlit("task_id");
    reveal_strlit("seq");
    reveal_strlit("ts");
    reveal_strlit("plan");
    reveal_strlit("meta");
    reveal_strlit("model");
    reveal_strlit("codex_ver");
    reveal_strlit("explanation");
    reveal_strlit("step");
    reveal_strlit("status");
    assert("event"@.len() == 5);
    assert("run_id"@.len() == 6);
    assert("task_id"@.len() == 7);
    assert("seq"@.len() == 3);
    assert("ts"@.len() == 2);
    assert("plan"@.len() == 4);
    assert("meta"@.len() == 4);
    assert("plan"@[0] == 'p');
    assert("meta"@[0] == 'm');
    assert("model"@.len() == 5);
    assert("codex_ver"@.len() == 9);
    assert("explanation"@.len() == 11);
    assert("step"@.len() == 4);
    assert("status"@.len() == 6);
    assert forall|item: PlanItem| writable(#[trigger] item_json(item), 97) by {
        let m = item_json(item)->Object_0;
        assert(m.len() == 2);
        assert(m[0].0 == "step"@ && m[1].0 == "status"@);
        assert(writable(m[0].1, 96) && writable(m[1].1, 96));
    }
    let p = plan_json(e.plan)->Object_0;
    assert(p.len() == 2);
    assert(p[0].0 == "explanation"@ && p[1].0 == "plan"@);
    assert(writable(p[0].1, 98));
    let items = p[1].1->Array_0;
    assert forall|i: int| 0 <= i < items.len() implies writable(#[trigger] items[i], 97) by {
        assert(items[i] == item_json(e.plan.items[i]));
    }
    assert(writable(p[1].1, 98));
    assert(writable(plan_json(e.plan), 99));
    let top = event_json(e)->Object_0;
    assert(top.len() == 7);
    let meta = top[6].1->Object_0;
    assert(meta.len() == 2);
    assert(meta[0].0 == "model"@ && meta[1].0 == "codex_ver"@);
    assert(writable(meta[0].1, 98) && writable(meta[1].1, 98));
    assert(writable(top[6].1, 99));
    assert(writable(top[0].1, 99));
    assert(writable(top[1].1, 99));
    assert(writable(top[2].1, 99));
    assert(writable(top[3].1, 99));
    assert(writable(top[4].1, 99));
    assert(top[0].0 == "event"@ && top[1].0 == "run_id"@ && top[2].0 == "task_id"@);
    assert(top[3].0 == "seq"@ && top[4].0 == "ts"@ && top[5].0 == "plan"@ && top[6].0 == "meta"@);
}

impl PlanEventEnvelope {
    /// The event on one line.
    pub fn to_line(&self) -> (r: Option<String>)
        ensures
            r is Some <==> has_four_digit_year(self.ts as int),
            r matches Some(t) ==> {
                &&& t@ == compact_json(event_json(self@))
                &&& read_json(t@) == Some(event_json(self@))
                &&& !t@.contains('\n')
            },
    {
        proof {
            lemma_event_json_writable(self@);
        }
        match self.to_json() {
            None => None,
            Some(json) => write_compact(&json),
        }
    }

    /// The event over several lines.
    pub fn to_document(&self) -> (r: Option<String>)
        ensures
            r is Some <==> has_four_digit_year(self.ts as int),
            r matches Some(t) ==> {
                &&& t@ == pretty_json(event_json(self@))
                &&& read_json(t@) == Some(event_json(self@))
            },
    {
        proof {
            lemma_event_json_writable(self@);
        }
        match self.to_json() {
            None => None,
            Some(json) => write_pretty(&json),
        }
    }
}

impl SequenceMeta {
    /// The record as it is kept.
    pub fn to_document(&self) -> (r: Option<String>)
        ensures
            r is Some,
            r matches Some(t) ==> {
                &&& t@ == pretty_json(sequence_json(*self))
                &&& read_json(t@) == Some(sequence_json(*self))
            },
    {
        proof {
            reveal_with_fuel(writable, 2);
            let m = sequence_json(*self)->Object_0;
            assert(m.len() == 1);
            assert(writable(m[0].1, 99));
        }
        write_pretty(&self.to_json())
    }
}

impl PlanEmitter {
    /// Makes an emitter. This never fails.
    pub fn new(
        webhook_url: Option<String>,
        webhook_secret: Option<String>,
        plan_events_path: Option<std::path::PathBuf>,
        plan_state_path: Option<std::path::PathBuf>,
        task_id: String,
        run_id: String,
        model: String,
        emit_stdout: bool,
        json_mode: bool,
    ) -> (r: Result<PlanEmitter, Failure>)
        ensures
            r is Ok,
            r matches Ok(emitter) ==> emitter@ == (Emitter {
                webhook_url: optional_text(webhook_url),
                webhook_secret: optional_text(webhook_secret),
                plan_events_path,
                plan_state_path,
                task_id: task_id@,
                run_id: run_id@,
                model: model@,
                emit_stdout,
                json_mode,
            }),
    {
        Ok(
            PlanEmitter {
                webhook_url,
                webhook_secret,
                plan_events_path,
                plan_state_path,
                task_id,
                run_id,
                model,
                emit_stdout,
                json_mode,
            },
        )
    }

    /// Where the log is kept.
    pub fn plan_events_path(&self) -> (r: &Option<std::path::PathBuf>)
        ensures
            *r == self@.plan_events_path,
    {
        &self.plan_events_path
    }

    /// Where the plan state is kept.
    pub fn plan_state_path(&self) -> (r: &Option<std::path::PathBuf>)
        ensures
            *r == self@.plan_state_path,
    {
        &self.plan_state_path
    }

    /// Makes the event that reports a plan at the instant `now`.
    pub fn envelope_at(&self, plan: &UpdatePlanArgs, sequence_number: u64, now: i128) -> (r:
        PlanEventEnvelope)
        ensures
            r@ == plan_event(self@, plan@, sequence_number, now as int),
    {
        PlanEventEnvelope {
            event: PLAN_UPDATE.to_owned(),
            run_id: self.run_id.clone(),
            task_id: self.task_id.clone(),
            seq: sequence_number,
            ts: now,
            plan: plan.clone(),
            meta: EventMeta { model: self.model.clone(), codex_ver: CODEX_VERSION.to_owned() },
        }
    }

    /// Makes the event that reports the end of a run at the instant `now`.
    pub fn final_envelope_at(&self, sequence_number: u64, now: i128) -> (r: PlanEventEnvelope)
        ensures
            r@ == final_event(self@, sequence_number, now as int),
    {
        let r = PlanEventEnvelope {
            event: SHUTDOWN.to_owned(),
            run_id: self.run_id.clone(),
            task_id: self.task_id.clone(),
            seq: sequence_number,
            ts: now,
            plan: UpdatePlanArgs { explanation: None, plan: Vec::new() },
            meta: EventMeta { model: self.model.clone(), codex_ver: CODEX_VERSION.to_owned() },
        };
        proof {
            assert(r.plan@.items =~= Seq::empty());
        }
        r
    }

    /// Signs a message with a secret: the HMAC-SHA256, as 64 hexadecimal digits.
    pub fn compute_hmac(&self, secret: &str, message: &str) -> (r: Result<String, Failure>)
        ensures
            r is Ok,
            r matches Ok(signature) ==> {
                &&& signature@ == signature_text(secret@, message@)
                &&& signature@.len() == 64
                &&& forall|i: int| 0 <= i < 64 ==> is_hex_digit(#[trigger] signature@[i])
            },
    {
        sign(secret, message)
    }

    /// Lists the steps that append an event to a log.
    fn write_event_log(&self, path: &std::path::PathBuf, envelope: &PlanEventEnvelope) -> (r: Vec<
        Step,
    >)
        ensures
            models(r@) == log_call(*path, envelope@),
            carries(models(r@), event_json(envelope@)),
    {
        let mut steps: Vec<Step> = Vec::new();
        steps.push(Step::CreateParent(path.clone()));
        match envelope.to_line() {
            None => {
                steps.push(Step::Fail(Failure::SerializeLogEntry));
            },
            Some(line) => {
                let content = join(line.as_str(), "\n");
                proof {
                    reveal_strlit("\n");
                    assert(content@ =~= line@.push('\n'));
                    assert(content@.drop_last() =~= line@);
                }
                steps.push(Step::OpenLog(path.clone()));
                steps.push(Step::WriteLog(path.clone(), content));
                steps.push(Step::FlushLog(path.clone()));
            },
        }
        proof {
            assert(models(steps@) =~= log_call(*path, envelope@));
        }
        steps
    }

    /// Lists the steps that replace a plan state.
    fn write_plan_state(&self, path: &std::path::PathBuf, envelope: &PlanEventEnvelope) -> (r: Vec<
        Step,
    >)
        ensures
            models(r@) == state_call(*path, envelope@),
            carries(models(r@), event_json(envelope@)),
    {
        let mut steps: Vec<Step> = Vec::new();
        steps.push(Step::CreateParent(path.clone()));
        match envelope.to_document() {
            None => {
                steps.push(Step::Fail(Failure::SerializeState));
                proof {
                    assert(models(steps@) =~= state_call(*path, envelope@));
                }
            },
            Some(content) => {
                let mut rest = write_atomic(path, content);
                let ghost before = steps@;
                let ghost after = rest@;
                steps.append(&mut rest);
                proof {
                    assert(models(steps@) =~= models(before) + models(after));
                    assert(models(before) =~= seq![StepModel::CreateParent(*path)]);
                    assert(models(steps@) =~= state_call(*path, envelope@));
                }
            },
        }
        steps
    }

    /// Lists the steps that deliver an event.
    fn send_webhook(&self, url: &str, secret: &str, envelope: &PlanEventEnvelope) -> (r: Vec<Step>)
        ensures
            has_four_digit_year(envelope.ts as int) ==> {
                &&& models(r@) == seq![
                    StepModel::CreateClient,
                    StepModel::Deliver(
                        signed_request(url@, secret@, self@.run_id, self@.task_id, envelope@),
                    ),
                ]
                &&& carries(models(r@), event_json(envelope@))
            },
            !has_four_digit_year(envelope.ts as int) ==> models(r@) == seq![
                StepModel::CreateClient,
                StepModel::Fail(Failure::SerializePayload),
            ],
    {
        let mut steps: Vec<Step> = Vec::new();
        steps.push(Step::CreateClient);
        let last: Step = match envelope.to_line() {
            None => Step::Fail(Failure::SerializePayload),
            Some(body) => match outside::rfc3339(envelope.ts) {
                None => Step::Fail(Failure::FormatTimestamp),
                Some(timestamp) => {
                    let message = canonical_string(timestamp.as_str(), body.as_str());
                    match self.compute_hmac(secret, message.as_str()) {
                        Err(failure) => Step::Fail(failure),
                        Ok(signature) => Step::Deliver(
                            envelope.request_with(
                                url,
                                self.run_id.as_str(),
                                self.task_id.as_str(),
                                timestamp.as_str(),
                                signature.as_str(),
                                body,
                            ),
                        ),
                    }
                },
            },
        };
        let ghost end = last@;
        steps.push(last);
        proof {
            assert(models(steps@) =~= seq![StepModel::CreateClient, end]);
        }
        steps
    }

    /// Lists the steps that emit an event.
    pub fn emit(&self, envelope: &PlanEventEnvelope) -> (r: Vec<Step>)
        ensures
            models(r@) == emission(self@, envelope@),
            carries(models(r@), event_json(envelope@)),
    {
        let ghost ok = has_four_digit_year(envelope.ts as int);
        let mut steps: Vec<Step> = Vec::new();
        if self.emit_stdout {
            match envelope.to_line() {
                None => {
                    steps.push(Step::Fail(Failure::SerializeEvent));
                    proof {
                        assert(models(steps@) =~= seq![StepModel::Fail(Failure::SerializeEvent)]);
                    }
                    return steps;
                },
                Some(json) => {
                    let line = join("@plan ", json.as_str());
                    proof {
                        reveal_strlit("@plan ");
                        assert(line@.skip(6) =~= json@);
                        assert(!line@.contains('\n')) by {
                            assert forall|i: int| 0 <= i < line@.len() implies line@[i] != '\n' by {
                                if i >= 6 {
                                    assert(line@[i] == json@[i - 6]);
                                }
                            }
                        }
                    }
                    steps.push(Step::Print { to_stderr: self.json_mode, line });
                },
            }
        }
        proof {
            assert(ok ==> models(steps@) =~= print_steps(self@, envelope@));
            assert(!ok ==> models(steps@) =~= Seq::empty());
        }
        if let Some(path) = &self.plan_events_path {
            let ghost before = steps@;
            let mut more = self.write_event_log(path, envelope);
            let ghost added = more@;
            steps.append(&mut more);
            proof {
                assert(models(steps@) =~= models(before) + models(added));
                assert(!ok ==> models(steps@) =~= models(added));
            }
            if has_failed(&steps) {
                return steps;
            }
        }
        proof {
            assert(ok ==> models(steps@) =~= print_steps(self@, envelope@) + log_steps(
                self@,
                envelope@,
            ));
        }
        if let Some(path) = &self.plan_state_path {
            let ghost before = steps@;
            let mut more = self.write_plan_state(path, envelope);
            let ghost added = more@;
            steps.append(&mut more);
            proof {
                assert(steps@.last()@ == models(added).last());
                assert(models(steps@) =~= models(before) + models(added));
                assert(!ok ==> models(steps@) =~= models(added));
            }
            if has_failed(&steps) {
                return steps;
            }
        }
        proof {
            assert(ok ==> models(steps@) =~= print_steps(self@, envelope@) + log_steps(
                self@,
                envelope@,
            ) + state_steps(self@, envelope@));
        }
        match (&self.webhook_url, &self.webhook_secret) {
            (Some(url), Some(secret)) => {
                let ghost before = steps@;
                let mut more = self.send_webhook(url.as_str(), secret.as_str(), envelope);
                let ghost added = more@;
                steps.append(&mut more);
                proof {
                    assert(models(steps@) =~= models(before) + models(added));
                    assert(!ok ==> models(steps@) =~= models(added));
                }
            },
            _ => {},
        }
        proof {
            assert(models(steps@) =~= emission(self@, envelope@));
        }
        steps
    }

    /// Lists the steps that report a plan, as of now.
    pub fn emit_plan_update(&self, plan: &UpdatePlanArgs, sequence_number: u64) -> (r: Vec<Step>)
        ensures
            exists|now: i128|
                -INSTANT_BOUND <= now < YEAR_10000 && {
                    let e = #[trigger] plan_event(self@, plan@, sequence_number, now as int);
                    models(r@) == emission(self@, e) && carries(models(r@), event_json(e))
                },
    {
        let now: i128 = outside::now_utc();
        let envelope = self.envelope_at(plan, sequence_number, now);
        let r = self.emit(&envelope);
        proof {
            assert(envelope@ == plan_event(self@, plan@, sequence_number, now as int));
        }
        r
    }

    /// Lists the steps that report the end of a run, as of now. The plan state is left alone: it
    /// keeps the latest plan. The number is not recorded: a later run goes on with it.
    pub fn emit_shutdown(&self, sequence_number: u64) -> (r: Vec<Step>)
        ensures
            exists|now: i128|
                -INSTANT_BOUND <= now < YEAR_10000 && {
                    let e = #[trigger] final_event(self@, sequence_number, now as int);
                    models(r@) == emission(without_state(self@), e) && carries(
                        models(r@),
                        event_json(e),
                    )
                },
    {
        let now: i128 = outside::now_utc();
        let envelope = self.final_envelope_at(sequence_number, now);
        let mut rest = self.clone();
        rest.plan_state_path = None;
        let r = rest.emit(&envelope);
        proof {
            assert(rest@ == without_state(self@));
            assert(envelope@ == final_event(self@, sequence_number, now as int));
        }
        r
    }

    /// Where the sequence record is kept, where there is one.
    pub fn sequence_path(&self) -> (r: Option<std::path::PathBuf>)
        ensures
            r == match self@.plan_state_path {
                Some(state) => Some(record_path(state)),
                None => None,
            },
    {
        match &self.plan_state_path {
            Some(state) => Some(outside::with_file_name(state, SEQUENCE_FILE_NAME)),
            None => None,
        }
    }

    /// The number with which the sequence goes on, given what was found at
    /// [`PlanEmitter::sequence_path`].
    pub fn load_sequence(&self, file: SequenceFile) -> (r: Result<u64, Failure>)
        ensures
            match r {
                Ok(n) => resumed_sequence(self@, file) == Ok::<int, Failure>(n as int),
                Err(failure) => resumed_sequence(self@, file) == Err::<int, Failure>(failure),
            },
    {
        if self.plan_state_path.is_none() {
            return Ok(1);
        }
        match file {
            SequenceFile::Missing => Ok(1),
            SequenceFile::Unreadable => Err(Failure::ReadSequence),
            SequenceFile::Malformed => Err(Failure::ParseSequence),
            SequenceFile::Record(meta) => if meta.last_seq < u64::MAX {
                Ok(meta.last_seq + 1)
            } else {
                Err(Failure::SequenceExhausted)
            },
        }
    }

    /// Lists the steps that record the last sequence number.
    pub fn persist_sequence(&self, sequence_number: u64) -> (r: Vec<Step>)
        ensures
            models(r@) == persistence(self@, sequence_number),
            carries(models(r@), sequence_json(SequenceMeta { last_seq: sequence_number })),
    {
        let mut steps: Vec<Step> = Vec::new();
        if let Some(state) = &self.plan_state_path {
            let path = outside::with_file_name(state, SEQUENCE_FILE_NAME);
            steps.push(Step::CreateParent(path.clone()));
            let ghost before = steps@;
            let meta = SequenceMeta { last_seq: sequence_number };
            match meta.to_document() {
                None => {
                    steps.push(Step::Fail(Failure::SerializeSequence));
                },
                Some(content) => {
                    let mut rest = write_atomic(&path, content);
                    let ghost added = rest@;
                    steps.append(&mut rest);
                    proof {
                        assert(models(steps@) =~= models(before) + models(added));
                        assert(models(before) =~= seq![StepModel::CreateParent(path)]);
                    }
                },
            }
        }
        proof {
            assert(models(steps@) =~= persistence(self@, sequence_number));
        }
        steps
    }
}

/// Tells whether a list of steps ends with a failure.
fn has_failed(steps: &Vec<Step>) -> (r: bool)
    ensures
        r == (steps@.len() > 0 && steps@.last()@ is Fail),
{
    let n: usize = steps.len();
    if n == 0 {
        return false;
    }
    match &steps[n - 1] {
        Step::Fail(_) => true,
        _ => false,
    }
}

/// A plan state is only ever replaced as a whole.
pub proof fn plan_state_is_replaced_atomically(c: Emitter, e: PlanEvent)
    ensures
        replaces_atomically(emission(c, e)),
{
    let steps = emission(c, e);
    if has_four_digit_year(e.ts) {
        let before = print_steps(c, e) + log_steps(c, e);
        let n = before.len() as int;
        let state = state_steps(c, e);
        assert forall|i: int| 0 <= i < steps.len() && #[trigger] steps[i] is RenameTemp implies c
            .plan_state_path is Some && i == n + 6 by {
            if i < n {
                assert(steps[i] == before[i]);
            } else if i < n + state.len() {
                assert(steps[i] == state[i - n]);
            } else {
                assert(steps[i] == webhook_steps(c, e)[i - n - state.len()]);
            }
        }
        if c.plan_state_path is Some {
            let path = c.plan_state_path->0;
            let temp = temp_path(path);
            assert(forall|k: int| 0 <= k < 8 ==> steps[n + k] == #[trigger] state[k]);
            assert(state[1] == StepModel::CreateTemp(temp));
            assert(state[2] is WriteTemp);
            assert(state[3] == StepModel::FlushTemp(temp));
            assert(state[4] == StepModel::SyncTemp(temp));
            assert(state[5] == StepModel::CloseTemp(temp));
            assert(state[6] == StepModel::RenameTemp { from: temp, to: path });
        }
    }
}

/// A sequence record is only ever replaced as a whole.
pub proof fn sequence_record_is_replaced_atomically(c: Emitter, seq: u64)
    ensures
        replaces_atomically(persistence(c, seq)),
{
}

/// The webhook is tried only once everything else is done: a delivery is the last step, and a
/// file is never touched after it.
pub proof fn webhook_comes_last(c: Emitter, e: PlanEvent, i: int)
    requires
        0 <= i < emission(c, e).len(),
        emission(c, e)[i] is Deliver,
    ensures
        i == emission(c, e).len() - 1,
        has_webhook(c),
{
    if has_four_digit_year(e.ts) {
        let before = print_steps(c, e) + log_steps(c, e) + state_steps(c, e);
        if i < before.len() {
            assert(emission(c, e)[i] == before[i]);
            let early = print_steps(c, e) + log_steps(c, e);
            if i < early.len() {
                assert(before[i] == early[i]);
            } else {
                assert(before[i] == state_steps(c, e)[i - early.len()]);
            }
        }
    }
}

/// An event is in the log before it becomes the plan state.
pub proof fn log_comes_before_state(c: Emitter, e: PlanEvent, i: int, j: int)
    requires
        0 <= i < emission(c, e).len(),
        0 <= j < emission(c, e).len(),
        emission(c, e)[i] is WriteLog,
        emission(c, e)[j] is WriteTemp,
    ensures
        i < j,
{
    if has_four_digit_year(e.ts) {
        let early = print_steps(c, e) + log_steps(c, e);
        let late = state_steps(c, e) + webhook_steps(c, e);
        assert(emission(c, e) =~= early + late);
        if i >= early.len() {
            assert(emission(c, e)[i] == late[i - early.len()]);
        }
        if j < early.len() {
            assert(emission(c, e)[j] == early[j]);
        }
    }
}

/// Emission is opt-in: without a destination nothing is done.
pub proof fn nothing_is_done_without_a_destination(c: Emitter, e: PlanEvent)
    requires
        !c.emit_stdout,
        c.plan_events_path is None,
        c.plan_state_path is None,
        !has_webhook(c),
    ensures
        emission(c, e) == Seq::<StepModel>::empty(),
{
    assert(emission(c, e) =~= Seq::<StepModel>::empty());
}

/// Where standard output carries JSON, events never mix with it.
pub proof fn json_output_stays_clean(c: Emitter, e: PlanEvent, i: int)
    requires
        c.json_mode,
        0 <= i < emission(c, e).len(),
    ensures
        emission(c, e)[i] matches StepModel::Print { to_stderr, .. } ==> to_stderr,
{
    if has_four_digit_year(e.ts) {
        let first = print_steps(c, e);
        let rest = log_steps(c, e) + state_steps(c, e) + webhook_steps(c, e);
        assert(emission(c, e) =~= first + rest);
        if i < first.len() {
            assert(emission(c, e)[i] == first[i]);
        } else {
            assert(emission(c, e)[i] == rest[i - first.len()]);
        }
    }
}

/// The secret shows nowhere but in the signature: emitters that differ in the secret alone print,
/// log and keep the same, and send the same request to the same address but for its last header.
pub proof fn secrets_show_in_signatures_alone(c: Emitter, other: Emitter, e: PlanEvent, i: int)
    requires
        other == (Emitter { webhook_secret: other.webhook_secret, ..c }),
        c.webhook_secret is Some,
        other.webhook_secret is Some,
        0 <= i < emission(c, e).len(),
    ensures
        emission(other, e).len() == emission(c, e).len(),
        match emission(c, e)[i] {
            StepModel::Deliver(a) => {
                &&& emission(other, e)[i] matches StepModel::Deliver(b)
                &&& b.url == a.url && b.body == a.body
                &&& b.headers.len() == 6 && a.headers.len() == 6
                &&& b.headers.take(5) == a.headers.take(5)
            },
            step => emission(other, e)[i] == step,
        },
{
    if has_four_digit_year(e.ts) {
        let before = print_steps(c, e) + log_steps(c, e) + state_steps(c, e);
        assert(print_steps(other, e) == print_steps(c, e));
        assert(log_steps(other, e) == log_steps(c, e));
        assert(state_steps(other, e) == state_steps(c, e));
        if i < before.len() {
            assert(emission(c, e)[i] == before[i]);
            assert(emission(other, e)[i] == before[i]);
            if emission(c, e)[i] is Deliver {
                webhook_comes_last(c, e, i);
            }
        } else {
            let k = i - before.len();
            assert(emission(c, e)[i] == webhook_steps(c, e)[k]);
            assert(emission(other, e)[i] == webhook_steps(other, e)[k]);
            if k == 1 {
                let a = webhook_steps(c, e)[1]->Deliver_0;
                let b = webhook_steps(other, e)[1]->Deliver_0;
                assert(b.headers.take(5) =~= a.headers.take(5));
            }
        }
    }
}

/// No number comes twice: whatever record is found, the sequence goes on with a larger number than
/// the recorded one, or not at all.
pub proof fn recorded_numbers_are_not_used_again(c: Emitter, meta: SequenceMeta)
    requires
        c.plan_state_path is Some,
    ensures
        resumed_sequence(c, SequenceFile::Record(meta)) matches Ok(n) ==> meta.last_seq < n
            <= u64::MAX,
{
}

/// The end of a run is never taken for a plan, not even for one of the same number: the two events
/// differ in their JSON.
pub proof fn shutdowns_are_no_plans(
    c: Emitter,
    plan: Plan,
    seq: u64,
    now: int,
    other_seq: u64,
    other_now: int,
)
    ensures
        event_json(plan_event(c, plan, seq, now)) != event_json(
            final_event(c, other_seq, other_now),
        ),
{
    reveal_strlit("plan_update");
    reveal_strlit("shutdown");
    assert(PLAN_UPDATE@.len() == 11);
    assert(SHUTDOWN@.len() == 8);
    let a = event_json(plan_event(c, plan, seq, now))->Object_0;
    let b = event_json(final_event(c, other_seq, other_now))->Object_0;
    assert(a[0].1 == Json::Text(PLAN_UPDATE@));
    assert(b[0].1 == Json::Text(SHUTDOWN@));
}

/// The sequence survives a restart: what is recorded is the record of the number, a text that
/// reads as this record reads as no other, and the sequence goes on with the number after it, as
/// long as there is one.
pub proof fn sequence_survives_a_restart(
    c: Emitter,
    seq: u64,
    text: Seq<char>,
    found: SequenceMeta,
)
    requires
        c.plan_state_path is Some,
        read_json(text) == Some(sequence_json(SequenceMeta { last_seq: seq })),
        read_json(text) == Some(sequence_json(found)),
    ensures
        persistence(c, seq)[2] == StepModel::WriteTemp(
            temp_path(record_path(c.plan_state_path->0)),
            pretty_json(sequence_json(SequenceMeta { last_seq: seq })),
        ),
        found.last_seq == seq,
        resumed_sequence(c, SequenceFile::Record(found)) == if seq < u64::MAX {
            Ok::<int, Failure>(seq + 1)
        } else {
            Err(Failure::SequenceExhausted)
        },
{
    let a = sequence_json(found)->Object_0;
    let b = sequence_json(SequenceMeta { last_seq: seq })->Object_0;
    assert(a[0] == b[0]);
}

/// Whoever names an address and a secret gets every event: whatever else an emitter does, the last
/// step of an emission delivers the event to that address, signed under that secret.
pub proof fn webhooks_get_every_event(
    c: Emitter,
    e: PlanEvent,
    url: Seq<char>,
    secret: Seq<char>,
)
    requires
        -62_167_219_200_000_000_000 <= e.ts < 253_402_300_800_000_000_000,
        c.webhook_url == Some(url),
        c.webhook_secret == Some(secret),
    ensures
        ({
            let steps = emission(c, e);
            let body = compact_json(event_json(e));
            &&& steps.len() >= 2
            &&& steps[steps.len() - 2] is CreateClient
            &&& steps.last() matches StepModel::Deliver(request)
            &&& request.url == url
            &&& request.body == body
            &&& request.headers.len() == 6
            &&& request.headers.contains(("X-Run-Id"@, c.run_id))
            &&& request.headers.contains(("X-Task-Id"@, c.task_id))
            &&& request.headers.contains(("X-Seq"@, decimal(e.seq as nat)))
            &&& request.headers.contains(("X-Timestamp"@, rfc3339_text(e.ts)))
            &&& request.headers.contains(
                (
                    "X-Signature"@,
                    "sha256="@ + signature_text(
                        secret,
                        "v0:"@ + rfc3339_text(e.ts) + ":"@ + body,
                    ),
                ),
            )
        }),
{
    let steps = emission(c, e);
    let last = webhook_steps(c, e);
    assert(steps.last() == last[1]);
    assert(steps[steps.len() - 2] == last[0]);
    let headers = steps.last()->Deliver_0.headers;
    assert(headers[1] == ("X-Run-Id"@, c.run_id));
    assert(headers[2] == ("X-Task-Id"@, c.task_id));
    assert(headers[3] == ("X-Seq"@, decimal(e.seq as nat)));
    assert(headers[4] == ("X-Timestamp"@, rfc3339_text(e.ts)));
    assert(headers[5].0 == "X-Signature"@);
    assert(headers.contains(headers[5]));
}

/// Each destination that is configured gets its steps, and each that is not gets none, whatever the
/// others are: first the line on the terminal, then the log, then the plan state, then the webhook.
pub proof fn destinations_get_their_steps(c: Emitter, e: PlanEvent)
    requires
        -62_167_219_200_000_000_000 <= e.ts < 253_402_300_800_000_000_000,
    ensures
        ({
            let steps = emission(c, e);
            let line = compact_json(event_json(e));
            let n = if c.emit_stdout {
                1int
            } else {
                0
            };
            let m = n + if c.plan_events_path is Some {
                4int
            } else {
                0
            };
            let k = m + if c.plan_state_path is Some {
                8int
            } else {
                0
            };
            &&& steps.len() == k + if c.webhook_url is Some && c.webhook_secret is Some {
                2int
            } else {
                0
            }
            &&& c.emit_stdout ==> steps[0] == (StepModel::Print {
                to_stderr: c.json_mode,
                line: "@plan "@ + line,
            })
            &&& c.plan_events_path matches Some(log) ==> {
                &&& steps[n] == StepModel::CreateParent(log)
                &&& steps[n + 1] == StepModel::OpenLog(log)
                &&& steps[n + 2] == StepModel::WriteLog(log, line + seq!['\n'])
                &&& steps[n + 3] == StepModel::FlushLog(log)
            }
            &&& c.plan_state_path matches Some(state) ==> {
                let temp = extended_path(state, "tmp"@);
                &&& steps[m] == StepModel::CreateParent(state)
                &&& steps[m + 1] == StepModel::CreateTemp(temp)
                &&& steps[m + 2] == StepModel::WriteTemp(temp, pretty_json(event_json(e)))
                &&& steps[m + 3] == StepModel::FlushTemp(temp)
                &&& steps[m + 4] == StepModel::SyncTemp(temp)
                &&& steps[m + 5] == StepModel::CloseTemp(temp)
                &&& steps[m + 6] == (StepModel::RenameTemp { from: temp, to: state })
                &&& steps[m + 7] == StepModel::SyncParent(state)
            }
            &&& c.webhook_url is Some && c.webhook_secret is Some ==> steps[k] is CreateClient
                && steps[k + 1] is Deliver
        }),
{
    let line = compact_json(event_json(e));
    assert(line + seq!['\n'] =~= line.push('\n'));
}

/// An event whose instant cannot be written goes nowhere: the first destination that is configured
/// fails, and none is served.
pub proof fn unwritable_events_fail(c: Emitter, e: PlanEvent)
    requires
        e.ts < -62_167_219_200_000_000_000 || e.ts >= 253_402_300_800_000_000_000,
    ensures
        ({
            let steps = emission(c, e);
            let log = c.plan_events_path;
            let state = c.plan_state_path;
            let hook = c.webhook_url is Some && c.webhook_secret is Some;
            &&& steps.len() > 0 <==> c.emit_stdout || log is Some || state is Some || hook
            &&& steps.len() > 0 ==> steps.last() == StepModel::Fail(
                if c.emit_stdout {
                    Failure::SerializeEvent
                } else if log is Some {
                    Failure::SerializeLogEntry
                } else if state is Some {
                    Failure::SerializeState
                } else {
                    Failure::SerializePayload
                },
            )
            &&& forall|i: int|
                0 <= i < steps.len() ==> !(#[trigger] steps[i] is Print) && !(steps[i] is WriteLog)
                    && !(steps[i] is WriteTemp) && !(steps[i] is RenameTemp) && !(steps[i] is Deliver)
        }),
{
}

/// The end of a run is told to the terminal, the log and the webhook as a plan is, and leaves the
/// plan state alone.
pub proof fn shutdowns_reach_all_but_the_state(c: Emitter, e: PlanEvent)
    requires
        -62_167_219_200_000_000_000 <= e.ts < 253_402_300_800_000_000_000,
    ensures
        ({
            let steps = emission(without_state(c), e);
            let line = compact_json(event_json(e));
            let n = if c.emit_stdout {
                1int
            } else {
                0
            };
            let m = n + if c.plan_events_path is Some {
                4int
            } else {
                0
            };
            &&& steps.len() == m + if c.webhook_url is Some && c.webhook_secret is Some {
                2int
            } else {
                0
            }
            &&& c.emit_stdout ==> steps[0] == (StepModel::Print {
                to_stderr: c.json_mode,
                line: "@plan "@ + line,
            })
            &&& c.plan_events_path matches Some(log) ==> steps[n + 2] == StepModel::WriteLog(
                log,
                line + seq!['\n'],
            )
            &&& c.webhook_url is Some && c.webhook_secret is Some ==> {
                &&& steps.last() matches StepModel::Deliver(request)
                &&& Some(request.url) == c.webhook_url
                &&& request.body == line
                &&& request.headers.contains(("X-Run-Id"@, c.run_id))
                &&& request.headers.contains(("X-Task-Id"@, c.task_id))
                &&& request.headers.contains(
                    (
                        "X-Signature"@,
                        "sha256="@ + signature_text(
                            c.webhook_secret->0,
                            "v0:"@ + rfc3339_text(e.ts) + ":"@ + line,
                        ),
                    ),
                )
            }
        }),
{
    let quiet = without_state(c);
    destinations_get_their_steps(quiet, e);
    if c.webhook_url is Some && c.webhook_secret is Some {
        webhooks_get_every_event(quiet, e, c.webhook_url->0, c.webhook_secret->0);
    }
}

/// An event says what happened, to which run and task, under which number, when, and by what.
pub proof fn events_say_where_they_come_from(c: Emitter, plan: Plan, seq: u64, now: int)
    ensures
        ({
            let e = plan_event(c, plan, seq, now);
            let last = final_event(c, seq, now);
            &&& e.event == "plan_update"@ && last.event == "shutdown"@
            &&& e.run_id == c.run_id && last.run_id == c.run_id
            &&& e.task_id == c.task_id && last.task_id == c.task_id
            &&& e.seq == seq && last.seq == seq
            &&& e.ts == now && last.ts == now
            &&& e.plan == plan
            &&& last.plan.items.len() == 0 && last.plan.explanation is None
            &&& e.meta.model == c.model && last.meta.model == c.model
            &&& e.meta.codex_ver == "0.1.0"@ && last.meta.codex_ver == "0.1.0"@
        }),
{
}

/// The record of a number is written as a whole, to `plan.meta.json` beside the plan state, and
/// nothing is recorded without one.
pub proof fn records_lie_beside_the_state(c: Emitter, seq: u64)
    ensures
        c.plan_state_path is None ==> persistence(c, seq).len() == 0,
        c.plan_state_path matches Some(state) ==> {
            let steps = persistence(c, seq);
            let path = renamed_path(state, "plan.meta.json"@);
            let temp = extended_path(path, "tmp"@);
            let text = pretty_json(
                Json::Object(seq![("last_seq"@, Json::Number(seq as nat))]),
            );
            &&& record_path(state) == path
            &&& steps.len() == 8
            &&& steps[0] == StepModel::CreateParent(path)
            &&& steps[1] == StepModel::CreateTemp(temp)
            &&& steps[2] == StepModel::WriteTemp(temp, text)
            &&& steps[3] == StepModel::FlushTemp(temp)
            &&& steps[4] == StepModel::SyncTemp(temp)
            &&& steps[5] == StepModel::CloseTemp(temp)
            &&& steps[6] == (StepModel::RenameTemp { from: temp, to: path })
            &&& steps[7] == StepModel::SyncParent(path)
        },
{
}

/// A sequence starts with one where no record is kept or found, goes on with the number after the
/// recorded one, and fails where the record cannot be read or is the largest number.
pub proof fn sequences_go_on_after_their_record(c: Emitter, file: SequenceFile)
    ensures
        c.plan_state_path is None ==> resumed_sequence(c, file) == Ok::<int, Failure>(1),
        c.plan_state_path is Some ==> {
            &&& file is Missing ==> resumed_sequence(c, file) == Ok::<int, Failure>(1)
            &&& file is Unreadable ==> resumed_sequence(c, file) == Err::<int, Failure>(
                Failure::ReadSequence,
            )
            &&& file is Malformed ==> resumed_sequence(c, file) == Err::<int, Failure>(
                Failure::ParseSequence,
            )
            &&& file matches SequenceFile::Record(meta) ==> match resumed_sequence(c, file) {
                Ok(n) => n == meta.last_seq + 1 && n <= u64::MAX,
                Err(failure) => meta.last_seq == u64::MAX && failure == Failure::SequenceExhausted,
            }
        },
{
}

/// What a destination gets reads back: the line on the terminal after its mark, the line in the log
/// before its break, the text of a file, and the body of a request.
pub proof fn destinations_get_what_reads_back(steps: Seq<StepModel>, value: Json, i: int)
    requires
        carries(steps, value),
        0 <= i < steps.len(),
    ensures
        steps[i] matches StepModel::Print { line, .. } ==> read_json(line.skip(6)) == Some(value)
            && !line.contains('\n'),
        steps[i] matches StepModel::WriteLog(_, text) ==> {
            &&& text.len() > 0 && text.last() == '\n'
            &&& !text.drop_last().contains('\n')
            &&& read_json(text.drop_last()) == Some(value)
        },
        steps[i] matches StepModel::WriteTemp(_, text) ==> read_json(text) == Some(value),
        steps[i] matches StepModel::Deliver(request) ==> read_json(request.body) == Some(value),
{
    let step = steps[i];
    assert(payload(step) matches Some(t) ==> read_json(t) == Some(value));
}

} // verus!
