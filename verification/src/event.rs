//! The event that reports a plan, and the record of how far events have come.

use vstd::prelude::*;

use crate::instant::{has_four_digit_year, rfc3339_text, text_determines_the_instant};
use crate::json::{object, text, Json, JsonValue};
use crate::outside;
use crate::plan::{plan_json, plan_json_is_injective, Plan, UpdatePlanArgs};

verus! {

/// The version of this package, which every event carries.
pub const CODEX_VERSION: &'static str = "0.1.0";

/// The kind of event that reports a plan.
pub const PLAN_UPDATE: &'static str = "plan_update";

/// The kind of event that reports the end of a run.
pub const SHUTDOWN: &'static str = "shutdown";

/// What produced an event.
#[derive(Debug)]
pub struct EventMeta {
    pub model: String,
    pub codex_ver: String,
}

/// One event: a plan, where it comes from, when and in which place of the sequence.
#[derive(Debug)]
pub struct PlanEventEnvelope {
    pub event: String,
    pub run_id: String,
    pub task_id: String,
    pub seq: u64,
    /// When the event was made, in nanoseconds from the Unix epoch.
    pub ts: i128,
    pub plan: UpdatePlanArgs,
    pub meta: EventMeta,
}

/// The record from which a later run goes on with the sequence.
#[derive(Debug, Clone, Copy, PartialEq, Eq, Structural)]
pub struct SequenceMeta {
    pub last_seq: u64,
}

/// The mathematical counterpart of [`EventMeta`].
pub struct Meta {
    pub model: Seq<char>,
    pub codex_ver: Seq<char>,
}

/// The mathematical counterpart of [`PlanEventEnvelope`].
pub struct PlanEvent {
    pub event: Seq<char>,
    pub run_id: Seq<char>,
    pub task_id: Seq<char>,
    pub seq: u64,
    pub ts: int,
    pub plan: Plan,
    pub meta: Meta,
}

impl View for EventMeta {
    type V = Meta;

    open spec fn view(&self) -> Meta {
        Meta { model: self.model@, codex_ver: self.codex_ver@ }
    }
}

impl View for PlanEventEnvelope {
    type V = PlanEvent;

    open spec fn view(&self) -> PlanEvent {
        PlanEvent {
            event: self.event@,
            run_id: self.run_id@,
            task_id: self.task_id@,
            seq: self.seq,
            ts: self.ts as int,
            plan: self.plan@,
            meta: self.meta@,
        }
    }
}

impl Clone for EventMeta {
    fn clone(&self) -> (r: Self)
        ensures
            r@ == self@,
    {
        EventMeta { model: self.model.clone(), codex_ver: self.codex_ver.clone() }
    }
}

impl Clone for PlanEventEnvelope {
    fn clone(&self) -> (r: Self)
        ensures
            r@ == self@,
    {
        PlanEventEnvelope {
            event: self.event.clone(),
            run_id: self.run_id.clone(),
            task_id: self.task_id.clone(),
            seq: self.seq,
            ts: self.ts,
            plan: self.plan.clone(),
            meta: self.meta.clone(),
        }
    }
}

/// The provenance of an event as a JSON object.
pub open spec fn meta_json(meta: Meta) -> Json {
    Json::Object(
        seq![("model"@, Json::Text(meta.model)), ("codex_ver"@, Json::Text(meta.codex_ver))],
    )
}

/// An event as a JSON object: the plan and the provenance are nested, the instant is in RFC 3339
/// format.
pub open spec fn event_json(e: PlanEvent) -> Json {
    Json::Object(
        seq![
            ("event"@, Json::Text(e.event)),
            ("run_id"@, Json::Text(e.run_id)),
            ("task_id"@, Json::Text(e.task_id)),
            ("seq"@, Json::Number(e.seq as nat)),
            ("ts"@, Json::Text(rfc3339_text(e.ts))),
            ("plan"@, plan_json(e.plan)),
            ("meta"@, meta_json(e.meta)),
        ],
    )
}

/// A sequence record as a JSON object.
pub open spec fn sequence_json(meta: SequenceMeta) -> Json {
    Json::Object(seq![("last_seq"@, Json::Number(meta.last_seq as nat))])
}

impl EventMeta {
    /// The provenance as JSON.
    pub fn to_json(&self) -> (r: JsonValue)
        ensures
            r@ == meta_json(self@),
    {
        let mut members: Vec<(String, JsonValue)> = Vec::new();
        members.push(("model".to_owned(), text(self.model.as_str())));
        members.push(("codex_ver".to_owned(), text(self.codex_ver.as_str())));
        let r = object(members);
        proof {
            assert(r@->Object_0 =~= meta_json(self@)->Object_0);
        }
        r
    }
}

impl PlanEventEnvelope {
    /// The event as JSON, or nothing where its instant has no RFC 3339 form.
    pub fn to_json(&self) -> (r: Option<JsonValue>)
        ensures
            r is Some <==> has_four_digit_year(self.ts as int),
            r matches Some(json) ==> json@ == event_json(self@),
    {
        match outside::rfc3339(self.ts) {
            None => None,
            Some(ts) => Some(self.to_json_at(ts.as_str())),
        }
    }

    /// The event as JSON, with the text of its instant given.
    pub fn to_json_at(&self, ts: &str) -> (r: JsonValue)
        ensures
            r@ == Json::Object(
                seq![
                    ("event"@, Json::Text(self@.event)),
                    ("run_id"@, Json::Text(self@.run_id)),
                    ("task_id"@, Json::Text(self@.task_id)),
                    ("seq"@, Json::Number(self.seq as nat)),
                    ("ts"@, Json::Text(ts@)),
                    ("plan"@, plan_json(self@.plan)),
                    ("meta"@, meta_json(self@.meta)),
                ],
            ),
    {
        let mut members: Vec<(String, JsonValue)> = Vec::new();
        members.push(("event".to_owned(), text(self.event.as_str())));
        members.push(("run_id".to_owned(), text(self.run_id.as_str())));
        members.push(("task_id".to_owned(), text(self.task_id.as_str())));
        members.push(("seq".to_owned(), JsonValue::Number(self.seq)));
        members.push(("ts".to_owned(), text(ts)));
        members.push(("plan".to_owned(), self.plan.to_json()));
        members.push(("meta".to_owned(), self.meta.to_json()));
        let r = object(members);
        proof {
            assert(r@->Object_0 =~= seq![
                ("event"@, Json::Text(self@.event)),
                ("run_id"@, Json::Text(self@.run_id)),
                ("task_id"@, Json::Text(self@.task_id)),
                ("seq"@, Json::Number(self.seq as nat)),
                ("ts"@, Json::Text(ts@)),
                ("plan"@, plan_json(self@.plan)),
                ("meta"@, meta_json(self@.meta)),
            ]);
        }
        r
    }
}

impl SequenceMeta {
    /// The record as JSON.
    pub fn to_json(&self) -> (r: JsonValue)
        ensures
            r@ == sequence_json(*self),
    {
        let mut members: Vec<(String, JsonValue)> = Vec::new();
        members.push(("last_seq".to_owned(), JsonValue::Number(self.last_seq)));
        let r = object(members);
        proof {
            assert(r@->Object_0 =~= sequence_json(*self)->Object_0);
        }
        r
    }
}

/// An event loses nothing on the wire: events with the same JSON are the same.
pub proof fn event_json_is_faithful(a: PlanEvent, b: PlanEvent)
    requires
        has_four_digit_year(a.ts),
        has_four_digit_year(b.ts),
        event_json(a) == event_json(b),
    ensures
        a == b,
{
    let ma = event_json(a)->Object_0;
    let mb = event_json(b)->Object_0;
    assert(ma[0] == mb[0]);
    assert(ma[1] == mb[1]);
    assert(ma[2] == mb[2]);
    assert(ma[3] == mb[3]);
    assert(ma[4] == mb[4]);
    assert(ma[5] == mb[5]);
    assert(ma[6] == mb[6]);
    text_determines_the_instant(a.ts, b.ts);
    plan_json_is_injective(a.plan, b.plan);
    let na = ma[6].1->Object_0;
    let nb = mb[6].1->Object_0;
    assert(na[0] == nb[0]);
    assert(na[1] == nb[1]);
}

/// The schema of an event: seven members, with the plan and the provenance nested.
pub proof fn events_keep_the_schema(e: PlanEvent)
    ensures
        ({
            let members = event_json(e)->Object_0;
            let meta = members[6].1->Object_0;
            &&& event_json(e) is Object && members.len() == 7
            &&& members[0] == ("event"@, Json::Text(e.event))
            &&& members[1] == ("run_id"@, Json::Text(e.run_id))
            &&& members[2] == ("task_id"@, Json::Text(e.task_id))
            &&& members[3] == ("seq"@, Json::Number(e.seq as nat))
            &&& members[4] == ("ts"@, Json::Text(rfc3339_text(e.ts)))
            &&& members[5] == ("plan"@, plan_json(e.plan))
            &&& members[6].0 == "meta"@ && members[6].1 is Object && meta.len() == 2
            &&& meta[0] == ("model"@, Json::Text(e.meta.model))
            &&& meta[1] == ("codex_ver"@, Json::Text(e.meta.codex_ver))
        }),
{
}

/// The schema of a sequence record: one member, the last number.
pub proof fn records_keep_the_schema(meta: SequenceMeta)
    ensures
        sequence_json(meta) is Object,
        sequence_json(meta)->Object_0 == seq![
            ("last_seq"@, Json::Number(meta.last_seq as nat)),
        ],
{
}

/// An event stands for what it holds.
pub proof fn events_stand_for_what_they_hold(envelope: PlanEventEnvelope)
    ensures
        envelope@.event == envelope.event@,
        envelope@.run_id == envelope.run_id@,
        envelope@.task_id == envelope.task_id@,
        envelope@.seq == envelope.seq,
        envelope@.ts == envelope.ts,
        envelope@.plan == envelope.plan@,
        envelope@.meta.model == envelope.meta.model@,
        envelope@.meta.codex_ver == envelope.meta.codex_ver@,
{
}

} // verus!
