//! The plan that an agent reports: steps with their status, and an optional explanation.

use vstd::prelude::*;

use crate::json::{array, object, text, Json, JsonValue};

verus! {

/// How far a step of the plan has come.
#[derive(Debug, Clone, Copy, PartialEq, Eq, Structural)]
pub enum StepStatus {
    Pending,
    InProgress,
    Completed,
}

/// One step of the plan.
#[derive(Debug)]
pub struct PlanItemArg {
    pub step: String,
    pub status: StepStatus,
}

/// A plan as the agent hands it over.
#[derive(Debug)]
pub struct UpdatePlanArgs {
    pub explanation: Option<String>,
    pub plan: Vec<PlanItemArg>,
}

/// The mathematical counterpart of [`PlanItemArg`].
pub struct PlanItem {
    pub step: Seq<char>,
    pub status: StepStatus,
}

/// The mathematical counterpart of [`UpdatePlanArgs`].
#[verifier::ext_equal]
pub struct Plan {
    pub explanation: Option<Seq<char>>,
    pub items: Seq<PlanItem>,
}

/// The text behind an optional string.
pub open spec fn optional_text(s: Option<String>) -> Option<Seq<char>> {
    match s {
        Some(t) => Some(t@),
        None => None,
    }
}

/// Copies an optional string.
pub(crate) fn copy_optional(s: &Option<String>) -> (r: Option<String>)
    ensures
        optional_text(r) == optional_text(*s),
{
    match s {
        Some(t) => Some(t.clone()),
        None => None,
    }
}

impl View for PlanItemArg {
    type V = PlanItem;

    open spec fn view(&self) -> PlanItem {
        PlanItem { step: self.step@, status: self.status }
    }
}

impl View for UpdatePlanArgs {
    type V = Plan;

    open spec fn view(&self) -> Plan {
        Plan {
            explanation: optional_text(self.explanation),
            items: self.plan@.map_values(|item: PlanItemArg| item@),
        }
    }
}

impl Clone for PlanItemArg {
    fn clone(&self) -> (r: Self)
        ensures
            r@ == self@,
    {
        PlanItemArg { step: self.step.clone(), status: self.status }
    }
}

impl Clone for UpdatePlanArgs {
    fn clone(&self) -> (r: Self)
        ensures
            r@ == self@,
    {
        let mut plan: Vec<PlanItemArg> = Vec::new();
        let n: usize = self.plan.len();
        for i in 0..n
            invariant
                n == self.plan@.len(),
                plan@.len() == i,
                forall|k: int| 0 <= k < i ==> (#[trigger] plan@[k])@ == self.plan@[k]@,
        {
            plan.push(self.plan[i].clone());
        }
        let r = UpdatePlanArgs { explanation: copy_optional(&self.explanation), plan };
        proof {
            assert(r@.items =~= self@.items);
        }
        r
    }
}

/// The name of a status on the wire.
pub open spec fn status_name(status: StepStatus) -> Seq<char> {
    match status {
        StepStatus::Pending => "pending"@,
        StepStatus::InProgress => "in_progress"@,
        StepStatus::Completed => "completed"@,
    }
}

/// A step as a JSON object.
pub open spec fn item_json(item: PlanItem) -> Json {
    Json::Object(
        seq![
            ("step"@, Json::Text(item.step)),
            ("status"@, Json::Text(status_name(item.status))),
        ],
    )
}

/// A plan as a JSON object. A missing explanation is written as `null`.
pub open spec fn plan_json(plan: Plan) -> Json {
    Json::Object(
        seq![
            (
                "explanation"@,
                match plan.explanation {
                    Some(t) => Json::Text(t),
                    None => Json::Null,
                },
            ),
            ("plan"@, Json::Array(plan.items.map_values(|item: PlanItem| item_json(item)))),
        ],
    )
}

impl StepStatus {
    /// The name of the status on the wire.
    pub fn name(self) -> (r: &'static str)
        ensures
            r@ == status_name(self),
            self == StepStatus::Pending ==> r@ == "pending"@,
            self == StepStatus::InProgress ==> r@ == "in_progress"@,
            self == StepStatus::Completed ==> r@ == "completed"@,
    {
        match self {
            StepStatus::Pending => "pending",
            StepStatus::InProgress => "in_progress",
            StepStatus::Completed => "completed",
        }
    }
}

impl PlanItemArg {
    /// The step as JSON.
    pub fn to_json(&self) -> (r: JsonValue)
        ensures
            r@ == item_json(self@),
    {
        let mut members: Vec<(String, JsonValue)> = Vec::new();
        members.push(("step".to_owned(), text(self.step.as_str())));
        members.push(("status".to_owned(), text(self.status.name())));
        let r = object(members);
        proof {
            assert(r@->Object_0 =~= item_json(self@)->Object_0);
        }
        r
    }
}

impl UpdatePlanArgs {
    /// The plan as JSON.
    pub fn to_json(&self) -> (r: JsonValue)
        ensures
            r@ == plan_json(self@),
    {
        let mut items: Vec<JsonValue> = Vec::new();
        let n: usize = self.plan.len();
        for i in 0..n
            invariant
                n == self.plan@.len(),
                items@.len() == i,
                forall|k: int| 0 <= k < i ==> (#[trigger] items@[k])@ == item_json(self.plan@[k]@),
        {
            items.push(self.plan[i].to_json());
        }
        let steps = array(items);
        proof {
            assert(steps@->Array_0 =~= self@.items.map_values(|item: PlanItem| item_json(item)));
        }
        let explanation = match &self.explanation {
            Some(t) => text(t.as_str()),
            None => JsonValue::Null,
        };
        let mut members: Vec<(String, JsonValue)> = Vec::new();
        members.push(("explanation".to_owned(), explanation));
        members.push(("plan".to_owned(), steps));
        let r = object(members);
        proof {
            assert(r@->Object_0 =~= plan_json(self@)->Object_0);
        }
        r
    }
}

/// The wire keeps everything: plans with the same JSON have the same explanation, the same steps
/// in the same order, and the same statuses.
pub proof fn plan_json_is_injective(a: Plan, b: Plan)
    requires
        plan_json(a) == plan_json(b),
    ensures
        a == b,
{
    let ma = plan_json(a)->Object_0;
    let mb = plan_json(b)->Object_0;
    assert(ma[0] == mb[0]);
    assert(ma[1] == mb[1]);
    assert(a.explanation == b.explanation);
    let ja = ma[1].1->Array_0;
    let jb = mb[1].1->Array_0;
    assert(ja.len() == a.items.len());
    assert(jb.len() == b.items.len());
    assert forall|i: int| 0 <= i < a.items.len() implies a.items[i] == b.items[i] by {
        assert(ja[i] == item_json(a.items[i]));
        assert(jb[i] == item_json(b.items[i]));
        let oa = item_json(a.items[i])->Object_0;
        let ob = item_json(b.items[i])->Object_0;
        assert(oa[0] == ob[0]);
        assert(oa[1] == ob[1]);
        lemma_status_name_injective(a.items[i].status, b.items[i].status);
    }
    assert(a.items =~= b.items);
}

/// Distinct statuses have distinct names.
proof fn lemma_status_name_injective(a: StepStatus, b: StepStatus)
    requires
        status_name(a) == status_name(b),
    ensures
        a == b,
{
    reveal_strlit("pending");
    reveal_strlit("in_progress");
    reveal_strlit("completed");
    assert("pending"@.len() == 7);
    assert("in_progress"@.len() == 11);
    assert("completed"@.len() == 9);
}

/// The name of each status on the wire.
pub proof fn statuses_have_their_names(status: StepStatus)
    ensures
        status == StepStatus::Pending ==> status_name(status) == "pending"@,
        status == StepStatus::InProgress ==> status_name(status) == "in_progress"@,
        status == StepStatus::Completed ==> status_name(status) == "completed"@,
{
}

/// The schema of a plan: an object with the explanation, which is null where there is none, and the
/// list of steps, each an object with its text and the name of its status.
pub proof fn plans_keep_the_schema(plan: Plan, i: int)
    ensures
        ({
            let members = plan_json(plan)->Object_0;
            let items = members[1].1->Array_0;
            let item = items[i]->Object_0;
            let status = item[1].1->Text_0;
            &&& plan_json(plan) is Object && members.len() == 2
            &&& members[0].0 == "explanation"@
            &&& plan.explanation is None ==> members[0].1 is Null
            &&& plan.explanation matches Some(t) ==> members[0].1 == Json::Text(t)
            &&& members[1].0 == "plan"@
            &&& members[1].1 is Array && items.len() == plan.items.len()
            &&& 0 <= i < plan.items.len() ==> {
                &&& items[i] is Object && item.len() == 2
                &&& item[0] == ("step"@, Json::Text(plan.items[i].step))
                &&& item[1].0 == "status"@ && item[1].1 is Text
                &&& plan.items[i].status is Pending <==> status == "pending"@
                &&& plan.items[i].status is InProgress <==> status == "in_progress"@
                &&& plan.items[i].status is Completed <==> status == "completed"@
            }
        }),
{
    reveal_strlit("pending");
    reveal_strlit("in_progress");
    reveal_strlit("completed");
    assert("pending"@.len() == 7);
    assert("in_progress"@.len() == 11);
    assert("completed"@.len() == 9);
    if 0 <= i < plan.items.len() {
        assert(plan_json(plan)->Object_0[1].1->Array_0[i] == item_json(plan.items[i]));
    }
}

/// A plan stands for what it holds: the explanation, and each step with its status, in order.
pub proof fn plans_stand_for_what_they_hold(plan: UpdatePlanArgs, i: int)
    ensures
        match plan.explanation {
            Some(t) => plan@.explanation == Some(t@),
            None => plan@.explanation is None,
        },
        plan@.items.len() == plan.plan@.len(),
        0 <= i < plan.plan@.len() ==> plan@.items[i].step == plan.plan@[i].step@
            && plan@.items[i].status == plan.plan@[i].status,
{
}

} // verus!
