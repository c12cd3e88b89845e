//! What the steps make of the files, and what the files hold after many of them.

use vstd::prelude::*;

use crate::event::{
    event_json, event_json_is_faithful, sequence_json, PlanEvent, SequenceMeta,
};
use crate::instant::has_four_digit_year;
use crate::outside::{compact_json, pretty_json, read_json};
use crate::plan_emitter::{
    carries, emission, log_call, log_steps, payload, persistence, print_steps, record_path,
    state_call, state_steps, webhook_steps, without_state, Emitter,
};
use crate::step::{atomic_write, passes, step_failure, temp_path, StepModel};

verus! {

/// What the files hold. Paths that differ are taken for different files.
#[verifier::ext_equal]
pub struct Disk {
    pub files: Map<std::path::PathBuf, Seq<char>>,
}

/// What a file holds, where there is one.
pub open spec fn file_of(disk: Disk, path: std::path::PathBuf) -> Option<Seq<char>> {
    if disk.files.dom().contains(path) {
        Some(disk.files[path])
    } else {
        None
    }
}

/// What a file holds. A missing one holds nothing.
pub open spec fn content_of(disk: Disk, path: std::path::PathBuf) -> Seq<char> {
    match file_of(disk, path) {
        Some(content) => content,
        None => Seq::empty(),
    }
}

/// Whether a step is about a log.
pub open spec fn is_log_step(step: StepModel) -> bool {
    step is OpenLog || step is WriteLog || step is FlushLog
}

/// Whether a step may change a file.
pub open spec fn touches(step: StepModel, path: std::path::PathBuf) -> bool {
    match step {
        StepModel::OpenLog(p) => p == path,
        StepModel::WriteLog(p, _) => p == path,
        StepModel::FlushLog(p) => p == path,
        StepModel::CreateTemp(p) => p == path,
        StepModel::WriteTemp(p, _) => p == path,
        StepModel::FlushTemp(p) => p == path,
        StepModel::SyncTemp(p) => p == path,
        StepModel::RenameTemp { from, to } => from == path || to == path,
        _ => false,
    }
}

/// What a step that succeeds makes of the files.
pub open spec fn performed(disk: Disk, step: StepModel) -> Disk {
    match step {
        StepModel::OpenLog(p) => Disk { files: disk.files.insert(p, content_of(disk, p)) },
        StepModel::WriteLog(p, content) => Disk {
            files: disk.files.insert(p, content_of(disk, p) + content),
        },
        StepModel::CreateTemp(p) => Disk { files: disk.files.insert(p, Seq::empty()) },
        StepModel::WriteTemp(p, content) => Disk {
            files: disk.files.insert(p, content_of(disk, p) + content),
        },
        StepModel::RenameTemp { from, to } => if from == to {
            disk
        } else {
            Disk { files: disk.files.insert(to, content_of(disk, from)).remove(from) }
        },
        _ => disk,
    }
}

/// Whether no file but one may have changed.
pub open spec fn agree_but_for(before: Disk, after: Disk, path: std::path::PathBuf) -> bool {
    forall|q: std::path::PathBuf| q != path ==> #[trigger] file_of(after, q) == file_of(before, q)
}

/// What a step that does not succeed may leave behind. A log step may have added something to the
/// log, which was opened for appending, and takes nothing from it. A step on a temporary file may
/// have done anything to that file. A rename is done or not done.
pub open spec fn spoiled(before: Disk, step: StepModel, after: Disk) -> bool {
    match step {
        StepModel::OpenLog(p) => log_spoiled(before, p, after),
        StepModel::WriteLog(p, _) => log_spoiled(before, p, after),
        StepModel::FlushLog(p) => log_spoiled(before, p, after),
        StepModel::CreateTemp(p) => agree_but_for(before, after, p),
        StepModel::WriteTemp(p, _) => agree_but_for(before, after, p),
        StepModel::FlushTemp(p) => agree_but_for(before, after, p),
        StepModel::SyncTemp(p) => agree_but_for(before, after, p),
        _ => after == before,
    }
}

/// Whether nothing but additions to a log may have been made.
pub open spec fn log_spoiled(before: Disk, path: std::path::PathBuf, after: Disk) -> bool {
    &&& agree_but_for(before, after, path)
    &&& file_of(before, path) is Some ==> file_of(after, path) is Some
    &&& content_of(before, path).is_prefix_of(content_of(after, path))
}

/// Whether a step can lead from one state of the files to another.
pub open spec fn becomes(before: Disk, step: StepModel, succeeded: bool, after: Disk) -> bool {
    if succeeded {
        after == performed(before, step)
    } else {
        spoiled(before, step, after)
    }
}

/// Whether the steps from `at` on, taken up to the first that does not pass, can lead from one
/// state of the files to another. `finished` tells whether all of them passed.
pub open spec fn leads_to(
    before: Disk,
    steps: Seq<StepModel>,
    at: int,
    after: Disk,
    finished: bool,
) -> bool
    decreases steps.len() - at,
{
    if at >= steps.len() {
        after == before && finished
    } else {
        exists|mid: Disk, succeeded: bool|
            {
                &&& #[trigger] becomes(before, steps[at], succeeded, mid)
                &&& if passes(steps[at], succeeded) {
                    leads_to(mid, steps, at + 1, after, finished)
                } else {
                    after == mid && !finished
                }
            }
    }
}

/// Whether the steps from `at` up to `end` can all pass and lead from one state of the files to
/// another.
pub open spec fn reaches(
    before: Disk,
    steps: Seq<StepModel>,
    at: int,
    end: int,
    after: Disk,
) -> bool
    decreases end - at,
{
    if at >= end {
        after == before
    } else {
        exists|mid: Disk, succeeded: bool|
            {
                &&& #[trigger] becomes(before, steps[at], succeeded, mid)
                &&& passes(steps[at], succeeded)
                &&& reaches(mid, steps, at + 1, end, after)
            }
    }
}

/// The first of a list of steps, as it was taken.
proof fn lemma_first(
    before: Disk,
    steps: Seq<StepModel>,
    at: int,
    after: Disk,
    finished: bool,
) -> (r: (Disk, bool))
    requires
        0 <= at < steps.len(),
        leads_to(before, steps, at, after, finished),
    ensures
        becomes(before, steps[at], r.1, r.0),
        passes(steps[at], r.1) ==> leads_to(r.0, steps, at + 1, after, finished),
        !passes(steps[at], r.1) ==> after == r.0 && !finished,
        finished && !r.1 ==> r.0 == before,
{
    let (mid, succeeded) = choose|mid: Disk, succeeded: bool|
        {
            &&& #[trigger] becomes(before, steps[at], succeeded, mid)
            &&& if passes(steps[at], succeeded) {
                leads_to(mid, steps, at + 1, after, finished)
            } else {
                after == mid && !finished
            }
        };
    (mid, succeeded)
}

/// The first of a list of steps that all pass, as it was taken.
proof fn lemma_first_reached(
    before: Disk,
    steps: Seq<StepModel>,
    at: int,
    end: int,
    after: Disk,
) -> (r: (Disk, bool))
    requires
        at < end,
        reaches(before, steps, at, end, after),
    ensures
        becomes(before, steps[at], r.1, r.0),
        passes(steps[at], r.1),
        reaches(r.0, steps, at + 1, end, after),
        !r.1 ==> r.0 == before,
{
    let (mid, succeeded) = choose|mid: Disk, succeeded: bool|
        {
            &&& #[trigger] becomes(before, steps[at], succeeded, mid)
            &&& passes(steps[at], succeeded)
            &&& reaches(mid, steps, at + 1, end, after)
        };
    (mid, succeeded)
}

/// Steps that finish reach every place among them.
proof fn lemma_finished_steps_reach(
    before: Disk,
    steps: Seq<StepModel>,
    at: int,
    end: int,
    after: Disk,
) -> (mid: Disk)
    requires
        0 <= at <= end <= steps.len(),
        leads_to(before, steps, at, after, true),
    ensures
        reaches(before, steps, at, end, mid),
        leads_to(mid, steps, end, after, true),
    decreases end - at,
{
    if at == end {
        before
    } else {
        let (next, succeeded) = lemma_first(before, steps, at, after, true);
        let mid = lemma_finished_steps_reach(next, steps, at + 1, end, after);
        assert(becomes(before, steps[at], succeeded, next));
        mid
    }
}

/// Steps that cannot fail finish.
proof fn lemma_harmless_steps_finish(
    before: Disk,
    steps: Seq<StepModel>,
    at: int,
    after: Disk,
    finished: bool,
)
    requires
        0 <= at <= steps.len(),
        leads_to(before, steps, at, after, finished),
        forall|i: int| at <= i < steps.len() ==> step_failure(#[trigger] steps[i]) is None,
    ensures
        finished,
    decreases steps.len() - at,
{
    if at < steps.len() {
        let (mid, succeeded) = lemma_first(before, steps, at, after, finished);
        assert(step_failure(steps[at]) is None);
        lemma_harmless_steps_finish(mid, steps, at + 1, after, finished);
    }
}

/// One step keeps a file that it does not touch, and every file where it is a rename that is not
/// done.
proof fn lemma_one_step_keeps(
    before: Disk,
    step: StepModel,
    succeeded: bool,
    after: Disk,
    file: std::path::PathBuf,
)
    requires
        becomes(before, step, succeeded, after),
        !touches(step, file) || (step is RenameTemp && !succeeded),
    ensures
        file_of(after, file) == file_of(before, file),
{
}

/// Files that no step touches are kept, whatever comes of the steps.
proof fn lemma_untouched_files_are_kept(
    before: Disk,
    steps: Seq<StepModel>,
    at: int,
    after: Disk,
    finished: bool,
    file: std::path::PathBuf,
)
    requires
        0 <= at <= steps.len(),
        leads_to(before, steps, at, after, finished),
        forall|i: int| at <= i < steps.len() ==> !touches(#[trigger] steps[i], file),
    ensures
        file_of(after, file) == file_of(before, file),
    decreases steps.len() - at,
{
    if at < steps.len() {
        let (mid, succeeded) = lemma_first(before, steps, at, after, finished);
        lemma_one_step_keeps(before, steps[at], succeeded, mid, file);
        if passes(steps[at], succeeded) {
            lemma_untouched_files_are_kept(mid, steps, at + 1, after, finished, file);
        }
    }
}

/// A file that is touched by a rename alone, after which nothing can fail, is kept where the steps
/// do not finish.
proof fn lemma_unfinished_steps_keep(
    before: Disk,
    steps: Seq<StepModel>,
    at: int,
    after: Disk,
    file: std::path::PathBuf,
)
    requires
        0 <= at <= steps.len(),
        leads_to(before, steps, at, after, false),
        forall|i: int|
            at <= i < steps.len() && touches(#[trigger] steps[i], file) ==> steps[i] is RenameTemp,
        forall|i: int, j: int|
            at <= i < j < steps.len() && (#[trigger] steps[i]) is RenameTemp ==> step_failure(
                #[trigger] steps[j],
            ) is None,
    ensures
        file_of(after, file) == file_of(before, file),
    decreases steps.len() - at,
{
    if at < steps.len() {
        let (mid, succeeded) = lemma_first(before, steps, at, after, false);
        if passes(steps[at], succeeded) {
            if steps[at] is RenameTemp {
                lemma_harmless_steps_finish(mid, steps, at + 1, after, false);
            } else {
                lemma_one_step_keeps(before, steps[at], succeeded, mid, file);
                lemma_unfinished_steps_keep(mid, steps, at + 1, after, file);
            }
        } else {
            lemma_one_step_keeps(before, steps[at], succeeded, mid, file);
        }
    }
}

/// Steps that write a file as a whole and do not touch it later leave it with what was written,
/// where they finish.
proof fn lemma_finished_steps_replace(
    before: Disk,
    steps: Seq<StepModel>,
    n: int,
    after: Disk,
    file: std::path::PathBuf,
    content: Seq<char>,
)
    requires
        0 <= n,
        n + 5 < steps.len(),
        leads_to(before, steps, n, after, true),
        temp_path(file) != file,
        steps[n] == StepModel::CreateTemp(temp_path(file)),
        steps[n + 1] == StepModel::WriteTemp(temp_path(file), content),
        steps[n + 2] == StepModel::FlushTemp(temp_path(file)),
        steps[n + 3] == StepModel::SyncTemp(temp_path(file)),
        steps[n + 4] == StepModel::CloseTemp(temp_path(file)),
        steps[n + 5] == (StepModel::RenameTemp { from: temp_path(file), to: file }),
        forall|i: int| n + 5 < i < steps.len() ==> !touches(#[trigger] steps[i], file),
    ensures
        file_of(after, file) == Some(content),
{
    let temp = temp_path(file);
    let (d0, s0) = lemma_first(before, steps, n, after, true);
    let (d1, s1) = lemma_first(d0, steps, n + 1, after, true);
    let (d2, s2) = lemma_first(d1, steps, n + 2, after, true);
    let (d3, s3) = lemma_first(d2, steps, n + 3, after, true);
    let (d4, s4) = lemma_first(d3, steps, n + 4, after, true);
    let (d5, s5) = lemma_first(d4, steps, n + 5, after, true);
    assert(content_of(d4, temp) =~= content);
    assert(file_of(d5, file) == Some(content));
    lemma_untouched_files_are_kept(d5, steps, n + 6, after, true, file);
}

/// A list of steps that makes room for a file and then writes it as a whole replaces the file where
/// it finishes, keeps it where it does not, and keeps every other file but the temporary one.
proof fn lemma_replaced_or_kept(
    before: Disk,
    steps: Seq<StepModel>,
    after: Disk,
    finished: bool,
    file: std::path::PathBuf,
    content: Seq<char>,
)
    requires
        temp_path(file) != file,
        steps == seq![StepModel::CreateParent(file)] + atomic_write(file, content),
        leads_to(before, steps, 0, after, finished),
    ensures
        finished ==> file_of(after, file) == Some(content),
        !finished ==> file_of(after, file) == file_of(before, file),
        forall|q: std::path::PathBuf|
            q != file && q != temp_path(file) ==> #[trigger] file_of(after, q) == file_of(before, q),
{
    assert(steps.len() == 8);
    assert(steps[0] == StepModel::CreateParent(file));
    assert(steps[6] == (StepModel::RenameTemp { from: temp_path(file), to: file }));
    assert(steps[7] == StepModel::SyncParent(file));
    if finished {
        let (mid, succeeded) = lemma_first(before, steps, 0, after, true);
        lemma_finished_steps_replace(mid, steps, 1, after, file, content);
    } else {
        lemma_unfinished_steps_keep(before, steps, 0, after, file);
    }
    assert forall|q: std::path::PathBuf| q != file && q != temp_path(file) implies #[trigger] file_of(
        after,
        q,
    ) == file_of(before, q) by {
        lemma_untouched_files_are_kept(before, steps, 0, after, finished, q);
    }
}

/// The plan state after one call: a call that succeeds leaves the whole event there, and nothing
/// else; one that does not leaves the file as it was. No other file is touched but the temporary
/// one, which must be another file than the plan state.
pub proof fn plan_state_is_replaced_or_kept(
    path: std::path::PathBuf,
    e: PlanEvent,
    before: Disk,
    after: Disk,
    finished: bool,
)
    requires
        temp_path(path) != path,
        leads_to(before, state_call(path, e), 0, after, finished),
    ensures
        finished ==> has_four_digit_year(e.ts) && file_of(after, path) == Some(
            pretty_json(event_json(e)),
        ),
        !finished ==> file_of(after, path) == file_of(before, path),
        forall|q: std::path::PathBuf|
            q != path && q != temp_path(path) ==> #[trigger] file_of(after, q) == file_of(before, q),
{
    let steps = state_call(path, e);
    if has_four_digit_year(e.ts) {
        lemma_replaced_or_kept(before, steps, after, finished, path, pretty_json(event_json(e)));
    } else {
        assert(steps.len() == 2);
        let (mid, succeeded) = lemma_first(before, steps, 0, after, finished);
        if passes(steps[0], succeeded) {
            let (last, done) = lemma_first(mid, steps, 1, after, finished);
        }
        assert forall|q: std::path::PathBuf| #[trigger] file_of(after, q) == file_of(before, q) by {
            lemma_untouched_files_are_kept(before, steps, 0, after, finished, q);
        }
    }
}

/// The place of the last call that succeeded.
pub open spec fn last_success(finished: Seq<bool>) -> Option<int>
    decreases finished.len(),
{
    if finished.len() == 0 {
        None
    } else if finished.last() {
        Some(finished.len() - 1)
    } else {
        last_success(finished.drop_last())
    }
}

/// After any series of calls the plan state is the event of the last call that succeeded, as one
/// document that reads back as that event and no other, whatever was there before; where none
/// succeeded it is as it was. `befores[i]` and `afters[i]` are the files before and after call `i`,
/// and `states[i]` is what the plan state holds before it: nobody else writes there.
pub proof fn plan_state_is_the_last_that_succeeded(
    path: std::path::PathBuf,
    events: Seq<PlanEvent>,
    finished: Seq<bool>,
    befores: Seq<Disk>,
    afters: Seq<Disk>,
    states: Seq<Option<Seq<char>>>,
)
    requires
        temp_path(path) != path,
        finished.len() == events.len(),
        befores.len() == events.len(),
        afters.len() == events.len(),
        states.len() == events.len() + 1,
        forall|i: int|
            0 <= i < events.len() ==> {
                &&& leads_to(
                    befores[i],
                    state_call(path, #[trigger] events[i]),
                    0,
                    afters[i],
                    finished[i],
                )
                &&& carries(state_call(path, events[i]), event_json(events[i]))
                &&& file_of(befores[i], path) == states[i]
                &&& file_of(afters[i], path) == states[i + 1]
            },
    ensures
        match last_success(finished) {
            Some(k) => {
                &&& 0 <= k < events.len() && finished[k]
                &&& states.last() == Some(pretty_json(event_json(events[k])))
                &&& read_json(states.last()->0) == Some(event_json(events[k]))
                &&& forall|e: PlanEvent|
                    has_four_digit_year(e.ts) && read_json(states.last()->0) == Some(
                        #[trigger] event_json(e),
                    ) ==> e == events[k]
            },
            None => states.last() == states[0],
        },
    decreases events.len(),
{
    if events.len() > 0 {
        let n = events.len() - 1;
        let e = events[n];
        plan_state_is_replaced_or_kept(path, e, befores[n], afters[n], finished[n]);
        if finished[n] {
            let steps = state_call(path, e);
            assert(payload(steps[2]) == Some(pretty_json(event_json(e))));
            assert forall|other: PlanEvent|
                has_four_digit_year(other.ts) && read_json(pretty_json(event_json(e))) == Some(
                    #[trigger] event_json(other),
                ) implies other == e by {
                event_json_is_faithful(other, e);
            }
        } else {
            let fewer = events.drop_last();
            assert forall|i: int| 0 <= i < fewer.len() implies {
                &&& leads_to(
                    befores.drop_last()[i],
                    state_call(path, #[trigger] fewer[i]),
                    0,
                    afters.drop_last()[i],
                    finished.drop_last()[i],
                )
                &&& carries(state_call(path, fewer[i]), event_json(fewer[i]))
                &&& file_of(befores.drop_last()[i], path) == states.drop_last()[i]
                &&& file_of(afters.drop_last()[i], path) == states.drop_last()[i + 1]
            } by {
                assert(fewer[i] == events[i]);
            }
            plan_state_is_the_last_that_succeeded(
                path,
                fewer,
                finished.drop_last(),
                befores.drop_last(),
                afters.drop_last(),
                states.drop_last(),
            );
        }
    }
}

/// The sequence record after one call: a call that succeeds leaves a record that reads back as its
/// number and no other, and one that does not leaves the record as it was. No other file is touched
/// but the temporary one, which must be another file than the record.
pub proof fn sequence_record_is_replaced_or_kept(
    c: Emitter,
    seq: u64,
    before: Disk,
    after: Disk,
    finished: bool,
)
    requires
        c.plan_state_path is Some,
        temp_path(record_path(c.plan_state_path->0)) != record_path(c.plan_state_path->0),
        leads_to(before, persistence(c, seq), 0, after, finished),
        carries(persistence(c, seq), sequence_json(SequenceMeta { last_seq: seq })),
    ensures
        ({
            let path = record_path(c.plan_state_path->0);
            &&& finished ==> {
                &&& file_of(after, path) is Some
                &&& read_json(content_of(after, path)) == Some(
                    sequence_json(SequenceMeta { last_seq: seq }),
                )
                &&& forall|found: SequenceMeta|
                    read_json(content_of(after, path)) == Some(#[trigger] sequence_json(found))
                        ==> found.last_seq == seq
            }
            &&& !finished ==> file_of(after, path) == file_of(before, path)
            &&& forall|q: std::path::PathBuf|
                q != path && q != temp_path(path) ==> #[trigger] file_of(after, q) == file_of(
                    before,
                    q,
                )
        }),
{
    let path = record_path(c.plan_state_path->0);
    let steps = persistence(c, seq);
    let json = sequence_json(SequenceMeta { last_seq: seq });
    lemma_replaced_or_kept(before, steps, after, finished, path, pretty_json(json));
    assert(payload(steps[2]) == Some(pretty_json(json)));
    assert forall|found: SequenceMeta| #[trigger] sequence_json(found) == json implies found.last_seq
        == seq by {
        assert(sequence_json(found)->Object_0[0] == json->Object_0[0]);
    }
}

/// Each step of an emission, by the part that it belongs to.
proof fn lemma_emission_parts(c: Emitter, e: PlanEvent, i: int)
    requires
        has_four_digit_year(e.ts),
        0 <= i < emission(c, e).len(),
    ensures
        ({
            let n = print_steps(c, e).len();
            let m = n + log_steps(c, e).len();
            let k = m + state_steps(c, e).len();
            emission(c, e)[i] == if i < n {
                print_steps(c, e)[i]
            } else if i < m {
                log_steps(c, e)[i - n]
            } else if i < k {
                state_steps(c, e)[i - m]
            } else {
                webhook_steps(c, e)[i - k]
            }
        }),
{
}

/// Whether the log of an emitter is another file than its plan state and the temporary file of
/// that.
pub open spec fn log_stands_alone(c: Emitter) -> bool {
    c.plan_state_path matches Some(state) ==> c.plan_events_path != Some(state)
        && c.plan_events_path != Some(temp_path(state))
}

/// An emission touches the log, the plan state and the temporary file of that, and no other file,
/// whatever comes of it.
pub proof fn emissions_touch_their_files_alone(
    c: Emitter,
    e: PlanEvent,
    before: Disk,
    after: Disk,
    finished: bool,
    file: std::path::PathBuf,
)
    requires
        leads_to(before, emission(c, e), 0, after, finished),
        c.plan_events_path != Some(file),
        c.plan_state_path matches Some(state) ==> file != state && file != temp_path(state),
    ensures
        file_of(after, file) == file_of(before, file),
{
    let steps = emission(c, e);
    assert forall|i: int| 0 <= i < steps.len() implies !touches(#[trigger] steps[i], file) by {
        if has_four_digit_year(e.ts) {
            lemma_emission_parts(c, e, i);
        }
    }
    lemma_untouched_files_are_kept(before, steps, 0, after, finished, file);
}

/// The report of the end of a run touches the log alone: the plan state keeps the latest plan, and
/// the sequence record the number of the last one, as long as neither is the log.
pub proof fn final_emissions_touch_the_log_alone(
    c: Emitter,
    e: PlanEvent,
    before: Disk,
    after: Disk,
    finished: bool,
    file: std::path::PathBuf,
)
    requires
        leads_to(before, emission(without_state(c), e), 0, after, finished),
        c.plan_events_path != Some(file),
    ensures
        file_of(after, file) == file_of(before, file),
{
    emissions_touch_their_files_alone(without_state(c), e, before, after, finished, file);
}

/// A file that nothing but log steps touch only grows.
proof fn lemma_log_grows(
    before: Disk,
    steps: Seq<StepModel>,
    at: int,
    after: Disk,
    finished: bool,
    log: std::path::PathBuf,
)
    requires
        0 <= at <= steps.len(),
        leads_to(before, steps, at, after, finished),
        forall|i: int|
            at <= i < steps.len() && touches(#[trigger] steps[i], log) ==> is_log_step(steps[i]),
    ensures
        content_of(before, log).is_prefix_of(content_of(after, log)),
    decreases steps.len() - at,
{
    if at < steps.len() {
        let (mid, succeeded) = lemma_first(before, steps, at, after, finished);
        if touches(steps[at], log) {
            assert(content_of(before, log).is_prefix_of(content_of(mid, log)));
        } else {
            lemma_one_step_keeps(before, steps[at], succeeded, mid, log);
        }
        if passes(steps[at], succeeded) {
            lemma_log_grows(mid, steps, at + 1, after, finished, log);
            assert(content_of(before, log) =~= content_of(after, log).take(
                content_of(before, log).len() as int,
            ));
        }
    }
}

/// The log is append-only: whatever comes of an emission, nothing that was logged before is changed
/// or removed.
pub proof fn emissions_keep_what_is_logged(
    c: Emitter,
    e: PlanEvent,
    before: Disk,
    after: Disk,
    finished: bool,
)
    requires
        c.plan_events_path is Some,
        log_stands_alone(c),
        leads_to(before, emission(c, e), 0, after, finished),
    ensures
        content_of(before, c.plan_events_path->0).is_prefix_of(
            content_of(after, c.plan_events_path->0),
        ),
{
    let steps = emission(c, e);
    let log = c.plan_events_path->0;
    assert forall|i: int|
        0 <= i < steps.len() && touches(#[trigger] steps[i], log) implies is_log_step(steps[i]) by {
        if has_four_digit_year(e.ts) {
            lemma_emission_parts(c, e, i);
        }
    }
    lemma_log_grows(before, steps, 0, after, finished, log);
}

/// Steps of which one alone writes to a log, and no other but log steps touch it, append what it
/// writes, where they pass.
proof fn lemma_passed_steps_append(
    before: Disk,
    steps: Seq<StepModel>,
    at: int,
    end: int,
    after: Disk,
    log: std::path::PathBuf,
    k: int,
    content: Seq<char>,
)
    requires
        0 <= at <= end <= steps.len(),
        0 <= k < end,
        reaches(before, steps, at, end, after),
        steps[k] == StepModel::WriteLog(log, content),
        forall|i: int|
            0 <= i < end && touches(#[trigger] steps[i], log) ==> steps[i] is OpenLog || steps[i]
                is FlushLog || i == k,
    ensures
        content_of(after, log) == if at <= k {
            content_of(before, log) + content
        } else {
            content_of(before, log)
        },
    decreases end - at,
{
    if at < end {
        let (mid, succeeded) = lemma_first_reached(before, steps, at, end, after);
        lemma_passed_steps_append(mid, steps, at + 1, end, after, log, k, content);
        if at == k {
            assert(content_of(mid, log) == content_of(before, log) + content);
        } else if touches(steps[at], log) {
            assert(content_of(mid, log) == content_of(before, log));
        } else {
            lemma_one_step_keeps(before, steps[at], succeeded, mid, log);
        }
    }
}

/// The log after one call: a call that succeeds appends the line of the event, and one that does
/// not takes nothing away. No other file is touched.
pub proof fn log_is_appended_to_or_kept(
    path: std::path::PathBuf,
    e: PlanEvent,
    before: Disk,
    after: Disk,
    finished: bool,
)
    requires
        leads_to(before, log_call(path, e), 0, after, finished),
    ensures
        finished ==> has_four_digit_year(e.ts) && content_of(after, path) == content_of(
            before,
            path,
        ) + compact_json(event_json(e)).push('\n'),
        content_of(before, path).is_prefix_of(content_of(after, path)),
        forall|q: std::path::PathBuf|
            q != path ==> #[trigger] file_of(after, q) == file_of(before, q),
{
    let steps = log_call(path, e);
    let line = compact_json(event_json(e)).push('\n');
    lemma_log_grows(before, steps, 0, after, finished, path);
    assert forall|q: std::path::PathBuf| q != path implies #[trigger] file_of(after, q) == file_of(
        before,
        q,
    ) by {
        lemma_untouched_files_are_kept(before, steps, 0, after, finished, q);
    }
    if finished {
        if has_four_digit_year(e.ts) {
            let mid = lemma_finished_steps_reach(before, steps, 0, 4, after);
            lemma_passed_steps_append(before, steps, 0, 4, mid, path, 2, line);
        } else {
            let (mid, s) = lemma_first(before, steps, 0, after, true);
            let (last, t) = lemma_first(mid, steps, 1, after, true);
        }
    }
}

/// Where the steps of an emission that write to the log end.
pub open spec fn log_steps_end(c: Emitter, e: PlanEvent) -> int {
    (print_steps(c, e).len() + log_steps(c, e).len()) as int
}

/// Whether an emission passed the steps that write to the log, whatever followed.
pub open spec fn passes_the_log(c: Emitter, e: PlanEvent, before: Disk, after: Disk) -> bool {
    exists|mid: Disk, finished: bool|
        {
            &&& reaches(before, emission(c, e), 0, log_steps_end(c, e), mid)
            &&& #[trigger] leads_to(mid, emission(c, e), log_steps_end(c, e), after, finished)
        }
}

/// An emission that finishes has passed the log.
pub proof fn finished_emissions_pass_the_log(c: Emitter, e: PlanEvent, before: Disk, after: Disk)
    requires
        has_four_digit_year(e.ts),
        leads_to(before, emission(c, e), 0, after, true),
    ensures
        passes_the_log(c, e, before, after),
{
    let mid = lemma_finished_steps_reach(before, emission(c, e), 0, log_steps_end(c, e), after);
    assert(leads_to(mid, emission(c, e), log_steps_end(c, e), after, true));
}

/// An event that has passed the log has its line there whatever follows: neither a plan state that
/// cannot be written nor a webhook that cannot be reached takes it away.
pub proof fn logged_events_stay(c: Emitter, e: PlanEvent, before: Disk, after: Disk)
    requires
        c.plan_events_path is Some,
        log_stands_alone(c),
        has_four_digit_year(e.ts),
        passes_the_log(c, e, before, after),
    ensures
        content_of(after, c.plan_events_path->0) == content_of(before, c.plan_events_path->0)
            + compact_json(event_json(e)).push('\n'),
{
    let log = c.plan_events_path->0;
    let steps = emission(c, e);
    let end = log_steps_end(c, e);
    let n = print_steps(c, e).len() as int;
    let line = compact_json(event_json(e)).push('\n');
    let (mid, finished) = choose|mid: Disk, finished: bool|
        {
            &&& reaches(before, emission(c, e), 0, log_steps_end(c, e), mid)
            &&& #[trigger] leads_to(mid, emission(c, e), log_steps_end(c, e), after, finished)
        };
    assert(log_steps(c, e).len() == 4);
    assert forall|i: int| 0 <= i < steps.len() && touches(#[trigger] steps[i], log) implies n <= i
        < end && (steps[i] is OpenLog || steps[i] is FlushLog || i == n + 2) by {
        lemma_emission_parts(c, e, i);
    }
    lemma_emission_parts(c, e, n + 2);
    lemma_passed_steps_append(before, steps, 0, end, mid, log, n + 2, line);
    lemma_untouched_files_are_kept(mid, steps, end, after, finished, log);
}

/// Where the last line of a text starts.
pub open spec fn line_start(text: Seq<char>) -> int
    decreases text.len(),
{
    if text.len() == 0 || text.last() == '\n' {
        text.len() as int
    } else {
        line_start(text.drop_last())
    }
}

/// The lines of a text, each without the break that ends it.
pub open spec fn lines(text: Seq<char>) -> Seq<Seq<char>>
    decreases text.len(),
{
    if text.len() == 0 {
        Seq::empty()
    } else {
        let body = if text.last() == '\n' {
            text.drop_last()
        } else {
            text
        };
        let k = line_start(body);
        proof {
            lemma_line_start_bound(body);
        }
        lines(body.take(k)).push(body.skip(k))
    }
}

/// A line starts within its text, and before its end unless it is empty.
pub proof fn lemma_line_start_bound(text: Seq<char>)
    ensures
        0 <= line_start(text) <= text.len(),
        text.len() > 0 && text.last() != '\n' ==> line_start(text) < text.len(),
    decreases text.len(),
{
    if text.len() > 0 && text.last() != '\n' {
        lemma_line_start_bound(text.drop_last());
    }
}

/// A line that is appended to whole lines starts where it was appended.
proof fn lemma_line_start(old: Seq<char>, line: Seq<char>)
    requires
        old.len() == 0 || old.last() == '\n',
        !line.contains('\n'),
    ensures
        line_start(old + line) == old.len(),
    decreases line.len(),
{
    let text = old + line;
    if line.len() == 0 {
        assert(text =~= old);
    } else {
        assert(text.last() == line[line.len() - 1]);
        assert(line.contains(line[line.len() - 1]));
        let shorter = line.drop_last();
        assert(!shorter.contains('\n')) by {
            if shorter.contains('\n') {
                let i = choose|i: int| 0 <= i < shorter.len() && shorter[i] == '\n';
                assert(line[i] == '\n');
            }
        }
        assert(text.drop_last() =~= old + shorter);
        lemma_line_start(old, shorter);
    }
}

/// After a series of events that passed the log, by themselves or in an emission that may have
/// failed later, a log that was missing holds exactly one line for each of them, in order, each
/// ended by a line break; line `i` reads back as event `i` and no other. Equal events are not
/// merged. `befores[i]` and `afters[i]` are the files before and after event `i`, and `logs[i]` is
/// what the log holds before it: nobody else writes there.
pub proof fn log_holds_one_line_for_each_event(
    c: Emitter,
    events: Seq<PlanEvent>,
    befores: Seq<Disk>,
    afters: Seq<Disk>,
    logs: Seq<Seq<char>>,
)
    requires
        c.plan_events_path is Some,
        log_stands_alone(c),
        befores.len() == events.len(),
        afters.len() == events.len(),
        logs.len() == events.len() + 1,
        logs[0] == Seq::<char>::empty(),
        forall|i: int|
            0 <= i < events.len() ==> {
                let log = c.plan_events_path->0;
                &&& has_four_digit_year((#[trigger] events[i]).ts)
                &&& carries(log_call(log, events[i]), event_json(events[i]))
                &&& leads_to(befores[i], log_call(log, events[i]), 0, afters[i], true)
                    || passes_the_log(c, events[i], befores[i], afters[i])
                &&& content_of(befores[i], log) == logs[i]
                &&& content_of(afters[i], log) == logs[i + 1]
            },
    ensures
        ({
            let text = logs.last();
            &&& events.len() > 0 ==> text.len() > 0 && text.last() == '\n'
            &&& lines(text).len() == events.len()
            &&& forall|i: int|
                0 <= i < events.len() ==> {
                    &&& #[trigger] lines(text)[i] == compact_json(event_json(events[i]))
                    &&& read_json(lines(text)[i]) == Some(event_json(events[i]))
                    &&& forall|e: PlanEvent|
                        has_four_digit_year(e.ts) && read_json(lines(text)[i]) == Some(
                            #[trigger] event_json(e),
                        ) ==> e == events[i]
                }
        }),
    decreases events.len(),
{
    if events.len() > 0 {
        let log = c.plan_events_path->0;
        let n = events.len() - 1;
        let e = events[n];
        let fewer = events.drop_last();
        assert forall|i: int| 0 <= i < fewer.len() implies {
            &&& has_four_digit_year((#[trigger] fewer[i]).ts)
            &&& carries(log_call(log, fewer[i]), event_json(fewer[i]))
            &&& leads_to(
                befores.drop_last()[i],
                log_call(log, fewer[i]),
                0,
                afters.drop_last()[i],
                true,
            ) || passes_the_log(c, fewer[i], befores.drop_last()[i], afters.drop_last()[i])
            &&& content_of(befores.drop_last()[i], log) == logs.drop_last()[i]
            &&& content_of(afters.drop_last()[i], log) == logs.drop_last()[i + 1]
        } by {
            assert(fewer[i] == events[i]);
        }
        log_holds_one_line_for_each_event(
            c,
            fewer,
            befores.drop_last(),
            afters.drop_last(),
            logs.drop_last(),
        );
        let old = logs[n];
        let text = logs[n + 1];
        let line = compact_json(event_json(e));
        if leads_to(befores[n], log_call(log, e), 0, afters[n], true) {
            log_is_appended_to_or_kept(log, e, befores[n], afters[n], true);
        } else {
            logged_events_stay(c, e, befores[n], afters[n]);
        }
        let steps = log_call(log, e);
        assert(steps[2] == StepModel::WriteLog(log, line.push('\n')));
        assert(line.push('\n').drop_last() =~= line);
        assert(payload(steps[2]) == Some(line));
        assert(text.drop_last() =~= old + line);
        lemma_line_start(old, line);
        assert((old + line).take(old.len() as int) =~= old);
        assert((old + line).skip(old.len() as int) =~= line);
        assert(lines(text) == lines(old).push(line));
        assert forall|i: int| 0 <= i < events.len() implies {
            &&& #[trigger] lines(text)[i] == compact_json(event_json(events[i]))
            &&& read_json(lines(text)[i]) == Some(event_json(events[i]))
            &&& forall|other: PlanEvent|
                has_four_digit_year(other.ts) && read_json(lines(text)[i]) == Some(
                    #[trigger] event_json(other),
                ) ==> other == events[i]
        } by {
            if i < n {
                assert(lines(text)[i] == lines(old)[i]);
                assert(fewer[i] == events[i]);
            }
            assert forall|other: PlanEvent|
                has_four_digit_year(other.ts) && read_json(lines(text)[i]) == Some(
                    #[trigger] event_json(other),
                ) implies other == events[i] by {
                event_json_is_faithful(other, events[i]);
            }
        }
    }
}

} // verus!
