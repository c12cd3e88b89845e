//! The steps by which events are printed, recorded and delivered, and the order they keep.

use vstd::prelude::*;

use crate::failure::Failure;
use crate::outside::{extended_path, with_extension};
use crate::webhook::{Request, WebhookRequest};

verus! {

/// The name of the sequence record, which lies beside the plan state.
pub const SEQUENCE_FILE_NAME: &'static str = "plan.meta.json";

/// The extension that a file has until it is complete.
pub const TEMP_EXTENSION: &'static str = "tmp";

/// One thing to do.
#[derive(Debug)]
pub enum Step {
    /// Print a line.
    Print { to_stderr: bool, line: String },
    /// Create the directory of a file, and those above it, where it has one.
    CreateParent(std::path::PathBuf),
    /// Open a log for appending, creating it where it is missing.
    OpenLog(std::path::PathBuf),
    /// Append to a log, in one write.
    WriteLog(std::path::PathBuf, String),
    /// Flush and close a log.
    FlushLog(std::path::PathBuf),
    /// Create a temporary file, or empty it.
    CreateTemp(std::path::PathBuf),
    WriteTemp(std::path::PathBuf, String),
    FlushTemp(std::path::PathBuf),
    /// Bring a temporary file to the disk.
    SyncTemp(std::path::PathBuf),
    CloseTemp(std::path::PathBuf),
    /// Let a temporary file take the place of another file.
    RenameTemp { from: std::path::PathBuf, to: std::path::PathBuf },
    /// Bring the directory of a file to the disk, as far as that is possible.
    SyncParent(std::path::PathBuf),
    /// Make an HTTP client.
    CreateClient,
    /// Deliver a request, with retries.
    Deliver(WebhookRequest),
    /// Stop with a failure.
    Fail(Failure),
}

/// The mathematical counterpart of [`Step`].
pub enum StepModel {
    Print { to_stderr: bool, line: Seq<char> },
    CreateParent(std::path::PathBuf),
    OpenLog(std::path::PathBuf),
    WriteLog(std::path::PathBuf, Seq<char>),
    FlushLog(std::path::PathBuf),
    CreateTemp(std::path::PathBuf),
    WriteTemp(std::path::PathBuf, Seq<char>),
    FlushTemp(std::path::PathBuf),
    SyncTemp(std::path::PathBuf),
    CloseTemp(std::path::PathBuf),
    RenameTemp { from: std::path::PathBuf, to: std::path::PathBuf },
    SyncParent(std::path::PathBuf),
    CreateClient,
    Deliver(Request),
    Fail(Failure),
}

impl View for Step {
    type V = StepModel;

    open spec fn view(&self) -> StepModel {
        match *self {
            Step::Print { to_stderr, line } => StepModel::Print { to_stderr, line: line@ },
            Step::CreateParent(path) => StepModel::CreateParent(path),
            Step::OpenLog(path) => StepModel::OpenLog(path),
            Step::WriteLog(path, content) => StepModel::WriteLog(path, content@),
            Step::FlushLog(path) => StepModel::FlushLog(path),
            Step::CreateTemp(path) => StepModel::CreateTemp(path),
            Step::WriteTemp(path, content) => StepModel::WriteTemp(path, content@),
            Step::FlushTemp(path) => StepModel::FlushTemp(path),
            Step::SyncTemp(path) => StepModel::SyncTemp(path),
            Step::CloseTemp(path) => StepModel::CloseTemp(path),
            Step::RenameTemp { from, to } => StepModel::RenameTemp { from, to },
            Step::SyncParent(path) => StepModel::SyncParent(path),
            Step::CreateClient => StepModel::CreateClient,
            Step::Deliver(request) => StepModel::Deliver(request@),
            Step::Fail(failure) => StepModel::Fail(failure),
        }
    }
}

/// The counterparts of a list of steps.
pub open spec fn models(steps: Seq<Step>) -> Seq<StepModel> {
    steps.map_values(|s: Step| s@)
}

/// The failure that a step reports when it does not succeed. Nothing comes of a failure to print,
/// to close a file, or to bring a directory to the disk.
pub open spec fn step_failure(step: StepModel) -> Option<Failure> {
    match step {
        StepModel::Print { .. } => None,
        StepModel::CreateParent(_) => Some(Failure::CreateDirectory),
        StepModel::OpenLog(_) => Some(Failure::OpenLog),
        StepModel::WriteLog(..) => Some(Failure::WriteLog),
        StepModel::FlushLog(_) => Some(Failure::FlushLog),
        StepModel::CreateTemp(_) => Some(Failure::CreateTemp),
        StepModel::WriteTemp(..) => Some(Failure::WriteTemp),
        StepModel::FlushTemp(_) => Some(Failure::FlushTemp),
        StepModel::SyncTemp(_) => Some(Failure::SyncTemp),
        StepModel::CloseTemp(_) => None,
        StepModel::RenameTemp { .. } => Some(Failure::RenameTemp),
        StepModel::SyncParent(_) => None,
        StepModel::CreateClient => Some(Failure::CreateClient),
        StepModel::Deliver(_) => Some(Failure::DeliverWebhook),
        StepModel::Fail(failure) => Some(failure),
    }
}

/// Whether the steps after this one are taken, given whether it succeeded.
pub open spec fn passes(step: StepModel, succeeded: bool) -> bool {
    ||| step_failure(step) is None
    ||| succeeded && !(step is Fail)
}

/// What is to be done after a step.
#[derive(Debug, Clone, Copy, PartialEq, Eq, Structural)]
pub enum Progress {
    /// Take the step at this place.
    Perform(usize),
    /// All is done.
    Finished,
    /// Nothing more is to be done.
    Failed(Failure),
}

impl Step {
    /// The failure that the step reports when it does not succeed.
    pub fn failure(&self) -> (r: Option<Failure>)
        ensures
            r == step_failure(self@),
    {
        match self {
            Step::Print { .. } => None,
            Step::CreateParent(_) => Some(Failure::CreateDirectory),
            Step::OpenLog(_) => Some(Failure::OpenLog),
            Step::WriteLog(_, _) => Some(Failure::WriteLog),
            Step::FlushLog(_) => Some(Failure::FlushLog),
            Step::CreateTemp(_) => Some(Failure::CreateTemp),
            Step::WriteTemp(_, _) => Some(Failure::WriteTemp),
            Step::FlushTemp(_) => Some(Failure::FlushTemp),
            Step::SyncTemp(_) => Some(Failure::SyncTemp),
            Step::CloseTemp(_) => None,
            Step::RenameTemp { .. } => Some(Failure::RenameTemp),
            Step::SyncParent(_) => None,
            Step::CreateClient => Some(Failure::CreateClient),
            Step::Deliver(_) => Some(Failure::DeliverWebhook),
            Step::Fail(failure) => Some(*failure),
        }
    }
}

/// Where a list of steps starts.
pub open spec fn first_progress(steps: Seq<StepModel>) -> Progress {
    if steps.len() == 0 {
        Progress::Finished
    } else {
        Progress::Perform(0)
    }
}

/// Tells where a list of steps starts.
pub fn first_step(steps: &Vec<Step>) -> (r: Progress)
    ensures
        r == first_progress(models(steps@)),
{
    if steps.len() == 0 {
        Progress::Finished
    } else {
        Progress::Perform(0)
    }
}

/// What follows a step: the next one where it passes, and otherwise its failure.
pub open spec fn next_progress(steps: Seq<StepModel>, at: int, succeeded: bool) -> Progress {
    if !passes(steps[at], succeeded) {
        Progress::Failed(step_failure(steps[at])->0)
    } else if at + 1 == steps.len() {
        Progress::Finished
    } else {
        Progress::Perform((at + 1) as usize)
    }
}

/// Decides what follows a step.
pub fn after_step(steps: &Vec<Step>, at: usize, succeeded: bool) -> (r: Progress)
    requires
        at < steps@.len(),
    ensures
        r == next_progress(models(steps@), at as int, succeeded),
{
    let n: usize = steps.len();
    let stops: bool = match &steps[at] {
        Step::Fail(_) => true,
        _ => !succeeded,
    };
    if stops {
        if let Some(failure) = steps[at].failure() {
            return Progress::Failed(failure);
        }
    }
    if at + 1 == n {
        Progress::Finished
    } else {
        Progress::Perform(at + 1)
    }
}

/// How a list of steps ends from the step `at` on, when step `i` succeeds as `results[i]` says.
pub open spec fn conclusion(steps: Seq<StepModel>, results: Seq<bool>, at: int) -> Progress
    decreases steps.len() - at,
{
    if at >= steps.len() {
        Progress::Finished
    } else if !passes(steps[at], results[at]) {
        Progress::Failed(step_failure(steps[at])->0)
    } else {
        conclusion(steps, results, at + 1)
    }
}

/// A list of steps finishes exactly when every step passes. Otherwise it ends with the failure of
/// the first step that does not.
pub proof fn first_failure_decides(steps: Seq<StepModel>, results: Seq<bool>, at: int)
    requires
        0 <= at <= steps.len(),
        results.len() == steps.len(),
    ensures
        match conclusion(steps, results, at) {
            Progress::Finished => forall|i: int|
                at <= i < steps.len() ==> passes(#[trigger] steps[i], results[i]),
            Progress::Failed(failure) => exists|k: int|
                {
                    &&& at <= k < steps.len()
                    &&& !passes(#[trigger] steps[k], results[k])
                    &&& step_failure(steps[k]) == Some(failure)
                    &&& forall|i: int| at <= i < k ==> passes(#[trigger] steps[i], results[i])
                },
            Progress::Perform(i) => false,
        },
    decreases steps.len() - at,
{
    if at < steps.len() {
        if passes(steps[at], results[at]) {
            first_failure_decides(steps, results, at + 1);
            if conclusion(steps, results, at) is Failed {
                let failure = conclusion(steps, results, at)->Failed_0;
                let k = choose|k: int|
                    {
                        &&& at + 1 <= k < steps.len()
                        &&& !passes(#[trigger] steps[k], results[k])
                        &&& step_failure(steps[k]) == Some(failure)
                        &&& forall|i: int|
                            at + 1 <= i < k ==> passes(#[trigger] steps[i], results[i])
                    };
                assert(!passes(steps[k], results[k]));
            }
        } else {
            assert(!passes(steps[at], results[at]));
        }
    }
}

/// What comes of a list of steps once it is driven on from here, when step `i` succeeds as
/// `results[i]` says.
pub open spec fn driven(
    steps: Seq<StepModel>,
    results: Seq<bool>,
    progress: Progress,
) -> Progress
    decreases
            match progress {
                Progress::Perform(at) => steps.len() - at + 1,
                _ => 0,
            },
{
    match progress {
        Progress::Perform(at) => if at < steps.len() <= usize::MAX {
            driven(steps, results, next_progress(steps, at as int, results[at as int]))
        } else {
            progress
        },
        _ => progress,
    }
}

/// Driving on from a step ends as the steps from it on do.
proof fn lemma_driving(steps: Seq<StepModel>, results: Seq<bool>, at: usize)
    requires
        at < steps.len() <= usize::MAX,
    ensures
        driven(steps, results, Progress::Perform(at)) == conclusion(steps, results, at as int),
    decreases steps.len() - at,
{
    reveal_with_fuel(conclusion, 2);
    reveal_with_fuel(driven, 2);
    if passes(steps[at as int], results[at as int]) && at + 1 < steps.len() {
        lemma_driving(steps, results, (at + 1) as usize);
    }
}

/// Whoever starts where a list of steps starts, and after each step does what is decided then, ends
/// where the list ends.
pub proof fn driving_reaches_the_conclusion(steps: Seq<StepModel>, results: Seq<bool>)
    requires
        steps.len() <= usize::MAX,
        results.len() == steps.len(),
    ensures
        driven(steps, results, first_progress(steps)) == conclusion(steps, results, 0),
{
    if steps.len() > 0 {
        lemma_driving(steps, results, 0);
    }
}

/// The temporary file of a file: it has the same name, with [`TEMP_EXTENSION`] for an extension.
pub open spec fn temp_path(path: std::path::PathBuf) -> std::path::PathBuf {
    extended_path(path, TEMP_EXTENSION@)
}

/// The steps that replace a file as a whole: it is written elsewhere, brought to the disk, and
/// only then takes its place.
pub open spec fn atomic_write(path: std::path::PathBuf, content: Seq<char>) -> Seq<StepModel> {
    let temp = temp_path(path);
    seq![
        StepModel::CreateTemp(temp),
        StepModel::WriteTemp(temp, content),
        StepModel::FlushTemp(temp),
        StepModel::SyncTemp(temp),
        StepModel::CloseTemp(temp),
        StepModel::RenameTemp { from: temp, to: path },
        StepModel::SyncParent(path),
    ]
}

/// Lists the steps that replace a file as a whole.
pub fn write_atomic(path: &std::path::PathBuf, content: String) -> (r: Vec<Step>)
    ensures
        models(r@) == atomic_write(*path, content@),
{
    proof {
        reveal_strlit("tmp");
    }
    let temp = with_extension(path, TEMP_EXTENSION);
    let mut r: Vec<Step> = Vec::new();
    r.push(Step::CreateTemp(temp.clone()));
    r.push(Step::WriteTemp(temp.clone(), content));
    r.push(Step::FlushTemp(temp.clone()));
    r.push(Step::SyncTemp(temp.clone()));
    r.push(Step::CloseTemp(temp.clone()));
    r.push(Step::RenameTemp { from: temp, to: path.clone() });
    r.push(Step::SyncParent(path.clone()));
    proof {
        assert(models(r@) =~= atomic_write(*path, content@));
    }
    r
}

/// Whether a file is replaced only by its temporary file, which was created, written, flushed and
/// brought to the disk just before, each step of which must have passed.
pub open spec fn replaces_atomically(steps: Seq<StepModel>) -> bool {
    forall|i: int|
        0 <= i < steps.len() ==> ((#[trigger] steps[i]) matches StepModel::RenameTemp { from, to }
            ==> {
            &&& from == temp_path(to)
            &&& i >= 5
            &&& steps[i - 5] == StepModel::CreateTemp(from)
            &&& steps[i - 4] is WriteTemp && steps[i - 4]->WriteTemp_0 == from
            &&& steps[i - 3] == StepModel::FlushTemp(from)
            &&& steps[i - 2] == StepModel::SyncTemp(from)
            &&& steps[i - 1] == StepModel::CloseTemp(from)
        })
}

/// Every step that does not succeed stops the list, but for printing, closing a file and bringing a
/// directory to the disk; every step that succeeds lets it go on, but for one that is a failure.
pub proof fn failures_stop_the_list(step: StepModel, succeeded: bool)
    ensures
        passes(step, succeeded) <==> {
            ||| step is Print || step is CloseTemp || step is SyncParent
            ||| succeeded && !(step is Fail)
        },
        step_failure(step) is None <==> step is Print || step is CloseTemp || step is SyncParent,
{
}

/// A failure names the step that did not succeed.
pub proof fn failures_name_their_step(step: StepModel)
    ensures
        step is CreateParent ==> step_failure(step) == Some(Failure::CreateDirectory),
        step is OpenLog ==> step_failure(step) == Some(Failure::OpenLog),
        step is WriteLog ==> step_failure(step) == Some(Failure::WriteLog),
        step is FlushLog ==> step_failure(step) == Some(Failure::FlushLog),
        step is CreateTemp ==> step_failure(step) == Some(Failure::CreateTemp),
        step is WriteTemp ==> step_failure(step) == Some(Failure::WriteTemp),
        step is FlushTemp ==> step_failure(step) == Some(Failure::FlushTemp),
        step is SyncTemp ==> step_failure(step) == Some(Failure::SyncTemp),
        step is RenameTemp ==> step_failure(step) == Some(Failure::RenameTemp),
        step is CreateClient ==> step_failure(step) == Some(Failure::CreateClient),
        step is Deliver ==> step_failure(step) == Some(Failure::DeliverWebhook),
        step matches StepModel::Fail(failure) ==> step_failure(step) == Some(failure),
{
}

/// A list of steps is taken in order from the first on, and is over after the last.
pub proof fn steps_are_taken_in_order(steps: Seq<StepModel>, at: int, succeeded: bool)
    requires
        0 <= at < steps.len() <= usize::MAX,
    ensures
        first_progress(steps) == Progress::Perform(0),
        first_progress(Seq::empty()) == Progress::Finished,
        match next_progress(steps, at, succeeded) {
            Progress::Perform(next) => next == at + 1 && next < steps.len(),
            Progress::Finished => at == steps.len() - 1,
            Progress::Failed(failure) => !succeeded || steps[at] is Fail,
        },
        succeeded && !(steps[at] is Fail) ==> !(next_progress(steps, at, succeeded) is Failed),
{
}

/// A file is written as a whole under the extension `tmp`, is brought to the disk before it takes
/// its place, and its directory is brought to the disk after.
pub proof fn whole_files_reach_the_disk(path: std::path::PathBuf, content: Seq<char>)
    ensures
        ({
            let steps = atomic_write(path, content);
            let temp = extended_path(path, "tmp"@);
            &&& steps.len() == 7
            &&& steps[0] == StepModel::CreateTemp(temp)
            &&& steps[1] == StepModel::WriteTemp(temp, content)
            &&& steps[2] == StepModel::FlushTemp(temp)
            &&& steps[3] == StepModel::SyncTemp(temp)
            &&& steps[4] == StepModel::CloseTemp(temp)
            &&& steps[5] == (StepModel::RenameTemp { from: temp, to: path })
            &&& steps[6] == StepModel::SyncParent(path)
        }),
{
}

/// Steps stand for what they say: the same act on the same file, with the same text.
pub proof fn steps_stand_for_what_they_say(steps: Seq<Step>, i: int)
    requires
        0 <= i < steps.len(),
    ensures
        models(steps).len() == steps.len(),
        models(steps)[i] == steps[i]@,
        steps[i] matches Step::Print { to_stderr, line } ==> steps[i]@ == (StepModel::Print {
            to_stderr,
            line: line@,
        }),
        steps[i] matches Step::CreateParent(p) ==> steps[i]@ == StepModel::CreateParent(p),
        steps[i] matches Step::OpenLog(p) ==> steps[i]@ == StepModel::OpenLog(p),
        steps[i] matches Step::WriteLog(p, t) ==> steps[i]@ == StepModel::WriteLog(p, t@),
        steps[i] matches Step::FlushLog(p) ==> steps[i]@ == StepModel::FlushLog(p),
        steps[i] matches Step::CreateTemp(p) ==> steps[i]@ == StepModel::CreateTemp(p),
        steps[i] matches Step::WriteTemp(p, t) ==> steps[i]@ == StepModel::WriteTemp(p, t@),
        steps[i] matches Step::FlushTemp(p) ==> steps[i]@ == StepModel::FlushTemp(p),
        steps[i] matches Step::SyncTemp(p) ==> steps[i]@ == StepModel::SyncTemp(p),
        steps[i] matches Step::CloseTemp(p) ==> steps[i]@ == StepModel::CloseTemp(p),
        steps[i] matches Step::RenameTemp { from, to } ==> steps[i]@ == (StepModel::RenameTemp {
            from,
            to,
        }),
        steps[i] matches Step::SyncParent(p) ==> steps[i]@ == StepModel::SyncParent(p),
        steps[i] is CreateClient ==> steps[i]@ == StepModel::CreateClient,
        steps[i] matches Step::Deliver(request) ==> steps[i]@ == StepModel::Deliver(request@),
        steps[i] matches Step::Fail(failure) ==> steps[i]@ == StepModel::Fail(failure),
{
}

} // verus!
