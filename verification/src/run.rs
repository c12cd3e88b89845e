//! The course of a run, from its arguments to its end.

use vstd::prelude::*;

use crate::failure::Failure;
use crate::plan_emitter::{resumed_sequence, PlanEmitter, SequenceFile};
use crate::step::{models, Step, StepModel};
use crate::text::same;

verus! {

/// What the course of a run depends on.
#[derive(Debug, Clone, Copy, PartialEq, Eq, Structural)]
pub struct RunFlags {
    pub oss: bool,
    pub skip_git_repo_check: bool,
    pub has_images: bool,
}

/// What a run does next.
#[derive(Debug, Clone, Copy, PartialEq, Eq, Structural)]
pub enum Phase {
    /// Read the settings that the command line imposes.
    ParseOverrides,
    LoadConfig,
    /// Make sure that the local model is there.
    PrepareOss,
    CreateEmitter,
    PrintSummary,
    /// See whether the working directory lies in a repository.
    CheckRepository,
    StartConversation,
    LoadSequence,
    CreatePlanDirectories,
    StartEventLoop,
    SendImages,
    /// Wait until the agent is done with the images.
    AwaitImages,
    SendPrompt,
    /// Process events until the task is complete.
    ProcessEvents,
    Done,
    /// Say what is wrong and leave with a status.
    Exit(RunError),
    /// Hand the error of the last phase to the caller.
    Failed,
}

/// Why a run leaves by itself.
#[derive(Debug, Clone, Copy, PartialEq, Eq, Structural)]
pub enum RunError {
    InvalidOverrides,
    UntrustedDirectory,
}

/// What follows a phase, given whether it succeeded. A local model is prepared only where one is
/// used, the repository is looked for unless that is waived, and images are sent only where there
/// are any. Making the emitter, printing and starting the loop cannot fail, and a wait that ends
/// early counts as over.
pub open spec fn following_phase(phase: Phase, flags: RunFlags, succeeded: bool) -> Phase {
    match phase {
        Phase::ParseOverrides => if succeeded {
            Phase::LoadConfig
        } else {
            Phase::Exit(RunError::InvalidOverrides)
        },
        Phase::LoadConfig => if !succeeded {
            Phase::Failed
        } else if flags.oss {
            Phase::PrepareOss
        } else {
            Phase::CreateEmitter
        },
        Phase::PrepareOss => if succeeded {
            Phase::CreateEmitter
        } else {
            Phase::Failed
        },
        Phase::CreateEmitter => Phase::PrintSummary,
        Phase::PrintSummary => if flags.skip_git_repo_check {
            Phase::StartConversation
        } else {
            Phase::CheckRepository
        },
        Phase::CheckRepository => if succeeded {
            Phase::StartConversation
        } else {
            Phase::Exit(RunError::UntrustedDirectory)
        },
        Phase::StartConversation => if succeeded {
            Phase::LoadSequence
        } else {
            Phase::Failed
        },
        Phase::LoadSequence => if succeeded {
            Phase::CreatePlanDirectories
        } else {
            Phase::Failed
        },
        Phase::CreatePlanDirectories => if succeeded {
            Phase::StartEventLoop
        } else {
            Phase::Failed
        },
        Phase::StartEventLoop => if flags.has_images {
            Phase::SendImages
        } else {
            Phase::SendPrompt
        },
        Phase::SendImages => if succeeded {
            Phase::AwaitImages
        } else {
            Phase::Failed
        },
        Phase::AwaitImages => Phase::SendPrompt,
        Phase::SendPrompt => if succeeded {
            Phase::ProcessEvents
        } else {
            Phase::Failed
        },
        Phase::ProcessEvents => if succeeded {
            Phase::Done
        } else {
            Phase::Failed
        },
        Phase::Done => Phase::Done,
        Phase::Exit(e) => Phase::Exit(e),
        Phase::Failed => Phase::Failed,
    }
}

/// Decides what follows a phase.
pub fn next_phase(phase: Phase, flags: RunFlags, succeeded: bool) -> (r: Phase)
    ensures
        r == following_phase(phase, flags, succeeded),
{
    match phase {
        Phase::ParseOverrides => if succeeded {
            Phase::LoadConfig
        } else {
            Phase::Exit(RunError::InvalidOverrides)
        },
        Phase::LoadConfig => if !succeeded {
            Phase::Failed
        } else if flags.oss {
            Phase::PrepareOss
        } else {
            Phase::CreateEmitter
        },
        Phase::PrepareOss => if succeeded {
            Phase::CreateEmitter
        } else {
            Phase::Failed
        },
        Phase::CreateEmitter => Phase::PrintSummary,
        Phase::PrintSummary => if flags.skip_git_repo_check {
            Phase::StartConversation
        } else {
            Phase::CheckRepository
        },
        Phase::CheckRepository => if succeeded {
            Phase::StartConversation
        } else {
            Phase::Exit(RunError::UntrustedDirectory)
        },
        Phase::StartConversation => if succeeded {
            Phase::LoadSequence
        } else {
            Phase::Failed
        },
        Phase::LoadSequence => if succeeded {
            Phase::CreatePlanDirectories
        } else {
            Phase::Failed
        },
        Phase::CreatePlanDirectories => if succeeded {
            Phase::StartEventLoop
        } else {
            Phase::Failed
        },
        Phase::StartEventLoop => if flags.has_images {
            Phase::SendImages
        } else {
            Phase::SendPrompt
        },
        Phase::SendImages => if succeeded {
            Phase::AwaitImages
        } else {
            Phase::Failed
        },
        Phase::AwaitImages => Phase::SendPrompt,
        Phase::SendPrompt => if succeeded {
            Phase::ProcessEvents
        } else {
            Phase::Failed
        },
        Phase::ProcessEvents => if succeeded {
            Phase::Done
        } else {
            Phase::Failed
        },
        Phase::Done => Phase::Done,
        Phase::Exit(e) => Phase::Exit(e),
        Phase::Failed => Phase::Failed,
    }
}

/// What is said on leaving. `cause` is what the reader of the settings said.
pub open spec fn exit_text(e: RunError, cause: Seq<char>) -> Seq<char> {
    match e {
        RunError::InvalidOverrides => "Error parsing -c overrides: "@ + cause,
        RunError::UntrustedDirectory =>
            "Not inside a trusted directory and --skip-git-repo-check was not specified."@,
    }
}

impl RunError {
    /// What is said on leaving.
    pub fn message(self, cause: &str) -> (r: String)
        ensures
            r@ == exit_text(self, cause@),
    {
        match self {
            RunError::InvalidOverrides => crate::text::join("Error parsing -c overrides: ", cause),
            RunError::UntrustedDirectory =>
                "Not inside a trusted directory and --skip-git-repo-check was not specified.".to_owned(),
        }
    }
}

/// The number with which a run starts: that of its emitter, and one where there is no emitter or
/// it cannot tell. A run does not start where no number is left.
pub open spec fn initial_sequence(
    emitter: Option<PlanEmitter>,
    file: SequenceFile,
) -> Result<int, Failure> {
    match emitter {
        Some(e) => match resumed_sequence(e@, file) {
            Ok(n) => Ok(n),
            Err(Failure::SequenceExhausted) => Err(Failure::SequenceExhausted),
            Err(_) => Ok(1),
        },
        None => Ok(1),
    }
}

/// The number with which a run starts.
pub fn start_sequence(emitter: &Option<PlanEmitter>, file: SequenceFile) -> (r: Result<
    u64,
    Failure,
>)
    ensures
        match r {
            Ok(n) => initial_sequence(*emitter, file) == Ok::<int, Failure>(n as int),
            Err(failure) => initial_sequence(*emitter, file) == Err::<int, Failure>(failure),
        },
        emitter matches Some(e) ==> e@.plan_state_path is Some ==> (
        file matches SequenceFile::Record(meta) ==> meta.last_seq < u64::MAX ==> r == Ok::<
            u64,
            Failure,
        >((meta.last_seq + 1) as u64)),
{
    match emitter {
        Some(e) => match e.load_sequence(file) {
            Ok(n) => Ok(n),
            Err(Failure::SequenceExhausted) => Err(Failure::SequenceExhausted),
            Err(_) => Ok(1),
        },
        None => Ok(1),
    }
}

/// The step that makes room for a file, where there is one.
pub open spec fn room_for(path: Option<std::path::PathBuf>) -> Seq<StepModel> {
    match path {
        Some(p) => seq![StepModel::CreateParent(p)],
        None => Seq::empty(),
    }
}

/// Lists the steps that make room for the log and for the plan state.
pub fn prepare_directories(
    events: &Option<std::path::PathBuf>,
    state: &Option<std::path::PathBuf>,
) -> (r: Vec<Step>)
    ensures
        models(r@) == room_for(*events) + room_for(*state),
{
    let mut r: Vec<Step> = Vec::new();
    if let Some(path) = events {
        r.push(Step::CreateParent(path.clone()));
    }
    if let Some(path) = state {
        r.push(Step::CreateParent(path.clone()));
    }
    proof {
        assert(models(r@) =~= room_for(*events) + room_for(*state));
    }
    r
}

/// Whether an event ends the wait for the images.
pub open spec fn completes_images(
    event_id: Seq<char>,
    is_task_complete: bool,
    images_id: Seq<char>,
) -> bool {
    event_id == images_id && is_task_complete
}

/// Tells whether an event ends the wait for the images: it completes a task, and bears the
/// identifier under which the images were sent.
pub fn ends_image_turn(event_id: &str, is_task_complete: bool, images_id: &str) -> (r: bool)
    ensures
        r == (event_id@ == images_id@ && is_task_complete),
        r == completes_images(event_id@, is_task_complete, images_id@),
{
    same(event_id, images_id) && is_task_complete
}

/// How far a run has come, as whoever shows its events sees it.
#[derive(Debug, Clone, Copy, PartialEq, Eq, Structural)]
pub enum CodexStatus {
    Running,
    InitiateShutdown,
    Shutdown,
}

/// What is done after an event was shown.
#[derive(Debug, Clone, Copy, PartialEq, Eq, Structural)]
pub enum AfterEvent {
    Continue,
    /// Ask the agent to shut down, and go on.
    RequestShutdown,
    Leave,
}

/// What is done after an event was shown, given how far the run has come.
pub open spec fn reaction(status: CodexStatus) -> AfterEvent {
    match status {
        CodexStatus::Running => AfterEvent::Continue,
        CodexStatus::InitiateShutdown => AfterEvent::RequestShutdown,
        CodexStatus::Shutdown => AfterEvent::Leave,
    }
}

/// Decides what is done after an event was shown.
pub fn after_event(status: CodexStatus) -> (r: AfterEvent)
    ensures
        r == reaction(status),
        r == match status {
            CodexStatus::Running => AfterEvent::Continue,
            CodexStatus::InitiateShutdown => AfterEvent::RequestShutdown,
            CodexStatus::Shutdown => AfterEvent::Leave,
        },
{
    match status {
        CodexStatus::Running => AfterEvent::Continue,
        CodexStatus::InitiateShutdown => AfterEvent::RequestShutdown,
        CodexStatus::Shutdown => AfterEvent::Leave,
    }
}

/// The phase that a run is in after as many phases as there are results.
pub open spec fn phase_after(flags: RunFlags, results: Seq<bool>) -> Phase
    decreases results.len(),
{
    if results.len() == 0 {
        Phase::ParseOverrides
    } else {
        following_phase(phase_after(flags, results.drop_last()), flags, results.last())
    }
}

/// How far a phase is from the start.
pub open spec fn rank(phase: Phase) -> nat {
    match phase {
        Phase::ParseOverrides => 0,
        Phase::LoadConfig => 1,
        Phase::PrepareOss => 2,
        Phase::CreateEmitter => 3,
        Phase::PrintSummary => 4,
        Phase::CheckRepository => 5,
        Phase::StartConversation => 6,
        Phase::LoadSequence => 7,
        Phase::CreatePlanDirectories => 8,
        Phase::StartEventLoop => 9,
        Phase::SendImages => 10,
        Phase::AwaitImages => 11,
        Phase::SendPrompt => 12,
        Phase::ProcessEvents => 13,
        Phase::Done => 14,
        Phase::Exit(e) => 14,
        Phase::Failed => 14,
    }
}

/// Whether a run passed through the phase `phase` with success.
pub open spec fn passed(flags: RunFlags, results: Seq<bool>, phase: Phase) -> bool {
    exists|i: int|
        0 <= i < results.len() && phase_after(flags, #[trigger] results.take(i)) == phase
            && results[i]
}

/// Every run ends: no phase is entered twice, and the end is reached after fourteen phases at
/// most.
pub proof fn runs_end(flags: RunFlags, results: Seq<bool>)
    ensures
        rank(phase_after(flags, results)) >= results.len() || rank(phase_after(flags, results))
            == 14,
    decreases results.len(),
{
    if results.len() > 0 {
        runs_end(flags, results.drop_last());
    }
}

/// No agent is started outside a repository, unless the check was waived.
pub proof fn agents_start_in_a_repository(flags: RunFlags, results: Seq<bool>)
    requires
        !flags.skip_git_repo_check,
        6 <= rank(phase_after(flags, results)) <= 13,
    ensures
        passed(flags, results, Phase::CheckRepository),
    decreases results.len(),
{
    let n = results.len() as int;
    if n > 0 {
        let before = results.drop_last();
        assert(results.take(n - 1) =~= before);
        if 6 <= rank(phase_after(flags, before)) <= 13 {
            agents_start_in_a_repository(flags, before);
            let i = choose|i: int|
                0 <= i < before.len() && phase_after(flags, #[trigger] before.take(i))
                    == Phase::CheckRepository && before[i];
            assert(results.take(i) =~= before.take(i));
        } else {
            assert(phase_after(flags, results.take(n - 1)) == Phase::CheckRepository);
            assert(results[n - 1]);
        }
    }
}

/// The number with which a run starts: the one after the recorded number wherever a plan state is
/// kept, whatever the other destinations are, and one where there is nothing to go on from or it
/// cannot be read. Only where the record is the largest number a run does not start.
pub proof fn runs_go_on_after_their_record(emitter: Option<PlanEmitter>, file: SequenceFile)
    ensures
        emitter is None ==> initial_sequence(emitter, file) == Ok::<int, Failure>(1),
        emitter matches Some(e) ==> {
            &&& e@.plan_state_path is None ==> initial_sequence(emitter, file) == Ok::<int, Failure>(
                1,
            )
            &&& !(file is Record) ==> initial_sequence(emitter, file) == Ok::<int, Failure>(1)
            &&& e@.plan_state_path is Some ==> (file matches SequenceFile::Record(meta) ==> {
                &&& meta.last_seq < u64::MAX ==> initial_sequence(emitter, file) == Ok::<
                    int,
                    Failure,
                >(meta.last_seq + 1)
                &&& meta.last_seq == u64::MAX ==> initial_sequence(emitter, file) == Err::<
                    int,
                    Failure,
                >(Failure::SequenceExhausted)
            })
        },
{
}

/// A phase that succeeds leads to the next one; local models are passed over where none is used,
/// the repository where the check is waived, and images where there are none.
pub proof fn phases_come_in_order(phase: Phase, flags: RunFlags)
    requires
        rank(phase) < 14,
    ensures
        ({
            let next = following_phase(phase, flags, true);
            &&& phase == Phase::ProcessEvents <==> next == Phase::Done
            &&& phase != Phase::ProcessEvents ==> rank(next) < 14
            &&& rank(next) - rank(phase) == if phase == Phase::LoadConfig && !flags.oss || phase
                == Phase::PrintSummary && flags.skip_git_repo_check {
                2int
            } else if phase == Phase::StartEventLoop && !flags.has_images {
                3
            } else {
                1
            }
        }),
        rank(Phase::ParseOverrides) == 0 && rank(Phase::LoadConfig) == 1,
        rank(Phase::PrepareOss) == 2 && rank(Phase::CreateEmitter) == 3,
        rank(Phase::PrintSummary) == 4 && rank(Phase::CheckRepository) == 5,
        rank(Phase::StartConversation) == 6 && rank(Phase::LoadSequence) == 7,
        rank(Phase::CreatePlanDirectories) == 8 && rank(Phase::StartEventLoop) == 9,
        rank(Phase::SendImages) == 10 && rank(Phase::AwaitImages) == 11,
        rank(Phase::SendPrompt) == 12 && rank(Phase::ProcessEvents) == 13,
{
}

/// A phase that does not succeed ends the run, with words of its own for bad settings and a missing
/// repository, but for the four that count as over all the same. What has ended stays so.
pub proof fn failed_phases_end_the_run(phase: Phase, flags: RunFlags, succeeded: bool)
    ensures
        ({
            let next = following_phase(phase, flags, false);
            if phase == Phase::CreateEmitter || phase == Phase::PrintSummary || phase
                == Phase::StartEventLoop || phase == Phase::AwaitImages {
                next == following_phase(phase, flags, true)
            } else if phase == Phase::ParseOverrides {
                next == Phase::Exit(RunError::InvalidOverrides)
            } else if phase == Phase::CheckRepository {
                next == Phase::Exit(RunError::UntrustedDirectory)
            } else if rank(phase) < 14 {
                next == Phase::Failed
            } else {
                next == phase
            }
        }),
        phase is Done || phase is Exit || phase is Failed <==> rank(phase) == 14,
        rank(phase) == 14 ==> following_phase(phase, flags, succeeded) == phase,
{
}

/// What is said on leaving.
pub proof fn exits_have_their_words(cause: Seq<char>)
    ensures
        exit_text(RunError::InvalidOverrides, cause) == "Error parsing -c overrides: "@ + cause,
        exit_text(RunError::UntrustedDirectory, cause)
            == "Not inside a trusted directory and --skip-git-repo-check was not specified."@,
{
}

/// Room is made for exactly the files that there are.
pub proof fn room_is_made_for_files(path: Option<std::path::PathBuf>)
    ensures
        path is None ==> room_for(path).len() == 0,
        path matches Some(p) ==> room_for(path).len() == 1 && room_for(path)[0]
            == StepModel::CreateParent(p),
{
}

/// Images are waited for until their own task is complete, a run asks for a shutdown exactly where
/// whoever shows its events says so, and is left exactly where it is shut down.
pub proof fn runs_wait_for_their_tasks(
    event_id: Seq<char>,
    is_task_complete: bool,
    images_id: Seq<char>,
    status: CodexStatus,
)
    ensures
        completes_images(event_id, is_task_complete, images_id) <==> is_task_complete && event_id
            == images_id,
        reaction(status) == AfterEvent::Continue <==> status == CodexStatus::Running,
        reaction(status) == AfterEvent::RequestShutdown <==> status == CodexStatus::InitiateShutdown,
        reaction(status) == AfterEvent::Leave <==> status == CodexStatus::Shutdown,
{
}

} // verus!
