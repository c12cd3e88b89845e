//! The command line of a headless run, and what follows from it.

use vstd::prelude::*;

use crate::outside;
use crate::outside::{is_uuid_v4, url_scheme};
use crate::plan::{copy_optional, optional_text};
use crate::plan_emitter::{copy_path, Emitter, PlanEmitter};
use crate::policy::{AskForApproval, SandboxMode};
use crate::text::{blank, is_blank, is_white_space, join, same};

verus! {

/// The model that runs locally.
pub const DEFAULT_OSS_MODEL: &'static str = "gpt-oss:20b";

/// The provider of local models.
pub const BUILT_IN_OSS_MODEL_PROVIDER_ID: &'static str = "oss";

/// Whether output is coloured.
#[derive(Debug, Clone, Copy, PartialEq, Eq, Structural)]
pub enum Color {
    Always,
    Never,
    Auto,
}

impl Default for Color {
    fn default() -> (r: Self)
        ensures
            r == Color::Auto,
    {
        Color::Auto
    }
}

/// The arguments of a run.
#[derive(Debug)]
pub struct Cli {
    pub images: Vec<std::path::PathBuf>,
    pub model: Option<String>,
    pub oss: bool,
    pub sandbox_mode: Option<SandboxMode>,
    pub config_profile: Option<String>,
    pub full_auto: bool,
    pub dangerously_bypass_approvals_and_sandbox: bool,
    pub cwd: Option<std::path::PathBuf>,
    pub skip_git_repo_check: bool,
    pub config_overrides: Vec<String>,
    pub color: Color,
    pub json: bool,
    pub last_message_file: Option<std::path::PathBuf>,
    pub plan_webhook: Option<String>,
    pub webhook_secret: Option<String>,
    pub plan_events: Option<std::path::PathBuf>,
    pub plan_state: Option<std::path::PathBuf>,
    pub task_id: Option<String>,
    pub run_id: Option<String>,
    pub emit_plan_stdout: bool,
    pub include_plan_tool: bool,
    pub prompt: Option<String>,
}

/// The texts of a result.
pub open spec fn result_text(r: Result<String, String>) -> Result<Seq<char>, Seq<char>> {
    match r {
        Ok(t) => Ok(t@),
        Err(t) => Err(t@),
    }
}

/// What becomes of a webhook address, given the scheme that was found in it: it is taken as it
/// stands where the scheme is HTTP or HTTPS.
pub open spec fn checked_url(
    s: Seq<char>,
    parsed: Result<Seq<char>, Seq<char>>,
) -> Result<Seq<char>, Seq<char>> {
    match parsed {
        Err(message) => Err(message),
        Ok(scheme) => if scheme == "http"@ || scheme == "https"@ {
            Ok(s)
        } else {
            Err("URL must use http or https scheme"@)
        },
    }
}

/// Checks the scheme that was found in a webhook address.
pub fn check_scheme(s: &str, parsed: Result<String, String>) -> (r: Result<String, String>)
    ensures
        result_text(r) == checked_url(s@, result_text(parsed)),
{
    match parsed {
        Err(message) => Err(message),
        Ok(scheme) => if same(scheme.as_str(), "http") || same(scheme.as_str(), "https") {
            Ok(s.to_owned())
        } else {
            Err("URL must use http or https scheme".to_owned())
        },
    }
}

/// Checks a webhook address.
pub fn validate_url(s: &str) -> (r: Result<String, String>)
    ensures
        result_text(r) == checked_url(s@, url_scheme(s@)),
{
    check_scheme(s, outside::parse_url_scheme(s))
}

/// Where the prompt comes from.
#[derive(Debug)]
pub enum PromptSource {
    Given(String),
    /// Standard input, which a dash asks for expressly.
    Stdin { forced: bool },
}

/// Whether the prompt is read from standard input.
pub open spec fn reads_stdin(prompt: Option<Seq<char>>) -> bool {
    prompt is None || prompt == Some("-"@)
}

/// Decides where the prompt comes from.
pub fn choose_prompt(prompt: Option<String>) -> (r: PromptSource)
    ensures
        r is Stdin <==> reads_stdin(optional_text(prompt)),
        r matches PromptSource::Stdin { forced } ==> forced == (prompt is Some),
        match prompt {
            Some(p) => if p@ == "-"@ {
                r == (PromptSource::Stdin { forced: true })
            } else {
                r == PromptSource::Given(p)
            },
            None => r == (PromptSource::Stdin { forced: false }),
        },
{
    match prompt {
        Some(p) => if same(p.as_str(), "-") {
            PromptSource::Stdin { forced: true }
        } else {
            PromptSource::Given(p)
        },
        None => PromptSource::Stdin { forced: false },
    }
}

/// Why there is no prompt.
#[derive(Debug, Clone, Copy, PartialEq, Eq, Structural)]
pub enum PromptError {
    /// Nobody pipes anything in.
    Missing,
    /// Nothing was piped in.
    Empty,
}

/// What is said where there is no prompt.
pub open spec fn prompt_error_text(e: PromptError) -> Seq<char> {
    match e {
        PromptError::Missing =>
            "No prompt provided. Either specify one as an argument or pipe the prompt into stdin."@,
        PromptError::Empty => "No prompt provided via stdin."@,
    }
}

impl PromptError {
    /// What is said where there is no prompt.
    pub fn message(self) -> (r: &'static str)
        ensures
            r@ == prompt_error_text(self),
    {
        match self {
            PromptError::Missing =>
                "No prompt provided. Either specify one as an argument or pipe the prompt into stdin.",
            PromptError::Empty => "No prompt provided via stdin.",
        }
    }
}

/// Whether reading standard input is announced, where it is read at all.
pub open spec fn stdin_use(is_terminal: bool, forced: bool) -> Result<bool, PromptError> {
    if is_terminal && !forced {
        Err(PromptError::Missing)
    } else {
        Ok(!forced)
    }
}

/// Decides whether standard input is read, and whether that is announced first. A terminal is
/// read only where that was asked for expressly.
pub fn open_stdin(is_terminal: bool, forced: bool) -> (r: Result<bool, PromptError>)
    ensures
        r == stdin_use(is_terminal, forced),
        r == if is_terminal && !forced {
            Err::<bool, PromptError>(PromptError::Missing)
        } else {
            Ok(!forced)
        },
{
    if is_terminal && !forced {
        Err(PromptError::Missing)
    } else {
        Ok(!forced)
    }
}

/// Whether what was read from standard input is a prompt.
pub open spec fn is_prompt(s: Seq<char>) -> bool {
    !blank(s)
}

/// Takes what was read from standard input as the prompt, unless it is blank.
pub fn accept_stdin(buffer: String) -> (r: Result<String, PromptError>)
    ensures
        r is Ok <==> is_prompt(buffer@),
        r == if blank(buffer@) {
            Err::<String, PromptError>(PromptError::Empty)
        } else {
            Ok(buffer)
        },
{
    if is_blank(buffer.as_str()) {
        Err(PromptError::Empty)
    } else {
        Ok(buffer)
    }
}

/// Which of standard output and standard error are coloured.
pub open spec fn coloured(color: Color, stdout: bool, stderr: bool) -> (bool, bool) {
    match color {
        Color::Always => (true, true),
        Color::Never => (false, false),
        Color::Auto => (stdout, stderr),
    }
}

impl Color {
    /// Whether standard output and standard error are coloured, given which are terminals.
    pub fn with_ansi(self, stdout_is_terminal: bool, stderr_is_terminal: bool) -> (r: (bool, bool))
        ensures
            r == coloured(self, stdout_is_terminal, stderr_is_terminal),
            r == match self {
                Color::Always => (true, true),
                Color::Never => (false, false),
                Color::Auto => (stdout_is_terminal, stderr_is_terminal),
            },
    {
        match self {
            Color::Always => (true, true),
            Color::Never => (false, false),
            Color::Auto => (stdout_is_terminal, stderr_is_terminal),
        }
    }
}

/// The settings that the command line imposes on the configuration.
#[derive(Debug)]
pub struct ConfigOverrides {
    pub model: Option<String>,
    pub config_profile: Option<String>,
    pub approval_policy: Option<AskForApproval>,
    pub sandbox_mode: Option<SandboxMode>,
    pub cwd: Option<std::path::PathBuf>,
    pub model_provider: Option<String>,
    pub codex_linux_sandbox_exe: Option<std::path::PathBuf>,
    pub base_instructions: Option<String>,
    pub include_plan_tool: Option<bool>,
    pub disable_response_storage: Option<bool>,
    pub show_raw_agent_reasoning: Option<bool>,
}

/// When the user is asked: after a failure where the agent works on its own in a sandbox, and never
/// otherwise, for a headless run has nobody to ask.
pub open spec fn chosen_approval(cli: Cli) -> AskForApproval {
    if cli.full_auto {
        AskForApproval::OnFailure
    } else {
        AskForApproval::Never
    }
}

/// The provider that the command line asks for.
pub open spec fn chosen_provider(cli: Cli) -> Option<Seq<char>> {
    if cli.oss {
        Some(BUILT_IN_OSS_MODEL_PROVIDER_ID@)
    } else {
        None
    }
}

/// The sandbox that the command line asks for.
pub open spec fn chosen_sandbox(cli: Cli) -> Option<SandboxMode> {
    if cli.full_auto {
        Some(SandboxMode::WorkspaceWrite)
    } else if cli.dangerously_bypass_approvals_and_sandbox {
        Some(SandboxMode::DangerFullAccess)
    } else {
        cli.sandbox_mode
    }
}

/// The model that the command line asks for.
pub open spec fn chosen_model(cli: Cli) -> Option<Seq<char>> {
    if cli.model is Some {
        optional_text(cli.model)
    } else if cli.oss {
        Some(DEFAULT_OSS_MODEL@)
    } else {
        None
    }
}

/// Whether settings are those that the command line imposes.
pub open spec fn are_overrides_of(
    cli: Cli,
    cwd: Option<std::path::PathBuf>,
    sandbox_exe: Option<std::path::PathBuf>,
    r: ConfigOverrides,
) -> bool {
    &&& optional_text(r.model) == chosen_model(cli)
    &&& optional_text(r.config_profile) == optional_text(cli.config_profile)
    &&& r.approval_policy == Some(chosen_approval(cli))
    &&& r.sandbox_mode == chosen_sandbox(cli)
    &&& r.cwd == cwd
    &&& optional_text(r.model_provider) == chosen_provider(cli)
    &&& r.codex_linux_sandbox_exe == sandbox_exe
    &&& r.base_instructions is None
    &&& r.include_plan_tool == Some(cli.include_plan_tool)
    &&& r.disable_response_storage == if cli.oss {
        Some(true)
    } else {
        None
    }
    &&& r.show_raw_agent_reasoning == if cli.oss {
        Some(true)
    } else {
        None
    }
}

/// Whether the command line names a destination for plans.
pub open spec fn wants_emitter(cli: Cli) -> bool {
    cli.plan_webhook is Some || cli.plan_events is Some || cli.plan_state is Some
        || cli.emit_plan_stdout
}

/// Whether `id` is the identifier that was given or, where none was, a fresh one that starts with
/// `prefix`.
pub open spec fn is_identifier(given: Option<String>, prefix: Seq<char>, id: Seq<char>) -> bool {
    match given {
        Some(t) => id == t@,
        None => exists|uuid: Seq<char>| #[trigger] is_uuid_v4(uuid) && id == prefix + uuid,
    }
}

/// Whether an emitter is one that the command line asks for.
pub open spec fn is_emitter_of(cli: Cli, model: Seq<char>, emitter: Emitter) -> bool {
    &&& emitter.webhook_url == optional_text(cli.plan_webhook)
    &&& emitter.webhook_secret == optional_text(cli.webhook_secret)
    &&& emitter.plan_events_path == cli.plan_events
    &&& emitter.plan_state_path == cli.plan_state
    &&& is_identifier(cli.task_id, "task-"@, emitter.task_id)
    &&& is_identifier(cli.run_id, "run-"@, emitter.run_id)
    &&& emitter.model == model
    &&& emitter.emit_stdout == cli.emit_plan_stdout
    &&& emitter.json_mode == cli.json
}

/// Takes the identifier that was given, or makes one.
pub fn identifier(given: &Option<String>, prefix: &str) -> (r: String)
    ensures
        is_identifier(*given, prefix@, r@),
{
    match given {
        Some(t) => t.clone(),
        None => {
            let uuid = outside::random_uuid();
            let r = join(prefix, uuid.as_str());
            proof {
                assert(is_uuid_v4(uuid@) && r@ == prefix@ + uuid@);
            }
            r
        },
    }
}

impl Cli {
    /// The settings that the command line imposes. `cwd` is the working directory that it names,
    /// resolved.
    pub fn overrides(
        &self,
        cwd: Option<std::path::PathBuf>,
        codex_linux_sandbox_exe: Option<std::path::PathBuf>,
    ) -> (r: ConfigOverrides)
        ensures
            are_overrides_of(*self, cwd, codex_linux_sandbox_exe, r),
            optional_text(r.model) == chosen_model(*self),
            match self.model {
                Some(m) => r.model matches Some(t) && t@ == m@,
                None => if self.oss {
                    r.model matches Some(t) && t@ == "gpt-oss:20b"@
                } else {
                    r.model is None
                },
            },
            optional_text(r.model_provider) == chosen_provider(*self),
            optional_text(r.config_profile) == optional_text(self.config_profile),
            r.approval_policy == Some(chosen_approval(*self)),
            r.approval_policy == if self.full_auto {
                Some(AskForApproval::OnFailure)
            } else {
                Some(AskForApproval::Never)
            },
            r.sandbox_mode == chosen_sandbox(*self),
            r.cwd == cwd,
            optional_text(r.model_provider) == if self.oss {
                Some(BUILT_IN_OSS_MODEL_PROVIDER_ID@)
            } else {
                None
            },
            r.codex_linux_sandbox_exe == codex_linux_sandbox_exe,
            r.base_instructions is None,
            r.include_plan_tool == Some(self.include_plan_tool),
            r.disable_response_storage == if self.oss {
                Some(true)
            } else {
                None
            },
            r.show_raw_agent_reasoning == if self.oss {
                Some(true)
            } else {
                None
            },
    {
        let approval_policy: AskForApproval = if self.full_auto {
            AskForApproval::OnFailure
        } else {
            AskForApproval::Never
        };
        let sandbox_mode: Option<SandboxMode> = if self.full_auto {
            Some(SandboxMode::WorkspaceWrite)
        } else if self.dangerously_bypass_approvals_and_sandbox {
            Some(SandboxMode::DangerFullAccess)
        } else {
            self.sandbox_mode
        };
        let model: Option<String> = match &self.model {
            Some(m) => Some(m.clone()),
            None => if self.oss {
                Some(DEFAULT_OSS_MODEL.to_owned())
            } else {
                None
            },
        };
        let model_provider: Option<String> = if self.oss {
            Some(BUILT_IN_OSS_MODEL_PROVIDER_ID.to_owned())
        } else {
            None
        };
        let local: Option<bool> = if self.oss {
            Some(true)
        } else {
            None
        };
        ConfigOverrides {
            model,
            config_profile: copy_optional(&self.config_profile),
            approval_policy: Some(approval_policy),
            sandbox_mode,
            cwd,
            model_provider,
            codex_linux_sandbox_exe,
            base_instructions: None,
            include_plan_tool: Some(self.include_plan_tool),
            disable_response_storage: local,
            show_raw_agent_reasoning: local,
        }
    }

    /// Makes the emitter that the command line asks for, where it names a destination. `model` is
    /// the model in use.
    pub fn plan_emitter(&self, model: String) -> (r: Option<PlanEmitter>)
        ensures
            r is Some <==> wants_emitter(*self),
            r is Some <==> self.plan_webhook is Some || self.plan_events is Some
                || self.plan_state is Some || self.emit_plan_stdout,
            r matches Some(emitter) ==> {
                &&& is_emitter_of(*self, model@, emitter@)
                &&& is_identifier(self.task_id, "task-"@, emitter@.task_id)
                &&& is_identifier(self.run_id, "run-"@, emitter@.run_id)
                &&& emitter@ == (Emitter {
                    webhook_url: optional_text(self.plan_webhook),
                    webhook_secret: optional_text(self.webhook_secret),
                    plan_events_path: self.plan_events,
                    plan_state_path: self.plan_state,
                    task_id: emitter@.task_id,
                    run_id: emitter@.run_id,
                    model: model@,
                    emit_stdout: self.emit_plan_stdout,
                    json_mode: self.json,
                })
            },
    {
        if self.plan_webhook.is_some() || self.plan_events.is_some() || self.plan_state.is_some()
            || self.emit_plan_stdout {
            let task_id = identifier(&self.task_id, "task-");
            let run_id = identifier(&self.run_id, "run-");
            match PlanEmitter::new(
                copy_optional(&self.plan_webhook),
                copy_optional(&self.webhook_secret),
                copy_path(&self.plan_events),
                copy_path(&self.plan_state),
                task_id,
                run_id,
                model,
                self.emit_plan_stdout,
                self.json,
            ) {
                Ok(emitter) => Some(emitter),
                Err(_) => None,
            }
        } else {
            None
        }
    }
}

/// A webhook address is never altered, and an accepted one has the scheme of the web.
pub proof fn accepted_urls_are_unaltered(s: Seq<char>, parsed: Result<Seq<char>, Seq<char>>)
    ensures
        checked_url(s, parsed) matches Ok(t) ==> t == s && (parsed == Ok::<Seq<char>, Seq<char>>(
            "http"@,
        ) || parsed == Ok::<Seq<char>, Seq<char>>("https"@)),
{
}

/// Plans are emitted on request alone: a command line that names no destination has no emitter.
pub proof fn emitters_are_opt_in(cli: Cli)
    requires
        cli.plan_webhook is None,
        cli.plan_events is None,
        cli.plan_state is None,
        !cli.emit_plan_stdout,
    ensures
        !wants_emitter(cli),
{
}

/// A model that is named is used, whatever the other flags are. Where none is named, the local one
/// is used where local models are asked for, and otherwise the configuration decides.
pub proof fn named_models_are_used(cli: Cli)
    ensures
        cli.model matches Some(m) ==> chosen_model(cli) == Some(m@),
        cli.model is None && cli.oss ==> chosen_model(cli) == Some("gpt-oss:20b"@),
        cli.model is None && !cli.oss ==> chosen_model(cli) is None,
        chosen_provider(cli) == if cli.oss {
            Some("oss"@)
        } else {
            None
        },
{
}

/// Full automation works in the workspace and asks after a failure; the bypass has no sandbox;
/// otherwise the sandbox is the one that was named. But for full automation nobody is asked.
pub proof fn confinement_follows_the_flags(cli: Cli)
    ensures
        cli.full_auto ==> chosen_sandbox(cli) == Some(SandboxMode::WorkspaceWrite),
        cli.dangerously_bypass_approvals_and_sandbox && !cli.full_auto ==> chosen_sandbox(cli)
            == Some(SandboxMode::DangerFullAccess),
        !cli.dangerously_bypass_approvals_and_sandbox && !cli.full_auto ==> chosen_sandbox(cli)
            == cli.sandbox_mode,
        chosen_approval(cli) == AskForApproval::OnFailure <==> cli.full_auto,
        chosen_approval(cli) == AskForApproval::Never <==> !cli.full_auto,
{
}

/// An emitter is made exactly where a destination is named: the secret alone is none.
pub proof fn destinations_make_an_emitter(cli: Cli)
    ensures
        wants_emitter(cli) <==> !(cli.plan_webhook is None && cli.plan_events is None
            && cli.plan_state is None && !cli.emit_plan_stdout),
{
}

/// An emitter has the destinations of the command line, the model in use, and the identifiers that
/// were given or fresh ones.
pub proof fn emitters_follow_the_command_line(cli: Cli, model: Seq<char>, emitter: Emitter)
    requires
        is_emitter_of(cli, model, emitter),
    ensures
        match cli.plan_webhook {
            Some(t) => emitter.webhook_url == Some(t@),
            None => emitter.webhook_url is None,
        },
        match cli.webhook_secret {
            Some(t) => emitter.webhook_secret == Some(t@),
            None => emitter.webhook_secret is None,
        },
        emitter.plan_events_path == cli.plan_events,
        emitter.plan_state_path == cli.plan_state,
        emitter.emit_stdout == cli.emit_plan_stdout,
        emitter.json_mode == cli.json,
        emitter.model == model,
        match cli.task_id {
            Some(t) => emitter.task_id == t@,
            None => exists|uuid: Seq<char>|
                #[trigger] is_uuid_v4(uuid) && emitter.task_id == "task-"@ + uuid,
        },
        match cli.run_id {
            Some(t) => emitter.run_id == t@,
            None => exists|uuid: Seq<char>|
                #[trigger] is_uuid_v4(uuid) && emitter.run_id == "run-"@ + uuid,
        },
{
}

/// An address is accepted exactly where it parses with the scheme of the web, and what is refused
/// is refused with the words of the parser or with these.
pub proof fn urls_need_the_scheme_of_the_web(s: Seq<char>, parsed: Result<Seq<char>, Seq<char>>)
    ensures
        checked_url(s, parsed) is Ok <==> (parsed matches Ok(scheme) && (scheme == "http"@ || scheme
            == "https"@)),
        parsed matches Err(message) ==> checked_url(s, parsed) == Err::<Seq<char>, Seq<char>>(
            message,
        ),
        parsed is Ok ==> (checked_url(s, parsed) matches Err(message) ==> message
            == "URL must use http or https scheme"@),
{
}

/// The prompt is the argument, unless there is none or it is a dash. A terminal is read only after
/// a dash, and reading is announced unless a dash asked for it.
pub proof fn prompts_come_from_arguments_first(
    prompt: Option<Seq<char>>,
    is_terminal: bool,
    forced: bool,
)
    ensures
        reads_stdin(prompt) <==> prompt is None || prompt == Some("-"@),
        stdin_use(is_terminal, forced) is Err <==> is_terminal && !forced,
        stdin_use(is_terminal, forced) matches Err(e) ==> e == PromptError::Missing,
        stdin_use(is_terminal, forced) matches Ok(announced) ==> announced == !forced,
        prompt_error_text(PromptError::Missing)
            == "No prompt provided. Either specify one as an argument or pipe the prompt into stdin."@,
        prompt_error_text(PromptError::Empty) == "No prompt provided via stdin."@,
{
}

/// Colours are forced, forbidden, or used on terminals, each stream by itself.
pub proof fn colours_follow_the_terminals(color: Color, stdout: bool, stderr: bool)
    ensures
        color == Color::Always ==> coloured(color, stdout, stderr) == (true, true),
        color == Color::Never ==> coloured(color, stdout, stderr) == (false, false),
        color == Color::Auto ==> coloured(color, stdout, stderr) == (stdout, stderr),
{
}

/// The settings that are imposed are those of the command line: model, profile, approval, sandbox,
/// directory, provider and plan tool, and what local models need.
pub proof fn overrides_follow_the_command_line(
    cli: Cli,
    cwd: Option<std::path::PathBuf>,
    sandbox_exe: Option<std::path::PathBuf>,
    r: ConfigOverrides,
)
    requires
        are_overrides_of(cli, cwd, sandbox_exe, r),
    ensures
        match cli.model {
            Some(m) => r.model matches Some(t) && t@ == m@,
            None => if cli.oss {
                r.model matches Some(t) && t@ == "gpt-oss:20b"@
            } else {
                r.model is None
            },
        },
        match cli.config_profile {
            Some(p) => r.config_profile matches Some(t) && t@ == p@,
            None => r.config_profile is None,
        },
        cli.full_auto ==> r.approval_policy == Some(AskForApproval::OnFailure) && r.sandbox_mode
            == Some(SandboxMode::WorkspaceWrite),
        !cli.full_auto ==> r.approval_policy == Some(AskForApproval::Never),
        !cli.full_auto && cli.dangerously_bypass_approvals_and_sandbox ==> r.sandbox_mode == Some(
            SandboxMode::DangerFullAccess,
        ),
        !cli.full_auto && !cli.dangerously_bypass_approvals_and_sandbox ==> r.sandbox_mode
            == cli.sandbox_mode,
        r.cwd == cwd,
        r.codex_linux_sandbox_exe == sandbox_exe,
        r.base_instructions is None,
        r.include_plan_tool == Some(cli.include_plan_tool),
        cli.oss ==> {
            &&& r.model_provider matches Some(t) && t@ == "oss"@
            &&& r.disable_response_storage == Some(true)
            &&& r.show_raw_agent_reasoning == Some(true)
        },
        !cli.oss ==> r.model_provider is None && r.disable_response_storage is None
            && r.show_raw_agent_reasoning is None,
{
}

/// An identifier that is given is taken as it stands, and one that is not is fresh.
pub proof fn identifiers_are_given_or_fresh(
    given: Option<String>,
    prefix: Seq<char>,
    id: Seq<char>,
)
    requires
        is_identifier(given, prefix, id),
    ensures
        given matches Some(t) ==> id == t@,
        given is None ==> id.len() == prefix.len() + 36 && prefix.is_prefix_of(id) && is_uuid_v4(
            id.skip(prefix.len() as int),
        ),
{
    if given is None {
        let uuid = choose|uuid: Seq<char>| #[trigger] is_uuid_v4(uuid) && id == prefix + uuid;
        assert(id.skip(prefix.len() as int) =~= uuid);
    }
}

/// What is piped in is a prompt as soon as one of its characters is no white space.
pub proof fn piped_prompts_say_something(s: Seq<char>, t: Seq<char>)
    ensures
        !is_prompt(Seq::empty()),
        is_prompt(s + t) <==> is_prompt(s) || is_prompt(t),
        is_prompt(s) <==> !blank(s),
{
    if blank(s) && blank(t) {
        assert forall|i: int| 0 <= i < (s + t).len() implies is_white_space(
            #[trigger] (s + t)[i],
        ) by {
            if i < s.len() {
                assert(is_white_space(s[i]));
            } else {
                assert(is_white_space(t[i - s.len()]));
            }
        }
    }
    if blank(s + t) {
        assert forall|i: int| 0 <= i < s.len() implies is_white_space(#[trigger] s[i]) by {
            assert(is_white_space((s + t)[i]));
        }
        assert forall|i: int| 0 <= i < t.len() implies is_white_space(#[trigger] t[i]) by {
            assert(is_white_space((s + t)[s.len() + i]));
        }
    }
}

} // verus!
