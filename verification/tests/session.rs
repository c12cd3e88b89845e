use std::path::PathBuf;

use codex_exec::cli::{
    accept_stdin, check_scheme, choose_prompt, identifier, open_stdin, validate_url, Cli, Color,
    PromptError, PromptSource,
};
use codex_exec::environment_context::{
    ContentItem, EnvironmentContext, ResponseItem, Session, WorkingDirectory,
};
use codex_exec::event_loop::{advance, LoopEvent, LoopState};
use codex_exec::policy::{AskForApproval, NetworkAccess, SandboxMode, SandboxPolicy};
use codex_exec::run::{
    after_event, ends_image_turn, next_phase, AfterEvent, CodexStatus, Phase, RunError, RunFlags,
};

fn plain_cli() -> Cli {
    Cli {
        images: Vec::new(),
        model: None,
        oss: false,
        sandbox_mode: None,
        config_profile: None,
        full_auto: false,
        dangerously_bypass_approvals_and_sandbox: false,
        cwd: None,
        skip_git_repo_check: false,
        config_overrides: Vec::new(),
        color: Color::default(),
        json: false,
        last_message_file: None,
        plan_webhook: None,
        webhook_secret: None,
        plan_events: None,
        plan_state: None,
        task_id: None,
        run_id: None,
        emit_plan_stdout: false,
        include_plan_tool: false,
        prompt: None,
    }
}

fn text_of(item: ResponseItem) -> String {
    match item {
        ResponseItem::Message { id, role, mut content } => {
            assert!(id.is_none());
            assert_eq!(role, "user");
            assert_eq!(content.len(), 1);
            match content.remove(0) {
                ContentItem::InputText { text } => text,
            }
        }
    }
}

#[test]
fn urls_need_a_web_scheme() {
    assert_eq!(
        validate_url("https://api.goalgpt.com/webhooks/plan"),
        Ok("https://api.goalgpt.com/webhooks/plan".to_string())
    );
    assert_eq!(validate_url("HTTP://Host"), Ok("HTTP://Host".to_string()));
    assert_eq!(
        validate_url("ftp://host/file"),
        Err("URL must use http or https scheme".to_string())
    );
    assert_eq!(
        validate_url("plan"),
        Err("relative URL without a base".to_string())
    );
    assert_eq!(check_scheme("a", Ok("http".to_string())), Ok("a".to_string()));
    assert_eq!(check_scheme("a", Err("bad".to_string())), Err("bad".to_string()));
}

#[test]
fn prompts_come_from_somewhere() {
    assert!(matches!(
        choose_prompt(Some("go".to_string())),
        PromptSource::Given(p) if p == "go"
    ));
    assert!(matches!(
        choose_prompt(Some("-".to_string())),
        PromptSource::Stdin { forced: true }
    ));
    assert!(matches!(choose_prompt(None), PromptSource::Stdin { forced: false }));
    assert_eq!(open_stdin(true, false), Err(PromptError::Missing));
    assert_eq!(open_stdin(true, true), Ok(false));
    assert_eq!(open_stdin(false, false), Ok(true));
    assert_eq!(accept_stdin("go\n".to_string()), Ok("go\n".to_string()));
    assert_eq!(accept_stdin(" \n".to_string()), Err(PromptError::Empty));
    assert_eq!(PromptError::Empty.message(), "No prompt provided via stdin.");
}

#[test]
fn colours_follow_the_terminal() {
    assert_eq!(Color::Always.with_ansi(false, false), (true, true));
    assert_eq!(Color::Never.with_ansi(true, true), (false, false));
    assert_eq!(Color::default().with_ansi(true, false), (true, false));
}

#[test]
fn overrides_follow_the_arguments() {
    let plain = plain_cli().overrides(None, None);
    assert_eq!(plain.model, None);
    assert_eq!(plain.model_provider, None);
    assert_eq!(plain.approval_policy, Some(AskForApproval::Never));
    assert_eq!(plain.sandbox_mode, None);
    assert_eq!(plain.include_plan_tool, Some(false));
    assert_eq!(plain.disable_response_storage, None);

    let mut cli = plain_cli();
    cli.oss = true;
    cli.full_auto = true;
    cli.sandbox_mode = Some(SandboxMode::ReadOnly);
    let local = cli.overrides(Some(PathBuf::from("/w")), None);
    assert_eq!(local.model, Some("gpt-oss:20b".to_string()));
    assert_eq!(local.model_provider, Some("oss".to_string()));
    assert_eq!(local.sandbox_mode, Some(SandboxMode::WorkspaceWrite));
    assert_eq!(local.approval_policy, Some(AskForApproval::OnFailure));
    assert_eq!(local.cwd, Some(PathBuf::from("/w")));
    assert_eq!(local.show_raw_agent_reasoning, Some(true));

    cli.full_auto = false;
    cli.model = Some("o3".to_string());
    assert_eq!(cli.overrides(None, None).model, Some("o3".to_string()));
    assert_eq!(cli.overrides(None, None).sandbox_mode, Some(SandboxMode::ReadOnly));
    cli.dangerously_bypass_approvals_and_sandbox = true;
    assert_eq!(
        cli.overrides(None, None).sandbox_mode,
        Some(SandboxMode::DangerFullAccess)
    );
    assert_eq!(cli.overrides(None, None).approval_policy, Some(AskForApproval::Never));
}

#[test]
fn emitters_are_made_on_request() {
    assert!(plain_cli().plan_emitter("m".to_string()).is_none());
    let mut secret_only = plain_cli();
    secret_only.webhook_secret = Some("s".to_string());
    assert!(secret_only.plan_emitter("m".to_string()).is_none());

    let mut cli = plain_cli();
    cli.plan_state = Some(PathBuf::from("plan.json"));
    let emitter = cli.plan_emitter("m".to_string()).unwrap();
    assert_eq!(*emitter.plan_state_path(), Some(PathBuf::from("plan.json")));
    assert_eq!(*emitter.plan_events_path(), None);
}

#[test]
fn identifiers_are_given_or_fresh() {
    assert_eq!(identifier(&Some("task-1".to_string()), "task-"), "task-1");
    let a = identifier(&None, "run-");
    let b = identifier(&None, "run-");
    assert_ne!(a, b);
    assert_eq!(a.len(), 40);
    let uuid = uuid::Uuid::parse_str(&a[4..]).unwrap();
    assert_eq!(uuid.get_version_num(), 4);
    assert_eq!(uuid.to_string(), a[4..].to_string());
}

#[test]
fn sessions_become_environments() {
    let session = |sandbox_policy| Session {
        cwd: WorkingDirectory { text: "/w".to_string(), is_unicode: true },
        approval_policy: AskForApproval::OnRequest,
        sandbox_policy,
    };
    let open = EnvironmentContext::from(&session(SandboxPolicy::DangerFullAccess));
    assert_eq!(open.sandbox_mode, SandboxMode::DangerFullAccess);
    assert_eq!(open.network_access, NetworkAccess::Enabled);
    let closed = EnvironmentContext::from(&session(SandboxPolicy::ReadOnly));
    assert_eq!(closed.sandbox_mode, SandboxMode::ReadOnly);
    assert_eq!(closed.network_access, NetworkAccess::Restricted);
    for network_access in [true, false] {
        let policy = SandboxPolicy::WorkspaceWrite { network_access };
        let write = EnvironmentContext::from(&session(policy));
        assert_eq!(write.sandbox_mode, SandboxMode::WorkspaceWrite);
        assert_eq!(write.network_access == NetworkAccess::Enabled, network_access);
    }
}

#[test]
fn environments_are_told_in_xml() {
    let context = EnvironmentContext {
        cwd: WorkingDirectory { text: "/a<b> & \"c'\u{e9}".to_string(), is_unicode: true },
        approval_policy: AskForApproval::Never,
        sandbox_mode: SandboxMode::WorkspaceWrite,
        network_access: NetworkAccess::Restricted,
    };
    assert_eq!(
        text_of(ResponseItem::from(context)),
        "<environment_context>\n  <cwd>/a&lt;b&gt; &amp; \"c'\u{e9}</cwd>\n  \
         <approval_policy>never</approval_policy>\n  \
         <sandbox_mode>workspace-write</sandbox_mode>\n  \
         <network_access>restricted</network_access>\n</environment_context>"
    );
    let empty = EnvironmentContext {
        cwd: WorkingDirectory { text: String::new(), is_unicode: true },
        approval_policy: AskForApproval::UnlessTrusted,
        sandbox_mode: SandboxMode::DangerFullAccess,
        network_access: NetworkAccess::Enabled,
    };
    assert_eq!(
        empty.to_xml().unwrap(),
        "<environment_context>\n  <cwd/>\n  <approval_policy>untrusted</approval_policy>\n  \
         <sandbox_mode>danger-full-access</sandbox_mode>\n  \
         <network_access>enabled</network_access>\n</environment_context>"
    );
}

#[test]
fn environments_fall_back_to_words() {
    let context = EnvironmentContext {
        cwd: WorkingDirectory { text: "/a\u{fffd}".to_string(), is_unicode: false },
        approval_policy: AskForApproval::OnFailure,
        sandbox_mode: SandboxMode::ReadOnly,
        network_access: NetworkAccess::Restricted,
    };
    let words = "Current working directory: /a\u{fffd}\nApproval policy: on-failure\n\
                 Sandbox mode: read-only\nNetwork access: restricted\n";
    assert_eq!(context.to_string(), words);
    assert!(context.to_xml().is_none());
    assert_eq!(text_of(ResponseItem::from(context)), words);
}

#[test]
fn numbers_advance_with_emitted_plans() {
    let mut state = LoopState::Waiting { seq: 5 };
    let events = [
        LoopEvent::PlanUpdate,
        LoopEvent::Emitted(false),
        LoopEvent::Forwarded(true),
        LoopEvent::PlanUpdate,
        LoopEvent::Emitted(true),
        LoopEvent::Recorded(false),
        LoopEvent::Forwarded(true),
        LoopEvent::OtherEvent,
        LoopEvent::Forwarded(true),
        LoopEvent::PlanUpdate,
        LoopEvent::Emitted(true),
        LoopEvent::Recorded(true),
        LoopEvent::Forwarded(true),
    ];
    for event in events {
        state = advance(state, true, event);
    }
    assert_eq!(state, LoopState::Waiting { seq: 7 });
    assert_eq!(
        advance(state, false, LoopEvent::PlanUpdate),
        LoopState::Forwarding { seq: 7, is_last: false }
    );
}

#[test]
fn the_loop_stops() {
    let waiting = LoopState::Waiting { seq: 2 };
    let stopped = LoopState::Stopped { seq: 2 };
    assert_eq!(advance(waiting, true, LoopEvent::ReceiveError), stopped);
    let last = advance(waiting, true, LoopEvent::ShutdownComplete);
    assert_eq!(advance(last, true, LoopEvent::Forwarded(true)), stopped);
    let other = advance(waiting, true, LoopEvent::OtherEvent);
    assert_eq!(advance(other, true, LoopEvent::Forwarded(false)), stopped);
    let announcing = advance(waiting, true, LoopEvent::Signal);
    assert_eq!(announcing, LoopState::Announcing { seq: 2 });
    let interrupting = advance(announcing, true, LoopEvent::Announced(false));
    assert_eq!(interrupting, LoopState::Interrupting { seq: 2 });
    assert_eq!(advance(waiting, false, LoopEvent::Signal), interrupting);
    assert_eq!(advance(interrupting, true, LoopEvent::Interrupted(false)), stopped);
}

#[test]
fn phases_follow_each_other() {
    let flags = RunFlags { oss: true, skip_git_repo_check: false, has_images: true };
    let mut phase = Phase::ParseOverrides;
    let mut seen = vec![phase];
    while phase != Phase::Done {
        phase = next_phase(phase, flags, true);
        seen.push(phase);
    }
    assert_eq!(seen.len(), 15);
    assert!(seen.contains(&Phase::PrepareOss));
    assert!(seen.contains(&Phase::AwaitImages));

    let bare = RunFlags { oss: false, skip_git_repo_check: true, has_images: false };
    assert_eq!(next_phase(Phase::LoadConfig, bare, true), Phase::CreateEmitter);
    assert_eq!(next_phase(Phase::PrintSummary, bare, true), Phase::StartConversation);
    assert_eq!(next_phase(Phase::StartEventLoop, bare, true), Phase::SendPrompt);
    assert_eq!(
        next_phase(Phase::CheckRepository, flags, false),
        Phase::Exit(RunError::UntrustedDirectory)
    );
    assert_eq!(
        next_phase(Phase::ParseOverrides, flags, false),
        Phase::Exit(RunError::InvalidOverrides)
    );
    assert_eq!(next_phase(Phase::SendPrompt, flags, false), Phase::Failed);
    assert_eq!(next_phase(Phase::LoadSequence, flags, false), Phase::Failed);
    assert_eq!(
        RunError::InvalidOverrides.message("x"),
        "Error parsing -c overrides: x"
    );
    assert_eq!(
        RunError::UntrustedDirectory.message("x"),
        "Not inside a trusted directory and --skip-git-repo-check was not specified."
    );
}

#[test]
fn turns_and_runs_end() {
    assert!(ends_image_turn("1", true, "1"));
    assert!(!ends_image_turn("1", false, "1"));
    assert!(!ends_image_turn("2", true, "1"));
    assert_eq!(after_event(CodexStatus::Running), AfterEvent::Continue);
    assert_eq!(after_event(CodexStatus::InitiateShutdown), AfterEvent::RequestShutdown);
    assert_eq!(after_event(CodexStatus::Shutdown), AfterEvent::Leave);
}
