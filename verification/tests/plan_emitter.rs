use std::path::PathBuf;

use hmac::Mac;

use codex_exec::event::{EventMeta, PlanEventEnvelope, SequenceMeta, CODEX_VERSION};
use codex_exec::failure::Failure;
use codex_exec::plan::{PlanItemArg, StepStatus, UpdatePlanArgs};
use codex_exec::plan_emitter::{PlanEmitter, SequenceFile};
use codex_exec::run::{prepare_directories, start_sequence};
use codex_exec::step::{after_step, first_step, Progress, Step};
use codex_exec::webhook::canonical_string;

fn emitter(
    webhook_url: Option<&str>,
    webhook_secret: Option<&str>,
    events: Option<&str>,
    state: Option<&str>,
    emit_stdout: bool,
    json_mode: bool,
) -> PlanEmitter {
    PlanEmitter::new(
        webhook_url.map(|s| s.to_string()),
        webhook_secret.map(|s| s.to_string()),
        events.map(PathBuf::from),
        state.map(PathBuf::from),
        "task-123".to_string(),
        "run-456".to_string(),
        "test-model".to_string(),
        emit_stdout,
        json_mode,
    )
    .unwrap()
}

fn sample_plan() -> UpdatePlanArgs {
    UpdatePlanArgs {
        explanation: Some("Test plan".to_string()),
        plan: vec![PlanItemArg { step: "Step 1".to_string(), status: StepStatus::Completed }],
    }
}

fn instant(text: &str) -> i128 {
    time::OffsetDateTime::parse(text, &time::format_description::well_known::Rfc3339)
        .unwrap()
        .unix_timestamp_nanos()
}

fn temp_content(steps: &[Step], path: &str) -> String {
    for step in steps {
        if let Step::WriteTemp(at, content) = step {
            if *at == PathBuf::from(path) {
                return content.clone();
            }
        }
    }
    panic!("nothing is written")
}

fn names(steps: &[Step]) -> Vec<&'static str> {
    steps
        .iter()
        .map(|s| match s {
            Step::Print { .. } => "print",
            Step::CreateParent(_) => "parent",
            Step::OpenLog(_) => "open",
            Step::WriteLog(_, _) => "append",
            Step::FlushLog(_) => "flush",
            Step::CreateTemp(_) => "temp",
            Step::WriteTemp(_, _) => "write",
            Step::FlushTemp(_) => "flush temp",
            Step::SyncTemp(_) => "sync",
            Step::CloseTemp(_) => "close",
            Step::RenameTemp { .. } => "rename",
            Step::SyncParent(_) => "sync parent",
            Step::CreateClient => "client",
            Step::Deliver(_) => "deliver",
            Step::Fail(_) => "fail",
        })
        .collect()
}

#[test]
fn test_sequence_persistence() {
    let emitter = emitter(None, None, None, Some("plan.json"), false, false);

    assert_eq!(emitter.load_sequence(SequenceFile::Missing), Ok(1));

    let steps = emitter.persist_sequence(42);
    let content = temp_content(&steps, "plan.meta.tmp");
    let parsed: serde_json::Value = serde_json::from_str(&content).unwrap();
    let last_seq = parsed["last_seq"].as_u64().unwrap();
    assert_eq!(last_seq, 42);

    let record = SequenceFile::Record(SequenceMeta { last_seq });
    assert_eq!(emitter.load_sequence(record), Ok(43));
}

#[test]
fn test_plan_state_writing() {
    let emitter = emitter(None, None, None, Some("plan.json"), false, false);

    let steps = emitter.emit_plan_update(&sample_plan(), 1);
    assert_eq!(
        names(&steps),
        vec!["parent", "temp", "write", "flush temp", "sync", "close", "rename", "sync parent"]
    );

    let content = temp_content(&steps, "plan.tmp");
    let parsed: serde_json::Value = serde_json::from_str(&content).unwrap();
    assert_eq!(parsed["event"], "plan_update");
    assert_eq!(parsed["task_id"], "task-123");
    assert_eq!(parsed["run_id"], "run-456");
    assert_eq!(parsed["seq"], 1);
}

#[test]
fn test_hmac_computation() {
    let emitter = emitter(None, Some("test-secret"), None, None, false, false);

    let signature = emitter
        .compute_hmac("test-secret", "v0:2025-08-14T16:12:03Z:{\"test\":\"data\"}")
        .unwrap();

    assert_eq!(signature.len(), 64);
    assert!(signature.chars().all(|c| c.is_ascii_hexdigit()));
}

#[test]
fn test_hmac_verification() {
    let emitter = emitter(None, None, None, None, false, false);

    let secret = "test-secret";
    let message = "v0:2025-08-14T16:12:03Z:{\"event\":\"plan_update\"}";

    let signature = emitter.compute_hmac(secret, message).unwrap();
    let signature2 = emitter.compute_hmac(secret, message).unwrap();
    assert_eq!(signature, signature2);

    let different_message = "v0:2025-08-14T16:12:03Z:{\"event\":\"different\"}";
    let signature3 = emitter.compute_hmac(secret, different_message).unwrap();
    assert_ne!(signature, signature3);

    let mut mac = hmac::Hmac::<sha2::Sha256>::new_from_slice(secret.as_bytes()).unwrap();
    mac.update(message.as_bytes());
    let expected_hex = hex::encode(mac.finalize().into_bytes());
    assert_eq!(signature, expected_hex);
}

#[test]
fn test_webhook_json_structure() {
    let plan = UpdatePlanArgs {
        explanation: Some("Test explanation".to_string()),
        plan: vec![
            PlanItemArg { step: "Step 1".to_string(), status: StepStatus::InProgress },
            PlanItemArg { step: "Step 2".to_string(), status: StepStatus::Pending },
        ],
    };
    let envelope = PlanEventEnvelope {
        event: "plan_update".to_string(),
        run_id: "run-123".to_string(),
        task_id: "task-456".to_string(),
        seq: 7,
        ts: instant("2024-08-14T16:12:03Z"),
        plan,
        meta: EventMeta {
            model: "test-model".to_string(),
            codex_ver: CODEX_VERSION.to_string(),
        },
    };

    let line = envelope.to_line().unwrap();
    let json: serde_json::Value = serde_json::from_str(&line).unwrap();

    assert_eq!(json["event"], "plan_update");
    assert_eq!(json["run_id"], "run-123");
    assert_eq!(json["task_id"], "task-456");
    assert_eq!(json["seq"], 7);
    assert_eq!(json["ts"], "2024-08-14T16:12:03Z");

    let plan_obj = &json["plan"];
    assert!(plan_obj.is_object(), "plan should be a nested object");
    assert_eq!(plan_obj["explanation"], "Test explanation");

    let plan_array = &plan_obj["plan"];
    assert!(plan_array.is_array(), "plan.plan should be an array");
    assert_eq!(plan_array.as_array().unwrap().len(), 2);

    assert_eq!(plan_array[0]["step"], "Step 1");
    assert_eq!(plan_array[0]["status"], "in_progress");
    assert_eq!(plan_array[1]["step"], "Step 2");
    assert_eq!(plan_array[1]["status"], "pending");

    assert_eq!(json["meta"]["model"], "test-model");
    assert_eq!(json["meta"]["codex_ver"], CODEX_VERSION);
}

#[test]
fn hmac_has_the_published_value() {
    let emitter = emitter(None, None, None, None, false, false);
    assert_eq!(
        emitter.compute_hmac("Jefe", "what do ya want for nothing?").unwrap(),
        "5bdcc146bf60754e6a042426089575c75a003f089d2739839dec58b964ec3843"
    );
}

#[test]
fn event_line_keeps_order_and_text() {
    let emitter = emitter(None, None, None, None, false, false);
    let plan = UpdatePlanArgs {
        explanation: None,
        plan: vec![PlanItemArg {
            step: "zwei\n\"Schritte\" \u{1F600}".to_string(),
            status: StepStatus::Pending,
        }],
    };
    let envelope = emitter.envelope_at(&plan, 3, instant("2025-08-14T16:12:03.25Z"));
    assert_eq!(
        envelope.to_line().unwrap(),
        "{\"event\":\"plan_update\",\"run_id\":\"run-456\",\"task_id\":\"task-123\",\"seq\":3,\
         \"ts\":\"2025-08-14T16:12:03.25Z\",\"plan\":{\"explanation\":null,\"plan\":[{\"step\":\
         \"zwei\\n\\\"Schritte\\\" \u{1F600}\",\"status\":\"pending\"}]},\
         \"meta\":{\"model\":\"test-model\",\"codex_ver\":\"0.1.0\"}}"
    );
}

#[test]
fn sequence_record_is_indented() {
    assert_eq!(
        SequenceMeta { last_seq: 42 }.to_document().unwrap(),
        "{\n  \"last_seq\": 42\n}"
    );
}

#[test]
fn destinations_follow_each_other() {
    let emitter = emitter(
        Some("http://localhost:8000/plan"),
        Some("secret"),
        Some("run/events.jsonl"),
        Some("run/plan.json"),
        true,
        false,
    );
    let envelope = emitter.envelope_at(&sample_plan(), 7, instant("2025-08-14T16:12:03Z"));
    let line = envelope.to_line().unwrap();
    let steps = emitter.emit(&envelope);
    assert_eq!(
        names(&steps),
        vec![
            "print",
            "parent",
            "open",
            "append",
            "flush",
            "parent",
            "temp",
            "write",
            "flush temp",
            "sync",
            "close",
            "rename",
            "sync parent",
            "client",
            "deliver",
        ]
    );
    match &steps[0] {
        Step::Print { to_stderr, line: shown } => {
            assert!(!*to_stderr);
            assert_eq!(*shown, format!("@plan {line}"));
        }
        _ => panic!("no line"),
    }
    match &steps[3] {
        Step::WriteLog(path, content) => {
            assert_eq!(*path, PathBuf::from("run/events.jsonl"));
            assert_eq!(*content, format!("{line}\n"));
        }
        _ => panic!("no entry"),
    }
    match &steps[14] {
        Step::Deliver(request) => {
            let timestamp = "2025-08-14T16:12:03Z";
            let message = canonical_string(timestamp, &line);
            let signature = emitter.compute_hmac("secret", &message).unwrap();
            assert_eq!(message, format!("v0:{timestamp}:{line}"));
            assert_eq!(request.url, "http://localhost:8000/plan");
            assert_eq!(request.body, line);
            let expected = vec![
                ("Content-Type".to_string(), "application/json".to_string()),
                ("X-Run-Id".to_string(), "run-456".to_string()),
                ("X-Task-Id".to_string(), "task-123".to_string()),
                ("X-Seq".to_string(), "7".to_string()),
                ("X-Timestamp".to_string(), timestamp.to_string()),
                ("X-Signature".to_string(), format!("sha256={signature}")),
            ];
            assert_eq!(request.headers, expected);
        }
        _ => panic!("no request"),
    }
}

#[test]
fn json_mode_prints_to_stderr() {
    let emitter = emitter(None, None, None, None, true, true);
    let steps = emitter.emit_plan_update(&sample_plan(), 1);
    assert_eq!(steps.len(), 1);
    assert!(matches!(&steps[0], Step::Print { to_stderr: true, .. }));
}

#[test]
fn no_destination_no_steps() {
    assert!(emitter(None, None, None, None, false, false)
        .emit_plan_update(&sample_plan(), 1)
        .is_empty());
    assert!(emitter(Some("http://localhost"), None, None, None, false, false)
        .emit_plan_update(&sample_plan(), 1)
        .is_empty());
    assert!(emitter(None, Some("secret"), None, None, false, false)
        .emit_plan_update(&sample_plan(), 1)
        .is_empty());
    assert!(emitter(None, None, None, None, false, false).emit_shutdown(9).is_empty());
    assert!(emitter(None, None, None, None, true, true).persist_sequence(9).is_empty());
}

#[test]
fn an_instant_without_a_text_stops_the_emission() {
    let beyond: i128 = 253_402_300_800_000_000_000;
    let all = emitter(Some("http://h"), Some("s"), Some("e"), Some("p"), true, false);
    let steps = all.emit(&all.envelope_at(&sample_plan(), 1, beyond));
    assert!(matches!(&steps[..], [Step::Fail(Failure::SerializeEvent)]));

    let log = emitter(Some("http://h"), Some("s"), Some("e"), Some("p"), false, false);
    let steps = log.emit(&log.envelope_at(&sample_plan(), 1, beyond));
    assert!(matches!(&steps[1], Step::Fail(Failure::SerializeLogEntry)));
    assert_eq!(steps.len(), 2);

    let state = emitter(Some("http://h"), Some("s"), None, Some("p"), false, false);
    let steps = state.emit(&state.envelope_at(&sample_plan(), 1, beyond));
    assert!(matches!(&steps[1], Step::Fail(Failure::SerializeState)));
    assert_eq!(steps.len(), 2);

    let hook = emitter(Some("http://h"), Some("s"), None, None, false, false);
    let steps = hook.emit(&hook.envelope_at(&sample_plan(), 1, beyond));
    assert!(matches!(&steps[1], Step::Fail(Failure::SerializePayload)));
    assert_eq!(steps.len(), 2);

    let last = hook.emit(&hook.envelope_at(&sample_plan(), 1, beyond - 1));
    assert!(matches!(&last[1], Step::Deliver(_)));
    let first = hook.emit(&hook.envelope_at(&sample_plan(), 1, -62_167_219_200_000_000_000));
    assert!(matches!(&first[1], Step::Deliver(_)));
    let before = hook.emit(&hook.envelope_at(&sample_plan(), 1, -62_167_219_200_000_000_001));
    assert!(matches!(&before[1], Step::Fail(Failure::SerializePayload)));
}

#[test]
fn sequence_resumes() {
    let kept = emitter(None, None, None, Some("plan.json"), false, false);
    assert_eq!(kept.load_sequence(SequenceFile::Unreadable), Err(Failure::ReadSequence));
    assert_eq!(kept.load_sequence(SequenceFile::Malformed), Err(Failure::ParseSequence));
    let free = emitter(None, None, None, None, true, false);
    let record = SequenceFile::Record(SequenceMeta { last_seq: 8 });
    assert_eq!(free.load_sequence(record), Ok(1));

    assert_eq!(start_sequence(&None, record), Ok(1));
    assert_eq!(start_sequence(&Some(kept.clone()), SequenceFile::Unreadable), Ok(1));
    assert_eq!(start_sequence(&Some(kept.clone()), record), Ok(9));

    let largest = SequenceFile::Record(SequenceMeta { last_seq: u64::MAX });
    assert_eq!(kept.load_sequence(largest), Err(Failure::SequenceExhausted));
    assert_eq!(start_sequence(&Some(kept.clone()), largest), Err(Failure::SequenceExhausted));
    assert_eq!(start_sequence(&Some(free), largest), Ok(1));
    let last = SequenceFile::Record(SequenceMeta { last_seq: u64::MAX - 1 });
    assert_eq!(kept.load_sequence(last), Ok(u64::MAX));
}

#[test]
fn steps_stop_at_the_first_failure() {
    let log = emitter(None, None, Some("e"), None, false, false);
    let steps = log.emit_plan_update(&sample_plan(), 1);
    assert_eq!(first_step(&steps), Progress::Perform(0));
    assert_eq!(after_step(&steps, 0, true), Progress::Perform(1));
    assert_eq!(after_step(&steps, 0, false), Progress::Failed(Failure::CreateDirectory));
    assert_eq!(after_step(&steps, 1, false), Progress::Failed(Failure::OpenLog));
    assert_eq!(after_step(&steps, 2, false), Progress::Failed(Failure::WriteLog));
    assert_eq!(after_step(&steps, 3, false), Progress::Failed(Failure::FlushLog));
    assert_eq!(after_step(&steps, 3, true), Progress::Finished);

    let state = emitter(None, None, None, Some("p"), false, false);
    let steps = state.persist_sequence(1);
    assert_eq!(after_step(&steps, 1, false), Progress::Failed(Failure::CreateTemp));
    assert_eq!(after_step(&steps, 2, false), Progress::Failed(Failure::WriteTemp));
    assert_eq!(after_step(&steps, 3, false), Progress::Failed(Failure::FlushTemp));
    assert_eq!(after_step(&steps, 4, false), Progress::Failed(Failure::SyncTemp));
    assert_eq!(after_step(&steps, 5, false), Progress::Perform(6));
    assert_eq!(after_step(&steps, 6, false), Progress::Failed(Failure::RenameTemp));
    assert_eq!(after_step(&steps, 7, false), Progress::Finished);

    let hook = emitter(Some("http://h"), Some("s"), None, None, false, false);
    let steps = hook.emit_plan_update(&sample_plan(), 1);
    assert_eq!(after_step(&steps, 0, false), Progress::Failed(Failure::CreateClient));
    assert_eq!(after_step(&steps, 1, false), Progress::Failed(Failure::DeliverWebhook));
    let none: Vec<Step> = Vec::new();
    assert_eq!(first_step(&none), Progress::Finished);
}

#[test]
fn directories_are_made_for_each_file() {
    assert!(prepare_directories(&None, &None).is_empty());
    let (log, state) = (PathBuf::from("a/log"), PathBuf::from("b/state"));
    let both = prepare_directories(&Some(log.clone()), &Some(state.clone()));
    assert_eq!(both.len(), 2);
    assert!(matches!(&both[0], Step::CreateParent(path) if *path == log));
    assert!(matches!(&both[1], Step::CreateParent(path) if *path == state));
}

#[test]
fn failures_have_their_words() {
    assert_eq!(
        Failure::RenameTemp.context("a.tmp", "a.json").unwrap(),
        "Failed to rename a.tmp to a.json"
    );
    assert_eq!(Failure::OpenLog.context("log", "").unwrap(), "Failed to open event log log");
    assert_eq!(
        Failure::ReadSequence.context("plan.meta.json", "").unwrap(),
        "Failed to read sequence from plan.meta.json"
    );
    assert_eq!(Failure::InvalidKey.context("", "").unwrap(), "Invalid HMAC key");
    assert!(Failure::SerializeSequence.context("", "").is_none());
    assert_eq!(
        Failure::SequenceExhausted.context("", "").unwrap(),
        "No sequence number is left"
    );
    assert_eq!(Failure::CreateClient.enclosing(), Some(Failure::DeliverWebhook));
    assert_eq!(Failure::WriteLog.enclosing(), None);
}

#[test]
fn secrets_change_the_signature_alone() {
    let one = emitter(Some("http://h"), Some("one"), Some("e"), Some("p"), true, false);
    let two = emitter(Some("http://h"), Some("two"), Some("e"), Some("p"), true, false);
    let now = instant("2025-08-14T16:12:03Z");
    let a = one.emit(&one.envelope_at(&sample_plan(), 1, now));
    let b = two.emit(&two.envelope_at(&sample_plan(), 1, now));
    assert_eq!(a.len(), b.len());
    for (x, y) in a.iter().zip(b.iter()) {
        match (x, y) {
            (Step::Deliver(x), Step::Deliver(y)) => {
                assert_eq!(x.url, y.url);
                assert_eq!(x.body, y.body);
                assert_eq!(x.headers[..5], y.headers[..5]);
                assert_ne!(x.headers[5], y.headers[5]);
            }
            _ => assert_eq!(format!("{x:?}"), format!("{y:?}")),
        }
    }
}

#[test]
fn different_events_have_different_lines() {
    let emitter = emitter(None, None, None, None, false, false);
    let now = instant("2025-08-14T16:12:03Z");
    let line = emitter.envelope_at(&sample_plan(), 1, now).to_line().unwrap();
    let later = emitter.envelope_at(&sample_plan(), 2, now).to_line().unwrap();
    assert_ne!(line, later);
    let mut bare = sample_plan();
    bare.explanation = None;
    assert_ne!(line, emitter.envelope_at(&bare, 1, now).to_line().unwrap());
    let mut reopened = sample_plan();
    reopened.plan[0].status = StepStatus::Pending;
    assert_ne!(line, emitter.envelope_at(&reopened, 1, now).to_line().unwrap());
    let mut long = sample_plan();
    long.plan[0].step = "\u{1F4CB}".repeat(10_000);
    let text = emitter.envelope_at(&long, 1, now).to_line().unwrap();
    let parsed: serde_json::Value = serde_json::from_str(&text).unwrap();
    assert_eq!(parsed["plan"]["plan"][0]["step"], long.plan[0].step.as_str());
}

#[test]
fn documents_hold_what_lines_hold() {
    let emitter = emitter(None, None, None, None, false, false);
    let envelope =
        emitter.envelope_at(&sample_plan(), u64::MAX, instant("2025-08-14T16:12:03.5Z"));
    let line: serde_json::Value = serde_json::from_str(&envelope.to_line().unwrap()).unwrap();
    let document = envelope.to_document().unwrap();
    assert_eq!(document, serde_json::to_string_pretty(&line).unwrap());
    assert_eq!(envelope.clone().to_document().unwrap(), document);
}

#[test]
fn the_end_of_a_run_is_reported() {
    let all = emitter(Some("http://h"), Some("s"), Some("e"), Some("p"), true, false);
    let steps = all.emit_shutdown(9);
    assert_eq!(
        names(&steps),
        vec!["print", "parent", "open", "append", "flush", "client", "deliver"]
    );
    match &steps[3] {
        Step::WriteLog(path, content) => {
            assert_eq!(*path, PathBuf::from("e"));
            let parsed: serde_json::Value = serde_json::from_str(content).unwrap();
            assert_eq!(parsed["event"], "shutdown");
            assert_eq!(parsed["seq"], 9);
            assert_eq!(parsed["run_id"], "run-456");
            assert_eq!(parsed["plan"]["plan"].as_array().unwrap().len(), 0);
            assert!(parsed["plan"]["explanation"].is_null());
        }
        _ => panic!("no entry"),
    }
    match &steps[6] {
        Step::Deliver(request) => {
            assert_eq!(request.headers[3], ("X-Seq".to_string(), "9".to_string()));
        }
        _ => panic!("no request"),
    }
    let state = emitter(None, None, None, Some("p"), false, false);
    assert!(state.emit_shutdown(9).is_empty());
    let envelope = all.final_envelope_at(9, instant("2025-08-14T16:12:03Z"));
    assert_eq!(
        envelope.to_line().unwrap(),
        "{\"event\":\"shutdown\",\"run_id\":\"run-456\",\"task_id\":\"task-123\",\"seq\":9,\
         \"ts\":\"2025-08-14T16:12:03Z\",\"plan\":{\"explanation\":null,\"plan\":[]},\
         \"meta\":{\"model\":\"test-model\",\"codex_ver\":\"0.1.0\"}}"
    );
}

#[test]
fn headers_name_the_run_of_the_emitter() {
    let hook = emitter(Some("http://h"), Some("s"), None, None, false, false);
    let mut envelope = hook.envelope_at(&sample_plan(), 1, instant("2025-08-14T16:12:03.5Z"));
    envelope.run_id = "other-run".to_string();
    envelope.task_id = "other-task".to_string();
    match &hook.emit(&envelope)[1] {
        Step::Deliver(request) => {
            assert_eq!(request.headers[1].1, "run-456");
            assert_eq!(request.headers[2].1, "task-123");
            assert_eq!(request.headers[4].1, "2025-08-14T16:12:03.5Z");
            let body: serde_json::Value = serde_json::from_str(&request.body).unwrap();
            assert_eq!(body["run_id"], "other-run");
            assert_eq!(body["ts"], request.headers[4].1.as_str());
        }
        _ => panic!("no request"),
    }
}

#[test]
fn instants_have_their_texts() {
    let emitter = emitter(None, None, None, None, false, false);
    let ts = |nanos: i128| {
        let line = emitter.envelope_at(&sample_plan(), 1, nanos).to_line().unwrap();
        let parsed: serde_json::Value = serde_json::from_str(&line).unwrap();
        parsed["ts"].as_str().unwrap().to_string()
    };
    assert_eq!(ts(0), "1970-01-01T00:00:00Z");
    assert_eq!(ts(-1), "1969-12-31T23:59:59.999999999Z");
    assert_eq!(ts(10), "1970-01-01T00:00:00.00000001Z");
    assert_eq!(ts(951_782_400_000_000_000), "2000-02-29T00:00:00Z");
    assert_eq!(ts(1_740_787_199_120_000_000), "2025-02-28T23:59:59.12Z");
    assert_eq!(ts(-62_167_219_200_000_000_000), "0000-01-01T00:00:00Z");
    assert_eq!(ts(253_402_300_799_999_999_999), "9999-12-31T23:59:59.999999999Z");
    for nanos in [0i128, -1, 10, 951_782_400_000_000_000, 253_402_300_799_999_999_999] {
        assert_eq!(instant(&ts(nanos)), nanos);
    }
}

#[test]
fn logs_have_a_line_for_each_event() {
    let log = emitter(None, None, Some("e"), None, true, false);
    let mut plan = sample_plan();
    plan.plan[0].step = "two\nlines".to_string();
    let mut content = String::new();
    for seq in [1, 2, 2] {
        let envelope = log.envelope_at(&plan, seq, instant("2025-08-14T16:12:03Z"));
        for step in log.emit(&envelope) {
            match step {
                Step::WriteLog(_, line) => content.push_str(&line),
                Step::Print { line, .. } => assert!(!line.contains('\n')),
                _ => {}
            }
        }
    }
    assert!(content.ends_with('\n'));
    let seqs: Vec<u64> = content
        .lines()
        .map(|line| {
            let parsed: serde_json::Value = serde_json::from_str(line).unwrap();
            assert_eq!(parsed["plan"]["plan"][0]["step"], "two\nlines");
            parsed["seq"].as_u64().unwrap()
        })
        .collect();
    assert_eq!(seqs, vec![1, 2, 2]);
}

#[test]
fn files_lie_where_they_should() {
    let kept = emitter(None, None, None, Some("run/plan.json"), false, false);
    assert_eq!(kept.sequence_path(), Some(PathBuf::from("run/plan.meta.json")));
    assert_eq!(emitter(None, None, Some("e"), None, false, false).sequence_path(), None);

    let steps = kept.persist_sequence(5);
    assert!(matches!(&steps[0], Step::CreateParent(p) if *p == PathBuf::from("run/plan.meta.json")));
    match &steps[6] {
        Step::RenameTemp { from, to } => {
            assert_eq!(*from, PathBuf::from("run/plan.meta.tmp"));
            assert_eq!(*to, PathBuf::from("run/plan.meta.json"));
        }
        _ => panic!("no rename"),
    }
    let steps = kept.emit_plan_update(&sample_plan(), 5);
    assert!(matches!(&steps[1], Step::CreateTemp(p) if *p == PathBuf::from("run/plan.tmp")));
    match &steps[6] {
        Step::RenameTemp { from, to } => {
            assert_eq!(*from, PathBuf::from("run/plan.tmp"));
            assert_eq!(*to, PathBuf::from("run/plan.json"));
        }
        _ => panic!("no rename"),
    }
    assert!(matches!(&steps[7], Step::SyncParent(p) if *p == PathBuf::from("run/plan.json")));
}
