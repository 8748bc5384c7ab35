use compiler_api::compiler::ProcessEvent;
use compiler_api::executor::{plan_input, ExecEvent};
use compiler_api::failure::Failure;
use compiler_api::lang::Language;
use compiler_api::pipeline::{Action, CodeRequest, CodeResponse, CodeService, Event};

fn begin(lang: Language) -> CodeService {
    let svc = CodeService::new(lang);
    assert_eq!(svc.next_action(), Action::Start);
    svc.on_event(Event::Begin)
}

fn run_success(lang: Language, stdout: &str, elapsed_nanos: u64) -> CodeResponse {
    let svc = begin(lang);
    assert_eq!(svc.next_action(), Action::WriteSource);
    let svc = svc.on_event(Event::SourceWritten(Ok(())));
    assert_eq!(svc.next_action(), Action::RunCompiler);
    let svc = svc.on_event(Event::Compiled(ProcessEvent::Exited {
        success: true,
        stdout: String::new(),
        stderr: String::new(),
    }));
    assert_eq!(svc.next_action(), Action::RunProgram);
    let svc = svc.on_event(Event::Executed(ExecEvent::Exited {
        success: true,
        stdout: stdout.to_string(),
        stderr: String::new(),
        elapsed_nanos,
    }));
    assert!(svc.is_settled());
    assert_eq!(svc.next_action(), Action::Respond);
    svc.into_response().unwrap()
}

#[test]
fn doubling_program_succeeds_in_every_language() {
    for lang in [Language::C, Language::Cpp, Language::Rust] {
        let request = CodeRequest {
            lang,
            code: "read one integer, print its double".to_string(),
            input: "21\n".to_string(),
        };
        let plan = plan_input(&request.input);
        assert!(plan.persist_input);
        assert!(plan.redirect_stdin);
        let resp = run_success(request.lang, "42\n", 1_000);
        assert!(!resp.error);
        assert_eq!(resp.body, "42\n");
        assert_eq!(resp.time, 1_000);
    }
}

#[test]
fn success_reports_the_measured_time_exactly() {
    let resp = run_success(Language::Rust, "ok\n", 123_456_789);
    assert!(!resp.error);
    assert_eq!(resp.time, 123_456_789);
    assert!(resp.time > 0);
}

#[test]
fn syntax_error_reports_diagnostics_and_never_executes() {
    let svc = begin(Language::C).on_event(Event::SourceWritten(Ok(())));
    let svc = svc.on_event(Event::Compiled(ProcessEvent::Exited {
        success: false,
        stdout: String::new(),
        stderr: "temp.c:1:5: error: expected ';' before '}' token".to_string(),
    }));
    assert!(svc.is_settled());
    assert_eq!(svc.next_action(), Action::Respond);
    // The failed run is terminal: even a stray execution report changes
    // nothing, so the artifact's output can never reach the response.
    let svc = svc.on_event(Event::Executed(ExecEvent::Exited {
        success: true,
        stdout: "must never appear".to_string(),
        stderr: String::new(),
        elapsed_nanos: 1,
    }));
    assert_eq!(svc.next_action(), Action::Respond);
    let resp = svc.into_response().unwrap();
    assert!(resp.error);
    assert!(!resp.body.is_empty());
    assert!(resp.body.contains("error: expected ';'"));
    assert_eq!(resp.body, "temp.c:1:5: error: expected ';' before '}' token");
}

#[test]
fn compile_success_is_judged_by_exit_status_alone() {
    // A compiler that exits successfully but emits warnings must not be
    // taken for a failure, and one that succeeds silently must not either.
    let svc = begin(Language::Cpp).on_event(Event::SourceWritten(Ok(())));
    let svc = svc.on_event(Event::Compiled(ProcessEvent::Exited {
        success: true,
        stdout: String::new(),
        stderr: "warning: unused variable 'x'".to_string(),
    }));
    assert!(!svc.is_settled());
    assert_eq!(svc.next_action(), Action::RunProgram);
}

#[test]
fn nonzero_exit_reports_captured_stderr() {
    let svc = begin(Language::C)
        .on_event(Event::SourceWritten(Ok(())))
        .on_event(Event::Compiled(ProcessEvent::Exited {
            success: true,
            stdout: String::new(),
            stderr: String::new(),
        }));
    let svc = svc.on_event(Event::Executed(ExecEvent::Exited {
        success: false,
        stdout: "partial output".to_string(),
        stderr: "segmentation fault (core dumped)".to_string(),
        elapsed_nanos: 77,
    }));
    let resp = svc.into_response().unwrap();
    assert!(resp.error);
    assert_eq!(resp.body, "segmentation fault (core dumped)");
    assert_eq!(resp.time, 0);
}

#[test]
fn nonzero_exit_with_empty_stderr_synthesizes_a_message() {
    let svc = begin(Language::Rust)
        .on_event(Event::SourceWritten(Ok(())))
        .on_event(Event::Compiled(ProcessEvent::Exited {
            success: true,
            stdout: String::new(),
            stderr: String::new(),
        }));
    let svc = svc.on_event(Event::Executed(ExecEvent::Exited {
        success: false,
        stdout: String::new(),
        stderr: String::new(),
        elapsed_nanos: 5,
    }));
    let resp = svc.into_response().unwrap();
    assert!(resp.error);
    assert!(!resp.body.is_empty());
    assert_eq!(resp.body, "process exited with a failure status");
}

#[test]
fn empty_input_is_neither_persisted_nor_redirected() {
    let plan = plan_input("");
    assert!(!plan.persist_input);
    assert!(!plan.redirect_stdin);
    let plan = plan_input("21\n");
    assert!(plan.persist_input);
    assert!(plan.redirect_stdin);
}

#[test]
fn write_failure_short_circuits_the_pipeline() {
    let svc = begin(Language::Cpp)
        .on_event(Event::SourceWritten(Err("permission denied".to_string())));
    assert!(svc.is_settled());
    assert_eq!(svc.next_action(), Action::Respond);
    let resp = svc.into_response().unwrap();
    assert!(resp.error);
    assert_eq!(resp.body, "permission denied");
    assert_eq!(resp.time, 0);
}

#[test]
fn compiler_spawn_failure_is_a_resource_failure() {
    let svc = begin(Language::C)
        .on_event(Event::SourceWritten(Ok(())))
        .on_event(Event::Compiled(ProcessEvent::SpawnFailed(
            "gcc: command not found".to_string(),
        )));
    assert!(svc.is_settled());
    let resp = svc.into_response().unwrap();
    assert!(resp.error);
    assert_eq!(resp.body, "gcc: command not found");
}

#[test]
fn artifact_spawn_failure_is_reported() {
    let svc = begin(Language::C)
        .on_event(Event::SourceWritten(Ok(())))
        .on_event(Event::Compiled(ProcessEvent::Exited {
            success: true,
            stdout: String::new(),
            stderr: String::new(),
        }))
        .on_event(Event::Executed(ExecEvent::SpawnFailed(
            "no such file or directory".to_string(),
        )));
    let resp = svc.into_response().unwrap();
    assert!(resp.error);
    assert_eq!(resp.body, "no such file or directory");
}

#[test]
fn input_write_failure_is_reported() {
    let svc = begin(Language::Rust)
        .on_event(Event::SourceWritten(Ok(())))
        .on_event(Event::Compiled(ProcessEvent::Exited {
            success: true,
            stdout: String::new(),
            stderr: String::new(),
        }))
        .on_event(Event::Executed(ExecEvent::InputWriteFailed(
            "disk full".to_string(),
        )));
    let resp = svc.into_response().unwrap();
    assert!(resp.error);
    assert_eq!(resp.body, "disk full");
}

#[test]
fn unsettled_run_has_no_response() {
    let svc = CodeService::new(Language::C);
    assert!(svc.into_response().is_none());
    let svc = begin(Language::C).on_event(Event::SourceWritten(Ok(())));
    assert!(!svc.is_settled());
    assert!(svc.into_response().is_none());
}

#[test]
fn failure_carries_its_message() {
    let f = Failure::ResourceFailure("cannot create workspace".to_string());
    assert_eq!(f.message(), "cannot create workspace");
    assert_eq!(f.clone().into_message(), "cannot create workspace");
    let f = Failure::CompileFailure("bad token".to_string());
    assert_eq!(f.message(), "bad token");
}
