use rust_helper::execution::{
    command_result, Emission, OutputStream, ProcessOutput, RunEvent, RunPhase, StreamingRun,
};
use rust_helper::tasks::{arguments_of, command_of, CargoTask};

fn output(code: Option<i32>) -> ProcessOutput {
    ProcessOutput { exit_code: code, stdout: "out".to_string(), stderr: "err".to_string() }
}

#[test]
fn batch_success_is_exit_code_zero() {
    let ok = command_result("/p".to_string(), "build".to_string(), Ok(output(Some(0))));
    assert!(ok.success);
    assert_eq!(ok.exit_code, Some(0));
    assert_eq!(ok.stdout, "out");
    assert_eq!(ok.stderr, "err");
    assert_eq!(ok.project_path, "/p");
    assert_eq!(ok.command, "build");
    let failed = command_result("/p".to_string(), "build".to_string(), Ok(output(Some(101))));
    assert!(!failed.success);
    assert_eq!(failed.exit_code, Some(101));
    let killed = command_result("/p".to_string(), "build".to_string(), Ok(output(None)));
    assert!(!killed.success);
    assert_eq!(killed.exit_code, None);
}

#[test]
fn batch_spawn_failure_is_a_failed_result() {
    let r = command_result(
        "/p".to_string(),
        "build".to_string(),
        Err("No such file or directory (os error 2)".to_string()),
    );
    assert!(!r.success);
    assert_eq!(r.exit_code, None);
    assert_eq!(r.stdout, "");
    assert_eq!(
        r.stderr,
        "Failed to execute command: No such file or directory (os error 2)"
    );
}

fn line(stream: OutputStream, text: &str) -> RunEvent {
    RunEvent::Line { stream, text: text.to_string() }
}

#[test]
fn streaming_publishes_every_line_and_then_the_end() {
    let mut run = StreamingRun::new("/p".to_string(), "test".to_string());
    let events = vec![
        RunEvent::Spawned,
        line(OutputStream::Stderr, "Compiling"),
        line(OutputStream::Stdout, "running 2 tests"),
        line(OutputStream::Stdout, "test a ... ok"),
        RunEvent::Exited { exit_code: Some(0) },
        line(OutputStream::Stdout, "test b ... ok"),
        line(OutputStream::Stderr, "Finished"),
        RunEvent::Drained { elapsed_ms: 1234 },
    ];
    let mut published = Vec::new();
    for e in events {
        published.extend(run.advance(e));
    }
    assert_eq!(run.phase, RunPhase::Completed);
    assert_eq!(published.len(), 6);
    let mut lines = Vec::new();
    let mut stdout_lines = Vec::new();
    for e in &published[..5] {
        match e {
            Emission::Output(o) => {
                lines.push(o.line.clone());
                if o.stream == "stdout" {
                    stdout_lines.push(o.line.clone());
                } else {
                    assert_eq!(o.stream, "stderr");
                }
            }
            Emission::Complete(_) => panic!("the end comes last"),
        }
    }
    assert_eq!(
        stdout_lines,
        vec!["running 2 tests", "test a ... ok", "test b ... ok"]
    );
    match &published[5] {
        Emission::Complete(c) => {
            assert!(c.success);
            assert_eq!(c.exit_code, Some(0));
            assert_eq!(c.output, lines);
            assert_eq!(c.output.len(), 5);
            assert_eq!(c.duration_ms, 1234);
            assert_eq!(c.project_path, "/p");
            assert_eq!(c.command, "test");
        }
        Emission::Output(_) => panic!("the end comes last"),
    }
    // nothing follows the end
    assert!(run.advance(line(OutputStream::Stdout, "late")).is_empty());
    assert!(run.advance(RunEvent::Drained { elapsed_ms: 1 }).is_empty());
}

#[test]
fn streaming_failure_is_success_false() {
    for code in [Some(1), Some(-1), None] {
        let mut run = StreamingRun::new("/p".to_string(), "build".to_string());
        assert!(run.advance(RunEvent::Spawned).is_empty());
        assert!(run.advance(RunEvent::Exited { exit_code: code }).is_empty());
        let end = run.advance(RunEvent::Drained { elapsed_ms: 5 });
        assert_eq!(end.len(), 1);
        match &end[0] {
            Emission::Complete(c) => {
                assert!(!c.success);
                assert_eq!(c.exit_code, code);
                assert!(c.output.is_empty());
            }
            _ => panic!("one end"),
        }
    }
}

#[test]
fn streaming_spawn_failure_publishes_line_and_end() {
    let mut run = StreamingRun::new("/p".to_string(), "build".to_string());
    let published = run.advance(RunEvent::SpawnFailed {
        reason: "permission denied".to_string(),
        elapsed_ms: 3,
    });
    assert_eq!(run.phase, RunPhase::Failed);
    assert_eq!(published.len(), 2);
    match &published[0] {
        Emission::Output(o) => {
            assert_eq!(o.line, "Failed to start command: permission denied");
            assert_eq!(o.stream, "stderr");
        }
        _ => panic!("a line first"),
    }
    match &published[1] {
        Emission::Complete(c) => {
            assert!(!c.success);
            assert_eq!(c.exit_code, None);
            assert_eq!(c.output, vec!["Failed to start command: permission denied"]);
            assert_eq!(c.duration_ms, 3);
        }
        _ => panic!("the end last"),
    }
}

#[test]
fn events_out_of_turn_change_nothing() {
    let mut run = StreamingRun::new("/p".to_string(), "build".to_string());
    assert!(run.advance(line(OutputStream::Stdout, "early")).is_empty());
    assert!(run.advance(RunEvent::Drained { elapsed_ms: 1 }).is_empty());
    assert!(run.advance(RunEvent::Exited { exit_code: Some(0) }).is_empty());
    assert_eq!(run.phase, RunPhase::Spawning);
    assert!(run.log.is_empty());
}

#[test]
fn tasks_carry_their_fixed_arguments() {
    assert_eq!(command_of(CargoTask::FmtCheck), "fmt");
    assert_eq!(arguments_of(CargoTask::FmtCheck), vec!["--", "--check"]);
    assert_eq!(arguments_of(CargoTask::Clippy), vec!["--", "-D", "warnings"]);
    assert_eq!(command_of(CargoTask::Build { release: true }), "build");
    assert_eq!(arguments_of(CargoTask::Build { release: true }), vec!["--release"]);
    assert!(arguments_of(CargoTask::Build { release: false }).is_empty());
    assert_eq!(arguments_of(CargoTask::Doc), vec!["--no-deps"]);
    assert_eq!(command_of(CargoTask::Tree), "tree");
    assert!(arguments_of(CargoTask::Test).is_empty());
}
