//! Runs of the build tool: the result of a run that is waited for, and the
//! course of a run whose output is passed on line by line.
//!
//! The library starts no process. A caller starts it and reports what happens
//! as events; the library says what is to be published for each.

use vstd::prelude::*;
use crate::groups::copy_texts;
use crate::seqs::lemma_deep_vec;
use crate::text::{chars_of, joined, string_of};

verus! {

broadcast use lemma_deep_vec;

/// What a finished run of the build tool gave.
#[derive(Debug, Clone)]
pub struct CargoCommandResult {
    pub project_path: String,
    pub command: String,
    pub success: bool,
    pub stdout: String,
    pub stderr: String,
    pub exit_code: Option<i32>,
}

pub struct CargoCommandResultModel {
    pub project_path: Seq<char>,
    pub command: Seq<char>,
    pub success: bool,
    pub stdout: Seq<char>,
    pub stderr: Seq<char>,
    pub exit_code: Option<i32>,
}

impl DeepView for CargoCommandResult {
    type V = CargoCommandResultModel;

    open spec fn deep_view(&self) -> CargoCommandResultModel {
        CargoCommandResultModel {
            project_path: self.project_path@,
            command: self.command@,
            success: self.success,
            stdout: self.stdout@,
            stderr: self.stderr@,
            exit_code: self.exit_code,
        }
    }
}

/// What a process left behind when it ended.
#[derive(Debug, Clone)]
pub struct ProcessOutput {
    /// The exit code; `None` where the process ended without one.
    pub exit_code: Option<i32>,
    pub stdout: String,
    pub stderr: String,
}

/// A run counts as a success where the process ended with the exit code zero.
pub open spec fn is_success(exit_code: Option<i32>) -> bool {
    exit_code == Some(0i32)
}

/// Whether an exit code is that of a success.
pub fn exited_with_success(exit_code: Option<i32>) -> (r: bool)
    ensures
        r == is_success(exit_code),
{
    match exit_code {
        Some(c) => c == 0,
        None => false,
    }
}

/// The result of a run that ended: its output and exit code, and success
/// where the exit code is zero.
pub open spec fn result_of_output(
    project_path: Seq<char>,
    command: Seq<char>,
    exit_code: Option<i32>,
    stdout: Seq<char>,
    stderr: Seq<char>,
) -> CargoCommandResultModel {
    CargoCommandResultModel {
        project_path: project_path,
        command: command,
        success: is_success(exit_code),
        stdout: stdout,
        stderr: stderr,
        exit_code: exit_code,
    }
}

/// The result of a run that could not be started: a failure without exit code
/// that carries the reason in place of the error output.
pub open spec fn result_of_failure(
    project_path: Seq<char>,
    command: Seq<char>,
    reason: Seq<char>,
) -> CargoCommandResultModel {
    CargoCommandResultModel {
        project_path: project_path,
        command: command,
        success: false,
        stdout: Seq::empty(),
        stderr: "Failed to execute command: "@ + reason,
        exit_code: None,
    }
}

/// Two texts put together.
pub fn concat_text(a: &str, b: &str) -> (r: String)
    ensures
        r@ == a@ + b@,
{
    string_of(&joined(&chars_of(a), &chars_of(b)))
}

/// The result of a run: of its output where the process ran, of the reason
/// where it could not be started.
pub fn command_result(
    project_path: String,
    command: String,
    outcome: Result<ProcessOutput, String>,
) -> (r: CargoCommandResult)
    ensures
        r.deep_view() == match outcome {
            Ok(o) => result_of_output(project_path@, command@, o.exit_code, o.stdout@, o.stderr@),
            Err(e) => result_of_failure(project_path@, command@, e@),
        },
{
    match outcome {
        Ok(o) => CargoCommandResult {
            project_path,
            command,
            success: exited_with_success(o.exit_code),
            stdout: o.stdout,
            stderr: o.stderr,
            exit_code: o.exit_code,
        },
        Err(e) => CargoCommandResult {
            project_path,
            command,
            success: false,
            stdout: String::new(),
            stderr: concat_text("Failed to execute command: ", e.as_str()),
            exit_code: None,
        },
    }
}

/// The result to report where the task that ran the tool broke down.
pub fn task_failure(command: &str) -> (r: CargoCommandResult)
    ensures
        r.project_path@.len() == 0,
        r.command@ == command@,
        !r.success,
        r.stdout@.len() == 0,
        r.stderr@ == "Task panicked"@,
        r.exit_code is None,
{
    CargoCommandResult {
        project_path: String::new(),
        command: command.to_owned(),
        success: false,
        stdout: String::new(),
        stderr: "Task panicked".to_owned(),
        exit_code: None,
    }
}

/// A line of output that is passed on as it arrives.
#[derive(Debug, Clone)]
pub struct CommandOutputEvent {
    pub line: String,
    /// `stdout` or `stderr`.
    pub stream: String,
}

pub struct CommandOutputEventModel {
    pub line: Seq<char>,
    pub stream: Seq<char>,
}

impl DeepView for CommandOutputEvent {
    type V = CommandOutputEventModel;

    open spec fn deep_view(&self) -> CommandOutputEventModel {
        CommandOutputEventModel { line: self.line@, stream: self.stream@ }
    }
}

/// The end of a run whose output was passed on.
#[derive(Debug, Clone)]
pub struct CommandCompleteEvent {
    pub project_path: String,
    pub command: String,
    pub success: bool,
    pub exit_code: Option<i32>,
    pub output: Vec<String>,
    pub duration_ms: u64,
}

pub struct CommandCompleteEventModel {
    pub project_path: Seq<char>,
    pub command: Seq<char>,
    pub success: bool,
    pub exit_code: Option<i32>,
    pub output: Seq<Seq<char>>,
    pub duration_ms: u64,
}

impl DeepView for CommandCompleteEvent {
    type V = CommandCompleteEventModel;

    open spec fn deep_view(&self) -> CommandCompleteEventModel {
        CommandCompleteEventModel {
            project_path: self.project_path@,
            command: self.command@,
            success: self.success,
            exit_code: self.exit_code,
            output: self.output.deep_view(),
            duration_ms: self.duration_ms,
        }
    }
}

/// One of the two streams of a process.
#[derive(Debug, Clone, Copy, PartialEq, Eq, Structural)]
pub enum OutputStream {
    Stdout,
    Stderr,
}

/// The word that names a stream in an event.
pub open spec fn stream_tag(stream: OutputStream) -> Seq<char> {
    match stream {
        OutputStream::Stdout => "stdout"@,
        OutputStream::Stderr => "stderr"@,
    }
}

/// The word that names a stream in an event.
pub fn stream_name(stream: OutputStream) -> (r: String)
    ensures
        r@ == stream_tag(stream),
{
    match stream {
        OutputStream::Stdout => "stdout".to_owned(),
        OutputStream::Stderr => "stderr".to_owned(),
    }
}

/// How far a run has come.
#[derive(Debug, Clone, Copy, PartialEq, Eq, Structural)]
pub enum RunPhase {
    /// The process is not started yet.
    Spawning,
    /// The process runs.
    Running,
    /// The process has ended with the given exit code; its streams may still
    /// hold lines.
    Draining(Option<i32>),
    /// The run is over and its end has been published.
    Completed,
    /// The process could not be started, and that has been published.
    Failed,
}

/// A run whose output is passed on: where it stands and the lines so far.
#[derive(Debug, Clone)]
pub struct StreamingRun {
    pub project_path: String,
    pub command: String,
    pub phase: RunPhase,
    pub log: Vec<String>,
}

pub struct StreamingRunModel {
    pub project_path: Seq<char>,
    pub command: Seq<char>,
    pub phase: RunPhase,
    pub log: Seq<Seq<char>>,
}

impl DeepView for StreamingRun {
    type V = StreamingRunModel;

    open spec fn deep_view(&self) -> StreamingRunModel {
        StreamingRunModel {
            project_path: self.project_path@,
            command: self.command@,
            phase: self.phase,
            log: self.log.deep_view(),
        }
    }
}

/// What a caller reports of the process.
#[derive(Debug, Clone)]
pub enum RunEvent {
    /// The process was started.
    Spawned,
    /// The process could not be started.
    SpawnFailed { reason: String, elapsed_ms: u64 },
    /// A line arrived on one of the streams.
    Line { stream: OutputStream, text: String },
    /// The process ended.
    Exited { exit_code: Option<i32> },
    /// Both streams are read to their end.
    Drained { elapsed_ms: u64 },
}

pub enum RunEventModel {
    Spawned,
    SpawnFailed { reason: Seq<char>, elapsed_ms: u64 },
    Line { stream: OutputStream, text: Seq<char> },
    Exited { exit_code: Option<i32> },
    Drained { elapsed_ms: u64 },
}

impl DeepView for RunEvent {
    type V = RunEventModel;

    open spec fn deep_view(&self) -> RunEventModel {
        match self {
            RunEvent::Spawned => RunEventModel::Spawned,
            RunEvent::SpawnFailed { reason, elapsed_ms } => RunEventModel::SpawnFailed {
                reason: reason@,
                elapsed_ms: *elapsed_ms,
            },
            RunEvent::Line { stream, text } => RunEventModel::Line { stream: *stream, text: text@ },
            RunEvent::Exited { exit_code } => RunEventModel::Exited { exit_code: *exit_code },
            RunEvent::Drained { elapsed_ms } => RunEventModel::Drained { elapsed_ms: *elapsed_ms },
        }
    }
}

/// What is to be published.
#[derive(Debug, Clone)]
pub enum Emission {
    Output(CommandOutputEvent),
    Complete(CommandCompleteEvent),
}

pub enum EmissionModel {
    Output(CommandOutputEventModel),
    Complete(CommandCompleteEventModel),
}

impl DeepView for Emission {
    type V = EmissionModel;

    open spec fn deep_view(&self) -> EmissionModel {
        match self {
            Emission::Output(e) => EmissionModel::Output(e.deep_view()),
            Emission::Complete(e) => EmissionModel::Complete(e.deep_view()),
        }
    }
}

/// A run before its process is started.
pub open spec fn new_run(project_path: Seq<char>, command: Seq<char>) -> StreamingRunModel {
    StreamingRunModel {
        project_path: project_path,
        command: command,
        phase: RunPhase::Spawning,
        log: Seq::empty(),
    }
}

/// The line that says why a process could not be started.
pub open spec fn failure_line(reason: Seq<char>) -> Seq<char> {
    "Failed to start command: "@ + reason
}

/// The end of a run as it is published.
pub open spec fn completion(
    run: StreamingRunModel,
    exit_code: Option<i32>,
    elapsed_ms: u64,
) -> EmissionModel {
    EmissionModel::Complete(
        CommandCompleteEventModel {
            project_path: run.project_path,
            command: run.command,
            success: is_success(exit_code),
            exit_code: exit_code,
            output: run.log,
            duration_ms: elapsed_ms,
        },
    )
}

/// A line as it is published.
pub open spec fn output_of(stream: OutputStream, text: Seq<char>) -> EmissionModel {
    EmissionModel::Output(CommandOutputEventModel { line: text, stream: stream_tag(stream) })
}

/// The run with one more line in its log.
pub open spec fn with_line(run: StreamingRunModel, text: Seq<char>) -> StreamingRunModel {
    StreamingRunModel { log: run.log.push(text), ..run }
}

/// The run in another phase.
pub open spec fn in_phase(run: StreamingRunModel, phase: RunPhase) -> StreamingRunModel {
    StreamingRunModel { phase: phase, ..run }
}

/// What an event makes of a run, and what is to be published for it.
///
/// A process that cannot be started ends the run with one line that says why
/// and with the end of the run. A line that arrives while the process runs or
/// its streams are read out is put in the log and published. The end of the
/// process is remembered; once both streams are read out, the end of the run is
/// published with the whole log. An event that does not fit the phase changes
/// nothing and publishes nothing.
pub open spec fn next(run: StreamingRunModel, event: RunEventModel) -> (
    StreamingRunModel,
    Seq<EmissionModel>,
) {
    match (run.phase, event) {
        (RunPhase::Spawning, RunEventModel::Spawned) => (
            in_phase(run, RunPhase::Running),
            Seq::empty(),
        ),
        (RunPhase::Spawning, RunEventModel::SpawnFailed { reason, elapsed_ms }) => {
            let failed = in_phase(with_line(run, failure_line(reason)), RunPhase::Failed);
            (
                failed,
                seq![
                    output_of(OutputStream::Stderr, failure_line(reason)),
                    completion(failed, None, elapsed_ms),
                ],
            )
        },
        (RunPhase::Running, RunEventModel::Line { stream, text }) => (
            with_line(run, text),
            seq![output_of(stream, text)],
        ),
        (RunPhase::Draining(_), RunEventModel::Line { stream, text }) => (
            with_line(run, text),
            seq![output_of(stream, text)],
        ),
        (RunPhase::Running, RunEventModel::Exited { exit_code }) => (
            in_phase(run, RunPhase::Draining(exit_code)),
            Seq::empty(),
        ),
        (RunPhase::Draining(exit_code), RunEventModel::Drained { elapsed_ms }) => (
            in_phase(run, RunPhase::Completed),
            seq![completion(run, exit_code, elapsed_ms)],
        ),
        _ => (run, Seq::empty()),
    }
}

impl StreamingRun {
    /// A run before its process is started.
    pub fn new(project_path: String, command: String) -> (r: Self)
        ensures
            r.deep_view() == new_run(project_path@, command@),
    {
        let r = StreamingRun { project_path, command, phase: RunPhase::Spawning, log: Vec::new() };
        assert(r.log.deep_view() =~= Seq::<Seq<char>>::empty());
        r
    }

    /// The end of this run as it is published.
    pub fn completion_event(&self, exit_code: Option<i32>, elapsed_ms: u64) -> (r: Emission)
        ensures
            r.deep_view() == completion(self.deep_view(), exit_code, elapsed_ms),
    {
        Emission::Complete(
            CommandCompleteEvent {
                project_path: self.project_path.clone(),
                command: self.command.clone(),
                success: exited_with_success(exit_code),
                exit_code,
                output: copy_texts(&self.log),
                duration_ms: elapsed_ms,
            },
        )
    }

    /// Puts a line in the log and gives the event that publishes it.
    pub fn record_line(&mut self, stream: OutputStream, text: String) -> (r: Emission)
        ensures
            final(self).deep_view() == with_line(old(self).deep_view(), text@),
            r.deep_view() == output_of(stream, text@),
    {
        let ghost before = self.log.deep_view();
        let event = Emission::Output(
            CommandOutputEvent { line: text.clone(), stream: stream_name(stream) },
        );
        self.log.push(text);
        assert(self.log.deep_view() =~= before.push(text@));
        event
    }

    /// Takes an event and gives what is to be published for it.
    pub fn advance(&mut self, event: RunEvent) -> (r: Vec<Emission>)
        ensures
            (final(self).deep_view(), r.deep_view()) == next(
                old(self).deep_view(),
                event.deep_view(),
            ),
    {
        let mut out: Vec<Emission> = Vec::new();
        assert(out.deep_view() =~= Seq::<EmissionModel>::empty());
        match event {
            RunEvent::Spawned => {
                match self.phase {
                    RunPhase::Spawning => {
                        self.phase = RunPhase::Running;
                    },
                    _ => {},
                }
            },
            RunEvent::SpawnFailed { reason, elapsed_ms } => {
                match self.phase {
                    RunPhase::Spawning => {
                        let line = concat_text("Failed to start command: ", reason.as_str());
                        let first = self.record_line(OutputStream::Stderr, line);
                        self.phase = RunPhase::Failed;
                        let last = self.completion_event(None, elapsed_ms);
                        out.push(first);
                        out.push(last);
                        assert(out.deep_view() =~= seq![first.deep_view(), last.deep_view()]);
                    },
                    _ => {},
                }
            },
            RunEvent::Line { stream, text } => {
                match self.phase {
                    RunPhase::Running => {
                        let e = self.record_line(stream, text);
                        out.push(e);
                        assert(out.deep_view() =~= seq![e.deep_view()]);
                    },
                    RunPhase::Draining(_) => {
                        let e = self.record_line(stream, text);
                        out.push(e);
                        assert(out.deep_view() =~= seq![e.deep_view()]);
                    },
                    _ => {},
                }
            },
            RunEvent::Exited { exit_code } => {
                match self.phase {
                    RunPhase::Running => {
                        self.phase = RunPhase::Draining(exit_code);
                    },
                    _ => {},
                }
            },
            RunEvent::Drained { elapsed_ms } => {
                match self.phase {
                    RunPhase::Draining(exit_code) => {
                        let e = self.completion_event(exit_code, elapsed_ms);
                        self.phase = RunPhase::Completed;
                        out.push(e);
                        assert(out.deep_view() =~= seq![e.deep_view()]);
                    },
                    _ => {},
                }
            },
        }
        out
    }
}

/// What a list of events makes of a run, and all that is to be published for
/// them, in order.
pub open spec fn run_through(run: StreamingRunModel, events: Seq<RunEventModel>) -> (
    StreamingRunModel,
    Seq<EmissionModel>,
)
    decreases events.len(),
{
    if events.len() == 0 {
        (run, Seq::empty())
    } else {
        let before = run_through(run, events.drop_last());
        let step = next(before.0, events.last());
        (step.0, before.1 + step.1)
    }
}

/// A line with the stream on which it arrived.
pub struct ArrivedLine {
    pub stream: OutputStream,
    pub text: Seq<char>,
}

/// The events that report the given lines.
pub open spec fn line_events(lines: Seq<ArrivedLine>) -> Seq<RunEventModel> {
    lines.map_values(|l: ArrivedLine| RunEventModel::Line { stream: l.stream, text: l.text })
}

/// The events that publish the given lines.
pub open spec fn line_outputs(lines: Seq<ArrivedLine>) -> Seq<EmissionModel> {
    lines.map_values(|l: ArrivedLine| output_of(l.stream, l.text))
}

/// The texts of the given lines.
pub open spec fn line_texts(lines: Seq<ArrivedLine>) -> Seq<Seq<char>> {
    lines.map_values(|l: ArrivedLine| l.text)
}

/// One event taken as a list is the event taken alone.
pub proof fn lemma_run_single(run: StreamingRunModel, event: RunEventModel)
    ensures
        run_through(run, seq![event]) == next(run, event),
{
    let s = seq![event];
    assert(s.drop_last() =~= Seq::<RunEventModel>::empty());
    assert(run_through(run, s.drop_last()) == (run, Seq::<EmissionModel>::empty()));
    assert(s.last() == event);
    assert(Seq::<EmissionModel>::empty() + next(run, event).1 =~= next(run, event).1);
}

/// Events taken one list after the other are events taken as one list.
pub proof fn lemma_run_through_concat(
    run: StreamingRunModel,
    a: Seq<RunEventModel>,
    b: Seq<RunEventModel>,
)
    ensures
        run_through(run, a + b) == (
            run_through(run_through(run, a).0, b).0,
            run_through(run, a).1 + run_through(run_through(run, a).0, b).1,
        ),
    decreases b.len(),
{
    if b.len() == 0 {
        assert(a + b =~= a);
        assert(run_through(run, a).1 + Seq::<EmissionModel>::empty() =~= run_through(run, a).1);
    } else {
        lemma_run_through_concat(run, a, b.drop_last());
        assert((a + b).drop_last() =~= a + b.drop_last());
        assert((a + b).last() == b.last());
        let mid = run_through(run, a);
        let front = run_through(mid.0, b.drop_last());
        let step = next(front.0, b.last());
        assert((mid.1 + front.1) + step.1 =~= mid.1 + (front.1 + step.1));
    }
}

/// Lines that arrive while the process runs or its streams are read out are
/// all put in the log and all published, in the order in which they arrive.
pub proof fn lemma_lines_are_kept(run: StreamingRunModel, lines: Seq<ArrivedLine>)
    requires
        run.phase == RunPhase::Running || run.phase is Draining,
    ensures
        run_through(run, line_events(lines)) == (
            StreamingRunModel { log: run.log + line_texts(lines), ..run },
            line_outputs(lines),
        ),
    decreases lines.len(),
{
    if lines.len() == 0 {
        assert(run.log + line_texts(lines) =~= run.log);
        assert(line_outputs(lines) =~= Seq::<EmissionModel>::empty());
    } else {
        let front = lines.drop_last();
        lemma_lines_are_kept(run, front);
        assert(line_events(lines).drop_last() =~= line_events(front));
        assert(line_events(lines).last() == RunEventModel::Line {
            stream: lines.last().stream,
            text: lines.last().text,
        });
        assert((run.log + line_texts(front)).push(lines.last().text) =~= run.log + line_texts(
            lines,
        ));
        assert(line_outputs(front) + seq![output_of(lines.last().stream, lines.last().text)]
            =~= line_outputs(lines));
    }
}

/// The events of a run whose process starts, writes lines, ends and is read
/// out: some lines arrive before the process is seen to end, the others after.
pub open spec fn whole_run(
    early: Seq<ArrivedLine>,
    exit_code: Option<i32>,
    late: Seq<ArrivedLine>,
    elapsed_ms: u64,
) -> Seq<RunEventModel> {
    seq![RunEventModel::Spawned] + line_events(early) + seq![
        RunEventModel::Exited { exit_code: exit_code },
    ] + line_events(late) + seq![RunEventModel::Drained { elapsed_ms: elapsed_ms }]
}

/// A run whose process writes lines publishes one event for each line, in the
/// order in which the lines arrive, and then its end once. The end carries the
/// lines in that order, none twice and none left out, and it reports success
/// exactly where the exit code is zero.
pub proof fn lemma_streaming_run(
    project_path: Seq<char>,
    command: Seq<char>,
    early: Seq<ArrivedLine>,
    exit_code: Option<i32>,
    late: Seq<ArrivedLine>,
    elapsed_ms: u64,
)
    ensures
        ({
            let done = run_through(
                new_run(project_path, command),
                whole_run(early, exit_code, late, elapsed_ms),
            );
            let lines = early + late;
            &&& done.0.phase == RunPhase::Completed
            &&& done.0.log == line_texts(lines)
            &&& done.1 == line_outputs(lines).push(
                EmissionModel::Complete(
                    CommandCompleteEventModel {
                        project_path: project_path,
                        command: command,
                        success: exit_code == Some(0i32),
                        exit_code: exit_code,
                        output: line_texts(lines),
                        duration_ms: elapsed_ms,
                    },
                ),
            )
            &&& done.1.len() == lines.len() + 1
        }),
{
    let start = new_run(project_path, command);
    let e1 = seq![RunEventModel::Spawned];
    let e2 = line_events(early);
    let e3 = seq![RunEventModel::Exited { exit_code: exit_code }];
    let e4 = line_events(late);
    let e5 = seq![RunEventModel::Drained { elapsed_ms: elapsed_ms }];
    let s1 = run_through(start, e1);
    lemma_run_single(start, RunEventModel::Spawned);
    lemma_lines_are_kept(s1.0, early);
    let s2 = run_through(s1.0, e2);
    let s3 = run_through(s2.0, e3);
    lemma_run_single(s2.0, RunEventModel::Exited { exit_code: exit_code });
    lemma_lines_are_kept(s3.0, late);
    let s4 = run_through(s3.0, e4);
    let s5 = run_through(s4.0, e5);
    lemma_run_single(s4.0, RunEventModel::Drained { elapsed_ms: elapsed_ms });
    lemma_run_through_concat(start, e1, e2);
    lemma_run_through_concat(start, e1 + e2, e3);
    lemma_run_through_concat(start, e1 + e2 + e3, e4);
    lemma_run_through_concat(start, e1 + e2 + e3 + e4, e5);
    let lines = early + late;
    assert(Seq::<Seq<char>>::empty() + line_texts(early) + line_texts(late) =~= line_texts(lines));
    assert(Seq::<EmissionModel>::empty() + line_outputs(early) + Seq::<EmissionModel>::empty()
        + line_outputs(late) + seq![completion(s4.0, exit_code, elapsed_ms)] =~= line_outputs(
        lines,
    ).push(completion(s4.0, exit_code, elapsed_ms)));
}

/// A process that cannot be started publishes one line that says why and then
/// the end of the run, which is a failure without exit code.
pub proof fn lemma_failed_start(
    project_path: Seq<char>,
    command: Seq<char>,
    reason: Seq<char>,
    elapsed_ms: u64,
)
    ensures
        ({
            let done = next(
                new_run(project_path, command),
                RunEventModel::SpawnFailed { reason: reason, elapsed_ms: elapsed_ms },
            );
            &&& done.0.phase == RunPhase::Failed
            &&& done.1 == seq![
                output_of(OutputStream::Stderr, failure_line(reason)),
                EmissionModel::Complete(
                    CommandCompleteEventModel {
                        project_path: project_path,
                        command: command,
                        success: false,
                        exit_code: None,
                        output: seq![failure_line(reason)],
                        duration_ms: elapsed_ms,
                    },
                ),
            ]
        }),
{
    assert(Seq::<Seq<char>>::empty().push(failure_line(reason)) =~= seq![failure_line(reason)]);
}

} // verus!
