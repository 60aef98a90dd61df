//! One run as a sequence of decisions. The caller performs each action
//! against the host and the engine and hands back what happened; the
//! executor decides what comes next, until the record is finished.

use vstd::prelude::*;
use vstd::string::StringExecFns;
use crate::container::{
    engine_failure,
    engine_spec,
    unsigned_exit_code,
    ContainerSpec,
    InspectOutcome,
    WaitOutcome,
};
use crate::errors::{message_of, ErrorKind, ErrorView, SingleloadError};
use crate::executor::{
    lemma_isolation_policy,
    lemma_limits_cap_streams,
    limit_stream,
    request_config,
    script_name,
    streams_capped,
    Executor,
};
use crate::logs::{stderr_of, stdout_of};
use crate::security::{
    has_null_byte,
    is_hyphenated_id,
    path_verdict,
    warnings_for,
    PathSanitizer,
    ScriptFile,
    ScriptFileView,
};
use crate::types::{lemma_status_words_distinct, ExecutionResult, Language};

verus! {

/// A workspace on the host, ready for one run.
#[derive(Debug, Clone, PartialEq, Eq)]
pub struct Workspace {
    /// The directory that holds the script.
    pub dir: String,
    /// The file that holds the syscall filter.
    pub seccomp_path: String,
}

/// What a run has to report once its container is gone.
#[derive(Debug, Clone, PartialEq, Eq)]
pub enum Outcome {
    /// The container ran to its end.
    Completed { exit_code: u32, stdout: Vec<u8>, stderr: Vec<u8>, truncated: bool },
    /// The run failed, with this message.
    Failed { message: String },
}

/// Where a run stands. Each phase but the last waits for one event.
#[derive(Debug, Clone, PartialEq, Eq)]
pub enum Phase {
    /// Waiting for the script to be read.
    Validating,
    /// The script was accepted; waiting for its workspace.
    Prepared,
    /// The specification is built; waiting for the image inspection.
    CheckingImage { spec: ContainerSpec },
    /// Waiting for the engine to create the container.
    Creating,
    /// The container exists; waiting for it to start.
    Created { id: String },
    /// The container runs; waiting for its exit or the deadline.
    Running { id: String },
    /// The container exited; waiting for its log.
    Harvesting { id: String, exit_code: i32 },
    /// Waiting for the container's removal, with the outcome in hand.
    Removing { id: String, outcome: Outcome },
    /// The record was handed out; nothing is left to do.
    Cleaned,
}

/// One run: what was asked and where it stands.
#[derive(Debug, Clone, PartialEq, Eq)]
pub struct Run {
    pub language: Language,
    /// Whether the container is kept for inspection after the run.
    pub keep_container: bool,
    pub phase: Phase,
}

/// What the caller is to do next.
#[derive(Debug, Clone, PartialEq, Eq)]
pub enum Action {
    /// Gather what the file system says about the script, and its bytes.
    ReadScript { path: String },
    /// Create a fresh workspace that holds `content` under `script_name`
    /// and the syscall filter in a file; log the warnings.
    PrepareWorkspace {
        script_name: String,
        content: Vec<u8>,
        seccomp_profile: String,
        warnings: Vec<String>,
    },
    /// Ask the engine whether the image exists.
    InspectImage { image: String },
    /// Ask the engine to create the container.
    CreateContainer { spec: ContainerSpec },
    StartContainer { id: String },
    /// Wait for the container's exit, at most `timeout_secs` seconds; when
    /// they pass, ask the engine to stop the container and report a timeout.
    WaitContainer { id: String, timeout_secs: u64 },
    FetchLogs { id: String },
    RemoveContainer { id: String },
    /// Delete the workspace, log the warning if there is one, and hand the
    /// record to the caller of the run.
    Finish { record: ExecutionResult, warning: Option<String> },
    /// Nothing: the run is over.
    Idle,
}

/// What happened on the host or in the engine.
#[derive(Debug, PartialEq, Eq)]
#[allow(inconsistent_fields)]
pub enum Event {
    ScriptRead { file: ScriptFile, content: Result<Vec<u8>, String> },
    WorkspaceReady { workspace: Result<Workspace, String> },
    ImageInspected { outcome: InspectOutcome },
    ContainerCreated { outcome: Result<String, String> },
    ContainerStarted { outcome: Result<(), String> },
    ContainerWaited { outcome: WaitOutcome },
    LogsFetched { outcome: Result<Vec<u8>, String> },
    ContainerRemoved { outcome: Result<(), String> },
}

/// `record` is the error record with this message and duration.
pub open spec fn is_error_record(record: ExecutionResult, message: Seq<char>, elapsed_ms: u64) -> bool {
    &&& record.status@ == "error"@
    &&& record.exit_code == 1
    &&& record.stdout@ == Seq::<u8>::empty()
    &&& record.stderr@ == Seq::<u8>::empty()
    &&& record.duration_ms == elapsed_ms
    &&& !record.truncated
    &&& record.error matches Some(text) && text@ == message
}

/// `record` is the record of a completed run with these values.
pub open spec fn is_completed_record(
    record: ExecutionResult,
    exit_code: u32,
    stdout: Seq<u8>,
    stderr: Seq<u8>,
    truncated: bool,
    elapsed_ms: u64,
) -> bool {
    &&& record.status@ == ExecutionResult::status_of(exit_code)
    &&& record.exit_code == exit_code
    &&& record.stdout@ == stdout
    &&& record.stderr@ == stderr
    &&& record.duration_ms == elapsed_ms
    &&& record.truncated == truncated
    &&& record.error is None
}

/// `record` reports `outcome` with this duration.
pub open spec fn reports(record: ExecutionResult, outcome: Outcome, elapsed_ms: u64) -> bool {
    match outcome {
        Outcome::Completed { exit_code, stdout, stderr, truncated } => is_completed_record(
            record,
            exit_code,
            stdout@,
            stderr@,
            truncated,
            elapsed_ms,
        ),
        Outcome::Failed { message } => is_error_record(record, message@, elapsed_ms),
    }
}

/// The run ends here with an error record.
pub open spec fn fails_with(
    result: (Phase, Action),
    error: ErrorView,
    elapsed_ms: u64,
) -> bool {
    &&& result.0 is Cleaned
    &&& result.1 matches Action::Finish { record, warning } && warning is None && is_error_record(
        record,
        message_of(error),
        elapsed_ms,
    )
}

/// The run is given up with `error` while the container `id` exists: a kept
/// container stays and the error record is handed out at once; otherwise the
/// container's removal is asked for first.
pub open spec fn aborts_with(
    result: (Phase, Action),
    keep_container: bool,
    id: Seq<char>,
    error: ErrorView,
    elapsed_ms: u64,
) -> bool {
    if keep_container {
        fails_with(result, error, elapsed_ms)
    } else {
        &&& result.0 matches Phase::Removing { id: held, outcome: Outcome::Failed { message } }
            && held@ == id && message@ == message_of(error)
        &&& result.1 matches Action::RemoveContainer { id: target } && target@ == id
    }
}

/// The first reason to reject a script: the verdict on its path, a failed
/// read, or a zero byte in its content.
pub open spec fn script_verdict(
    allowed: Seq<Seq<char>>,
    max_size: nat,
    file: ScriptFileView,
    content: Result<Seq<u8>, Seq<char>>,
) -> Option<ErrorView> {
    match path_verdict(allowed, max_size, file) {
        Some(error) => Some(error),
        None => match content {
            Err(why) => Some(ErrorView { kind: ErrorKind::Io, detail: why }),
            Ok(bytes) => if has_null_byte(bytes) {
                Some(
                    ErrorView {
                        kind: ErrorKind::SecurityViolation,
                        detail: "Script contains null bytes"@,
                    },
                )
            } else {
                None
            },
        },
    }
}

/// The bytes of a read, or the reason it failed.
pub open spec fn read_view(content: Result<Vec<u8>, String>) -> Result<Seq<u8>, Seq<char>> {
    match content {
        Ok(bytes) => Ok(bytes@),
        Err(why) => Err(why@),
    }
}

/// The error of an event that the run's phase does not wait for.
pub open spec fn unexpected_event() -> ErrorView {
    ErrorView { kind: ErrorKind::Other, detail: "unexpected event for the phase of the run"@ }
}

fn unexpected() -> (e: SingleloadError)
    ensures
        e@ == unexpected_event(),
{
    SingleloadError::Other(String::from_str("unexpected event for the phase of the run"))
}

/// Reads the 32 bits of an exit code as an unsigned number.
pub fn exit_code_to_unsigned(code: i32) -> (unsigned: u32)
    ensures
        unsigned == unsigned_exit_code(code),
{
    if code >= 0 {
        code as u32
    } else {
        (code as i64 + 0x1_0000_0000) as u32
    }
}

/// The process that reports a completed run exits with the code that the
/// container exited with.
pub proof fn lemma_exit_code_round_trip(code: i32, record: ExecutionResult)
    requires
        record.exit_code == unsigned_exit_code(code),
    ensures
        record.spec_process_exit_code() == code,
{
}

/// A container name of this executor: the configured prefix, a hyphen and
/// an identifier in hyphenated form.
pub open spec fn is_container_name(name: Seq<char>, prefix: Seq<char>) -> bool {
    &&& name.len() == prefix.len() + 37
    &&& name.take(prefix.len() as int) == prefix
    &&& name[prefix.len() as int] == '-'
    &&& is_hyphenated_id(name.skip(prefix.len() as int + 1))
}

/// The container that a phase holds and whose removal has not been asked for.
pub open spec fn live_container(phase: Phase) -> Option<Seq<char>> {
    match phase {
        Phase::Created { id } => Some(id@),
        Phase::Running { id } => Some(id@),
        Phase::Harvesting { id, exit_code } => Some(id@),
        _ => None,
    }
}

/// Whether an action calls the engine.
pub open spec fn touches_engine(action: Action) -> bool {
    action is InspectImage || action is CreateContainer || action is StartContainer
        || action is WaitContainer || action is FetchLogs || action is RemoveContainer
}

/// The streams that a phase holds for the record are within the output cap.
pub open spec fn phase_capped(phase: Phase, cap: nat) -> bool {
    phase matches Phase::Removing {
        id,
        outcome: Outcome::Completed { exit_code, stdout, stderr, truncated },
    } ==> streams_capped(stdout@, stderr@, truncated, cap)
}

impl Executor {
    /// A record is handed out only at the end of the run; it is coherent and
    /// its duration is the time that the finishing step was given.
    pub proof fn lemma_record_is_coherent(
        &self,
        run: Run,
        event: Event,
        elapsed_ms: u64,
        result: (Phase, Action),
    )
        requires
            self.step_next(run, event, elapsed_ms, result),
        ensures
            result.1 matches Action::Finish { record, warning } ==> result.0 is Cleaned
                && record.wf() && record.duration_ms == elapsed_ms,
    {
        lemma_status_words_distinct();
    }

    /// While a run that does not keep its container holds one, no step hands
    /// out the record: the step either goes on holding the same container or
    /// asks for its removal.
    pub proof fn lemma_no_record_before_removal(
        &self,
        run: Run,
        event: Event,
        elapsed_ms: u64,
        result: (Phase, Action),
    )
        requires
            self.step_next(run, event, elapsed_ms, result),
            !run.keep_container,
            live_container(run.phase) is Some,
        ensures
            !(result.1 is Finish),
            ({
                ||| live_container(result.0) == live_container(run.phase)
                ||| {
                    &&& result.0 is Removing
                    &&& result.1 matches Action::RemoveContainer { id } && Some(id@)
                        == live_container(run.phase)
                }
            }),
    {
    }

    /// The streams of every record are within the output cap: a step from a
    /// phase whose streams are within it leads to such a phase, and a record
    /// that it hands out has such streams.
    pub proof fn lemma_records_are_capped(
        &self,
        run: Run,
        event: Event,
        elapsed_ms: u64,
        result: (Phase, Action),
    )
        requires
            self.step_next(run, event, elapsed_ms, result),
            phase_capped(run.phase, self.output_limit as nat),
        ensures
            phase_capped(result.0, self.output_limit as nat),
            result.1 matches Action::Finish { record, warning } ==> streams_capped(
                record.stdout@,
                record.stderr@,
                record.truncated,
                self.output_limit as nat,
            ),
    {
        match (run.phase, event) {
            (Phase::Harvesting { id, exit_code }, Event::LogsFetched { outcome: Ok(logs) }) => {
                lemma_limits_cap_streams(
                    stdout_of(logs@),
                    stderr_of(logs@),
                    self.output_limit as nat,
                );
            },
            _ => {},
        }
    }

    /// A script that the validator rejects ends its run at once: the step
    /// hands out an error record and asks nothing of the engine.
    pub proof fn lemma_rejected_script_never_reaches_engine(
        &self,
        run: Run,
        file: ScriptFile,
        content: Result<Vec<u8>, String>,
        elapsed_ms: u64,
        result: (Phase, Action),
    )
        requires
            run.phase is Validating,
            self.step_next(run, Event::ScriptRead { file, content }, elapsed_ms, result),
            script_verdict(
                self.security_validator.allowed_extensions.deep_view(),
                self.security_validator.max_file_size as nat,
                file@,
                read_view(content),
            ) is Some,
        ensures
            result.0 is Cleaned,
            result.1 matches Action::Finish { record, warning } && record.status@ == "error"@
                && record.exit_code == 1,
            !touches_engine(result.1),
    {
    }

    /// The container of a run that does not keep it is specified without
    /// network, with a read-only root, with every capability dropped and as
    /// the non-root user 65532.
    pub proof fn lemma_spec_follows_policy(
        &self,
        language: Language,
        workspace: Workspace,
        elapsed_ms: u64,
        result: (Phase, Action),
    )
        requires
            self.workspace_ready_next(language, false, Ok(workspace), elapsed_ms, result),
        ensures
            result.0 matches Phase::CheckingImage { spec } && spec@.network == "none"@
                && spec@.read_only_filesystem && spec@.cap_drop == seq!["ALL"@]
                && "65532:"@.is_prefix_of(spec@.user),
    {
        match result.0 {
            Phase::CheckingImage { spec } => {
                lemma_isolation_policy(
                    self@,
                    language,
                    spec@.name,
                    workspace.dir@,
                    false,
                    workspace.seccomp_path@,
                );
            },
            _ => {},
        }
    }

    /// After the script was read: a rejected script ends the run with an
    /// error record and nothing else is asked for; an accepted one gets a
    /// workspace.
    pub open spec fn script_read_next(
        &self,
        language: Language,
        file: ScriptFile,
        content: Result<Vec<u8>, String>,
        elapsed_ms: u64,
        result: (Phase, Action),
    ) -> bool {
        match script_verdict(
            self.security_validator.allowed_extensions.deep_view(),
            self.security_validator.max_file_size as nat,
            file@,
            read_view(content),
        ) {
            Some(error) => fails_with(result, error, elapsed_ms),
            None => {
                &&& result.0 is Prepared
                &&& result.1 matches Action::PrepareWorkspace {
                    script_name: name,
                    content: bytes,
                    seccomp_profile,
                    warnings,
                } && name@ == script_name(language) && bytes@ == content->Ok_0@
                    && seccomp_profile@ == self.container_manager.seccomp_profile.content@
                    && warnings.deep_view() == warnings_for(content->Ok_0@)
            },
        }
    }

    /// After the workspace was asked for: without one the run ends; with
    /// one the specification is built under a fresh name and the image is
    /// inspected.
    pub open spec fn workspace_ready_next(
        &self,
        language: Language,
        keep_container: bool,
        workspace: Result<Workspace, String>,
        elapsed_ms: u64,
        result: (Phase, Action),
    ) -> bool {
        match workspace {
            Err(why) => fails_with(
                result,
                ErrorView { kind: ErrorKind::Io, detail: why@ },
                elapsed_ms,
            ),
            Ok(ws) => {
                &&& result.0 matches Phase::CheckingImage { spec } && is_container_name(
                    spec@.name,
                    self.container_manager.config.container_prefix@,
                ) && spec@ == engine_spec(
                    request_config(self@, language, spec@.name, ws.dir@, keep_container),
                    ws.seccomp_path@,
                )
                &&& result.1 matches Action::InspectImage { image } && image@ == self@.base_image
            },
        }
    }

    /// After the image inspection: the container is created only when the
    /// image exists.
    pub open spec fn image_inspected_next(
        spec: ContainerSpec,
        outcome: InspectOutcome,
        elapsed_ms: u64,
        result: (Phase, Action),
    ) -> bool {
        match outcome {
            InspectOutcome::Found => {
                &&& result.0 is Creating
                &&& result.1 matches Action::CreateContainer { spec: document } && document@
                    == spec@
            },
            InspectOutcome::NotFound => fails_with(
                result,
                ErrorView { kind: ErrorKind::BaseImageNotFound, detail: Seq::empty() },
                elapsed_ms,
            ),
            InspectOutcome::Failed(why) => fails_with(
                result,
                ErrorView { kind: ErrorKind::PodmanApi, detail: why@ },
                elapsed_ms,
            ),
        }
    }

    /// After the creation request: the new container is started, or the run
    /// ends with the engine's failure.
    pub open spec fn container_created_next(
        outcome: Result<String, String>,
        elapsed_ms: u64,
        result: (Phase, Action),
    ) -> bool {
        match outcome {
            Ok(id) => {
                &&& result.0 matches Phase::Created { id: held } && held@ == id@
                &&& result.1 matches Action::StartContainer { id: target } && target@ == id@
            },
            Err(why) => fails_with(
                result,
                engine_failure("Failed to create container"@, why@),
                elapsed_ms,
            ),
        }
    }

    /// After the start request: the run waits for the container under the
    /// executor's deadline, or is given up.
    pub open spec fn container_started_next(
        &self,
        keep_container: bool,
        id: String,
        outcome: Result<(), String>,
        elapsed_ms: u64,
        result: (Phase, Action),
    ) -> bool {
        match outcome {
            Ok(_) => {
                &&& result.0 matches Phase::Running { id: held } && held@ == id@
                &&& result.1 matches Action::WaitContainer { id: target, timeout_secs } && target@
                    == id@ && timeout_secs == self.timeout_secs
            },
            Err(why) => aborts_with(
                result,
                keep_container,
                id@,
                engine_failure("Failed to start container"@, why@),
                elapsed_ms,
            ),
        }
    }

    /// After the wait: the log of an exited container is fetched; a failed
    /// wait and a timeout give the run up.
    pub open spec fn container_waited_next(
        keep_container: bool,
        id: String,
        outcome: WaitOutcome,
        elapsed_ms: u64,
        result: (Phase, Action),
    ) -> bool {
        match outcome {
            WaitOutcome::Exited(code) => {
                &&& result.0 matches Phase::Harvesting { id: held, exit_code } && held@ == id@
                    && exit_code == code
                &&& result.1 matches Action::FetchLogs { id: target } && target@ == id@
            },
            WaitOutcome::Failed(why) => aborts_with(
                result,
                keep_container,
                id@,
                engine_failure("Container wait failed"@, why@),
                elapsed_ms,
            ),
            WaitOutcome::TimedOut => aborts_with(
                result,
                keep_container,
                id@,
                ErrorView { kind: ErrorKind::Timeout, detail: Seq::empty() },
                elapsed_ms,
            ),
        }
    }

    /// After the log was asked for: the streams are taken apart and capped.
    /// A kept container stays and the record is handed out at once;
    /// otherwise the container's removal is asked for first.
    pub open spec fn logs_fetched_next(
        &self,
        keep_container: bool,
        id: String,
        exit_code: i32,
        outcome: Result<Vec<u8>, String>,
        elapsed_ms: u64,
        result: (Phase, Action),
    ) -> bool {
        match outcome {
            Err(why) => aborts_with(
                result,
                keep_container,
                id@,
                engine_failure("Failed to get logs"@, why@),
                elapsed_ms,
            ),
            Ok(logs) => {
                let cap = self.output_limit as nat;
                let stdout = limit_stream(stdout_of(logs@), cap);
                let stderr = limit_stream(stderr_of(logs@), cap);
                let truncated = stdout_of(logs@).len() > cap || stderr_of(logs@).len() > cap;
                if keep_container {
                    &&& result.0 is Cleaned
                    &&& result.1 matches Action::Finish { record, warning } && warning is None
                        && is_completed_record(
                        record,
                        unsigned_exit_code(exit_code),
                        stdout,
                        stderr,
                        truncated,
                        elapsed_ms,
                    )
                } else {
                    &&& result.0 matches Phase::Removing {
                        id: held,
                        outcome: Outcome::Completed {
                            exit_code: code,
                            stdout: out,
                            stderr: err,
                            truncated: cut,
                        },
                    } && held@ == id@ && code == unsigned_exit_code(exit_code) && out@ == stdout
                        && err@ == stderr && cut == truncated
                    &&& result.1 matches Action::RemoveContainer { id: target } && target@ == id@
                }
            },
        }
    }

    /// After the removal request: the record is handed out whether or not the
    /// removal succeeded; a failed removal only leaves a warning.
    pub open spec fn container_removed_next(
        id: String,
        pending: Outcome,
        outcome: Result<(), String>,
        elapsed_ms: u64,
        result: (Phase, Action),
    ) -> bool {
        &&& result.0 is Cleaned
        &&& result.1 matches Action::Finish { record, warning } && reports(
            record,
            pending,
            elapsed_ms,
        ) && match outcome {
            Ok(_) => warning is None,
            Err(why) => warning matches Some(text) && text@ == "Failed to remove container "@
                + id@ + ": "@ + why@,
        }
    }

    /// What one event leads to in one phase. An event that the phase does
    /// not wait for gives the run up; once the run is over nothing happens.
    pub open spec fn step_next(
        &self,
        run: Run,
        event: Event,
        elapsed_ms: u64,
        result: (Phase, Action),
    ) -> bool {
        match (run.phase, event) {
            (Phase::Validating, Event::ScriptRead { file, content }) => self.script_read_next(
                run.language,
                file,
                content,
                elapsed_ms,
                result,
            ),
            (Phase::Prepared, Event::WorkspaceReady { workspace }) => self.workspace_ready_next(
                run.language,
                run.keep_container,
                workspace,
                elapsed_ms,
                result,
            ),
            (
                Phase::CheckingImage { spec },
                Event::ImageInspected { outcome },
            ) => Self::image_inspected_next(spec, outcome, elapsed_ms, result),
            (Phase::Creating, Event::ContainerCreated { outcome }) => Self::container_created_next(
                outcome,
                elapsed_ms,
                result,
            ),
            (Phase::Created { id }, Event::ContainerStarted { outcome }) => self.container_started_next(
                run.keep_container,
                id,
                outcome,
                elapsed_ms,
                result,
            ),
            (Phase::Running { id }, Event::ContainerWaited { outcome }) => Self::container_waited_next(
                run.keep_container,
                id,
                outcome,
                elapsed_ms,
                result,
            ),
            (
                Phase::Harvesting { id, exit_code },
                Event::LogsFetched { outcome },
            ) => self.logs_fetched_next(
                run.keep_container,
                id,
                exit_code,
                outcome,
                elapsed_ms,
                result,
            ),
            (
                Phase::Removing { id, outcome: pending },
                Event::ContainerRemoved { outcome },
            ) => Self::container_removed_next(id, pending, outcome, elapsed_ms, result),
            (Phase::Cleaned, _) => result.0 is Cleaned && result.1 is Idle,
            (Phase::Created { id }, _) => aborts_with(
                result,
                run.keep_container,
                id@,
                unexpected_event(),
                elapsed_ms,
            ),
            (Phase::Running { id }, _) => aborts_with(
                result,
                run.keep_container,
                id@,
                unexpected_event(),
                elapsed_ms,
            ),
            (Phase::Harvesting { id, exit_code }, _) => aborts_with(
                result,
                run.keep_container,
                id@,
                unexpected_event(),
                elapsed_ms,
            ),
            _ => fails_with(result, unexpected_event(), elapsed_ms),
        }
    }

    fn fail(error: SingleloadError, elapsed_ms: u64) -> (result: (Phase, Action))
        ensures
            fails_with(result, error@, elapsed_ms),
    {
        let record = ExecutionResult::error(error.message(), elapsed_ms);
        (Phase::Cleaned, Action::Finish { record, warning: None })
    }

    fn abort(keep_container: bool, id: String, error: SingleloadError, elapsed_ms: u64) -> (result:
        (Phase, Action))
        ensures
            aborts_with(result, keep_container, id@, error@, elapsed_ms),
    {
        if keep_container {
            Self::fail(error, elapsed_ms)
        } else {
            let target = id.clone();
            (
                Phase::Removing { id, outcome: Outcome::Failed { message: error.message() } },
                Action::RemoveContainer { id: target },
            )
        }
    }

    /// Begins a run: the first thing to do is to read the script.
    pub fn run_script(&self, language: Language, script_path: &str, keep_container: bool) -> (start:
        (Run, Action))
        ensures
            start.0.language == language,
            start.0.keep_container == keep_container,
            start.0.phase is Validating,
            start.1 matches Action::ReadScript { path } && path@ == script_path@,
    {
        (
            Run { language, keep_container, phase: Phase::Validating },
            Action::ReadScript { path: String::from_str(script_path) },
        )
    }

    /// Decides what follows the reading of the script.
    pub fn on_script_read(
        &self,
        language: Language,
        file: ScriptFile,
        content: Result<Vec<u8>, String>,
        elapsed_ms: u64,
    ) -> (result: (Phase, Action))
        ensures
            self.script_read_next(language, file, content, elapsed_ms, result),
    {
        match self.security_validator.validate_script_path(&file) {
            Err(error) => {
                return Self::fail(error, elapsed_ms);
            },
            Ok(_) => {},
        }
        let bytes = match content {
            Err(why) => {
                return Self::fail(SingleloadError::Io(why), elapsed_ms);
            },
            Ok(bytes) => bytes,
        };
        let warnings = match self.security_validator.validate_script_content(bytes.as_slice()) {
            Err(error) => {
                return Self::fail(error, elapsed_ms);
            },
            Ok(warnings) => warnings,
        };
        let mut name = String::from_str("script");
        name.append(language.file_extension());
        (
            Phase::Prepared,
            Action::PrepareWorkspace {
                script_name: name,
                content: bytes,
                seccomp_profile: self.container_manager.seccomp_profile.content.clone(),
                warnings,
            },
        )
    }

    /// Decides what follows the preparation of the workspace.
    pub fn on_workspace_ready(
        &self,
        language: Language,
        keep_container: bool,
        workspace: Result<Workspace, String>,
        elapsed_ms: u64,
    ) -> (result: (Phase, Action))
        ensures
            self.workspace_ready_next(language, keep_container, workspace, elapsed_ms, result),
    {
        match workspace {
            Err(why) => Self::fail(SingleloadError::Io(why), elapsed_ms),
            Ok(ws) => {
                let name = PathSanitizer::generate_safe_container_name(
                    self.container_manager.config.container_prefix.as_str(),
                );
                let config = self.container_config(
                    language,
                    name,
                    ws.dir.as_str(),
                    keep_container,
                );
                let spec = self.container_manager.create_container(
                    config,
                    ws.seccomp_path.as_str(),
                );
                (
                    Phase::CheckingImage { spec },
                    Action::InspectImage {
                        image: self.container_manager.config.base_image_name.clone(),
                    },
                )
            },
        }
    }

    /// Decides what follows the inspection of the image.
    pub fn on_image_inspected(
        &self,
        spec: ContainerSpec,
        outcome: InspectOutcome,
        elapsed_ms: u64,
    ) -> (result: (Phase, Action))
        ensures
            Self::image_inspected_next(spec, outcome, elapsed_ms, result),
    {
        match self.container_manager.base_image_exists(outcome) {
            Ok(true) => (Phase::Creating, Action::CreateContainer { spec }),
            Ok(false) => Self::fail(SingleloadError::BaseImageNotFound, elapsed_ms),
            Err(error) => Self::fail(error, elapsed_ms),
        }
    }

    /// Decides what follows the creation request.
    pub fn on_container_created(&self, outcome: Result<String, String>, elapsed_ms: u64) -> (result:
        (Phase, Action))
        ensures
            Self::container_created_next(outcome, elapsed_ms, result),
    {
        match self.container_manager.container_created(outcome) {
            Ok(id) => {
                let target = id.clone();
                (Phase::Created { id }, Action::StartContainer { id: target })
            },
            Err(error) => Self::fail(error, elapsed_ms),
        }
    }

    /// Decides what follows the start request.
    pub fn on_container_started(
        &self,
        keep_container: bool,
        id: String,
        outcome: Result<(), String>,
        elapsed_ms: u64,
    ) -> (result: (Phase, Action))
        ensures
            self.container_started_next(keep_container, id, outcome, elapsed_ms, result),
    {
        match self.container_manager.start_container(outcome) {
            Ok(_) => {
                let target = id.clone();
                (
                    Phase::Running { id },
                    Action::WaitContainer { id: target, timeout_secs: self.timeout_secs },
                )
            },
            Err(error) => Self::abort(keep_container, id, error, elapsed_ms),
        }
    }

    /// Decides what follows the end of the wait.
    pub fn on_container_waited(
        &self,
        keep_container: bool,
        id: String,
        outcome: WaitOutcome,
        elapsed_ms: u64,
    ) -> (result: (Phase, Action))
        ensures
            Self::container_waited_next(keep_container, id, outcome, elapsed_ms, result),
    {
        match self.container_manager.wait_container(outcome) {
            Ok(exit_code) => {
                let target = id.clone();
                (Phase::Harvesting { id, exit_code }, Action::FetchLogs { id: target })
            },
            Err(error) => Self::abort(keep_container, id, error, elapsed_ms),
        }
    }

    /// Decides what follows the fetching of the log.
    pub fn on_logs_fetched(
        &self,
        keep_container: bool,
        id: String,
        exit_code: i32,
        outcome: Result<Vec<u8>, String>,
        elapsed_ms: u64,
    ) -> (result: (Phase, Action))
        ensures
            self.logs_fetched_next(keep_container, id, exit_code, outcome, elapsed_ms, result),
    {
        match self.container_manager.get_container_logs(outcome) {
            Err(error) => Self::abort(keep_container, id, error, elapsed_ms),
            Ok(streams) => {
                let (stdout, stderr, truncated) = self.apply_output_limits(streams.0, streams.1);
                let code = exit_code_to_unsigned(exit_code);
                if keep_container {
                    let record = ExecutionResult::success(
                        code,
                        stdout,
                        stderr,
                        elapsed_ms,
                        truncated,
                    );
                    (Phase::Cleaned, Action::Finish { record, warning: None })
                } else {
                    let target = id.clone();
                    (
                        Phase::Removing {
                            id,
                            outcome: Outcome::Completed { exit_code: code, stdout, stderr, truncated },
                        },
                        Action::RemoveContainer { id: target },
                    )
                }
            },
        }
    }

    /// Finishes the run once the removal was attempted.
    pub fn on_container_removed(
        &self,
        id: String,
        pending: Outcome,
        outcome: Result<(), String>,
        elapsed_ms: u64,
    ) -> (result: (Phase, Action))
        ensures
            Self::container_removed_next(id, pending, outcome, elapsed_ms, result),
    {
        let warning = self.container_manager.remove_container(id.as_str(), outcome);
        let record = match pending {
            Outcome::Completed { exit_code, stdout, stderr, truncated } => ExecutionResult::success(
                exit_code,
                stdout,
                stderr,
                elapsed_ms,
                truncated,
            ),
            Outcome::Failed { message } => ExecutionResult::error(message, elapsed_ms),
        };
        (Phase::Cleaned, Action::Finish { record, warning })
    }

    /// Takes the run one event further. `elapsed_ms` is the time since the
    /// run began; it becomes the duration of a record finished by this step.
    pub fn step(&self, run: Run, event: Event, elapsed_ms: u64) -> (result: (Run, Action))
        ensures
            result.0.language == run.language,
            result.0.keep_container == run.keep_container,
            self.step_next(run, event, elapsed_ms, (result.0.phase, result.1)),
    {
        let language = run.language;
        let keep_container = run.keep_container;
        let (phase, action) = match (run.phase, event) {
            (Phase::Validating, Event::ScriptRead { file, content }) => self.on_script_read(
                language,
                file,
                content,
                elapsed_ms,
            ),
            (Phase::Prepared, Event::WorkspaceReady { workspace }) => self.on_workspace_ready(
                language,
                keep_container,
                workspace,
                elapsed_ms,
            ),
            (
                Phase::CheckingImage { spec },
                Event::ImageInspected { outcome },
            ) => self.on_image_inspected(spec, outcome, elapsed_ms),
            (Phase::Creating, Event::ContainerCreated { outcome }) => self.on_container_created(
                outcome,
                elapsed_ms,
            ),
            (Phase::Created { id }, Event::ContainerStarted { outcome }) => self.on_container_started(
                keep_container,
                id,
                outcome,
                elapsed_ms,
            ),
            (Phase::Running { id }, Event::ContainerWaited { outcome }) => self.on_container_waited(
                keep_container,
                id,
                outcome,
                elapsed_ms,
            ),
            (
                Phase::Harvesting { id, exit_code },
                Event::LogsFetched { outcome },
            ) => self.on_logs_fetched(keep_container, id, exit_code, outcome, elapsed_ms),
            (
                Phase::Removing { id, outcome: pending },
                Event::ContainerRemoved { outcome },
            ) => self.on_container_removed(id, pending, outcome, elapsed_ms),
            (Phase::Cleaned, _) => (Phase::Cleaned, Action::Idle),
            (Phase::Created { id }, _) => Self::abort(
                keep_container,
                id,
                unexpected(),
                elapsed_ms,
            ),
            (Phase::Running { id }, _) => Self::abort(keep_container, id, unexpected(), elapsed_ms),
            (Phase::Harvesting { id, exit_code }, _) => Self::abort(
                keep_container,
                id,
                unexpected(),
                elapsed_ms,
            ),
            _ => Self::fail(unexpected(), elapsed_ms),
        };
        (Run { language, keep_container, phase }, action)
    }
}

} // verus!
