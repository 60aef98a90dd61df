//! The closed set of supported languages and the records exchanged with callers.

use vstd::prelude::*;
use vstd::string::StringExecFns;
use crate::errors::{ErrorKind, ErrorView, SingleloadError};
use crate::text::{chars_are, chars_of, decimal, decimal_text, lossy_text, utf8_lossy};

verus! {

/// A supported scripting or compiled language.
#[derive(Debug, Clone, Copy, PartialEq, Eq, Structural)]
pub enum Language {
    Python,
    Javascript,
    Php,
    Go,
    Rust,
    Bash,
    DotNet,
}

impl Language {
    /// The dotted file extension of a source file in this language.
    pub open spec fn spec_file_extension(self) -> Seq<char> {
        match self {
            Language::Python => ".py"@,
            Language::Javascript => ".js"@,
            Language::Php => ".php"@,
            Language::Go => ".go"@,
            Language::Rust => ".rs"@,
            Language::Bash => ".sh"@,
            Language::DotNet => ".cs"@,
        }
    }

    /// The primary toolchain command of this language.
    pub open spec fn spec_command(self) -> Seq<char> {
        match self {
            Language::Python => "python3"@,
            Language::Javascript => "node"@,
            Language::Php => "php"@,
            Language::Go => "go"@,
            Language::Rust => "rustc"@,
            Language::Bash => "bash"@,
            Language::DotNet => "dotnet"@,
        }
    }

    /// The name under which this language is asked for.
    pub open spec fn spec_name(self) -> Seq<char> {
        match self {
            Language::Python => "python"@,
            Language::Javascript => "javascript"@,
            Language::Php => "php"@,
            Language::Go => "go"@,
            Language::Rust => "rust"@,
            Language::Bash => "bash"@,
            Language::DotNet => "dotnet"@,
        }
    }

    /// The language that `name` asks for, if it names one.
    pub open spec fn named(name: Seq<char>) -> Option<Language> {
        if name == "python"@ {
            Some(Language::Python)
        } else if name == "javascript"@ {
            Some(Language::Javascript)
        } else if name == "php"@ {
            Some(Language::Php)
        } else if name == "go"@ {
            Some(Language::Go)
        } else if name == "rust"@ {
            Some(Language::Rust)
        } else if name == "bash"@ {
            Some(Language::Bash)
        } else if name == "dotnet"@ {
            Some(Language::DotNet)
        } else {
            None
        }
    }

    /// Every language is found again under its own name.
    pub proof fn lemma_name_round_trip(self)
        ensures
            Self::named(self.spec_name()) == Some(self),
    {
        reveal_strlit("python");
        reveal_strlit("javascript");
        reveal_strlit("php");
        reveal_strlit("go");
        reveal_strlit("rust");
        reveal_strlit("bash");
        reveal_strlit("dotnet");
        assert("python"@.len() == 6);
        assert("javascript"@.len() == 10);
        assert("php"@.len() == 3);
        assert("go"@.len() == 2);
        assert("rust"@.len() == 4 && "rust"@[0] == 'r');
        assert("bash"@.len() == 4 && "bash"@[0] == 'b');
        assert("dotnet"@.len() == 6 && "dotnet"@[0] == 'd' && "python"@[0] == 'p');
    }

    /// The name under which this language is asked for.
    pub fn name(&self) -> (name: &'static str)
        ensures
            name@ == self.spec_name(),
    {
        match self {
            Language::Python => "python",
            Language::Javascript => "javascript",
            Language::Php => "php",
            Language::Go => "go",
            Language::Rust => "rust",
            Language::Bash => "bash",
            Language::DotNet => "dotnet",
        }
    }

    /// Decodes the name of a language. A name outside the closed set is an
    /// error that repeats the name.
    pub fn from_name(name: &str) -> (r: Result<Language, SingleloadError>)
        ensures
            match Self::named(name@) {
                Some(language) => r == Ok::<Language, SingleloadError>(language),
                None => r matches Err(e) && e@ == (ErrorView {
                    kind: ErrorKind::UnsupportedLanguage,
                    detail: name@,
                }),
            },
    {
        let chars = chars_of(name);
        if chars_are(&chars, "python") {
            Ok(Language::Python)
        } else if chars_are(&chars, "javascript") {
            Ok(Language::Javascript)
        } else if chars_are(&chars, "php") {
            Ok(Language::Php)
        } else if chars_are(&chars, "go") {
            Ok(Language::Go)
        } else if chars_are(&chars, "rust") {
            Ok(Language::Rust)
        } else if chars_are(&chars, "bash") {
            Ok(Language::Bash)
        } else if chars_are(&chars, "dotnet") {
            Ok(Language::DotNet)
        } else {
            Err(SingleloadError::UnsupportedLanguage(String::from_str(name)))
        }
    }

    /// The dotted file extension of a source file in this language.
    pub fn file_extension(&self) -> (ext: &'static str)
        ensures
            ext@ == self.spec_file_extension(),
    {
        match self {
            Language::Python => ".py",
            Language::Javascript => ".js",
            Language::Php => ".php",
            Language::Go => ".go",
            Language::Rust => ".rs",
            Language::Bash => ".sh",
            Language::DotNet => ".cs",
        }
    }

    /// The primary toolchain command of this language.
    pub fn command(&self) -> (cmd: &'static str)
        ensures
            cmd@ == self.spec_command(),
    {
        match self {
            Language::Python => "python3",
            Language::Javascript => "node",
            Language::Php => "php",
            Language::Go => "go",
            Language::Rust => "rustc",
            Language::Bash => "bash",
            Language::DotNet => "dotnet",
        }
    }

    /// The arguments that follow the command when the toolchain is given the
    /// script at `script_path`.
    pub open spec fn spec_runner_args(self, script_path: Seq<char>) -> Seq<Seq<char>> {
        match self {
            Language::Python | Language::Javascript | Language::Php | Language::Bash => seq![
                script_path,
            ],
            Language::Go | Language::DotNet => seq!["run"@, script_path],
            Language::Rust => seq![
                script_path,
                "-o"@,
                "/tmp/rust_binary"@,
                "&&"@,
                "/tmp/rust_binary"@,
            ],
        }
    }

    /// The arguments that follow the command for the script at `script_path`.
    pub fn runner_args(&self, script_path: &str) -> (args: Vec<String>)
        ensures
            args.deep_view() == self.spec_runner_args(script_path@),
    {
        let mut args: Vec<String> = Vec::new();
        match self {
            Language::Python | Language::Javascript | Language::Php | Language::Bash => {
                args.push(String::from_str(script_path));
            },
            Language::Go | Language::DotNet => {
                args.push(String::from_str("run"));
                args.push(String::from_str(script_path));
            },
            Language::Rust => {
                args.push(String::from_str(script_path));
                args.push(String::from_str("-o"));
                args.push(String::from_str("/tmp/rust_binary"));
                args.push(String::from_str("&&"));
                args.push(String::from_str("/tmp/rust_binary"));
            },
        }
        assert(args.deep_view() =~= self.spec_runner_args(script_path@));
        args
    }
}

/// The three status words are pairwise different.
pub proof fn lemma_status_words_distinct()
    ensures
        "success"@ != "failed"@,
        "success"@ != "error"@,
        "failed"@ != "error"@,
{
    reveal_strlit("success");
    reveal_strlit("failed");
    reveal_strlit("error");
    assert("success"@.len() == 7);
    assert("failed"@.len() == 6);
    assert("error"@.len() == 5);
}

/// The outcome of one run, as handed back to the caller.
#[derive(Debug, Clone, PartialEq, Eq)]
pub struct ExecutionResult {
    /// One of `success`, `failed` and `error`.
    pub status: String,
    pub exit_code: u32,
    /// The captured standard output, after the output cap.
    pub stdout: Vec<u8>,
    /// The captured standard error, after the output cap.
    pub stderr: Vec<u8>,
    pub duration_ms: u64,
    /// Present exactly when the status is `error`.
    pub error: Option<String>,
    /// Whether either stream was shortened.
    pub truncated: bool,
}

impl ExecutionResult {
    /// The status word of a run that ended with `exit_code`.
    pub open spec fn status_of(exit_code: u32) -> Seq<char> {
        if exit_code == 0 {
            "success"@
        } else {
            "failed"@
        }
    }

    /// A record is coherent when its status is one of the three words, the
    /// status is `success` exactly for exit code 0 without an error, and an
    /// error is present exactly for the status `error`, which comes with exit
    /// code 1, empty streams and no truncation.
    pub open spec fn wf(&self) -> bool {
        &&& self.status@ == "success"@ || self.status@ == "failed"@ || self.status@ == "error"@
        &&& self.status@ == "success"@ <==> self.exit_code == 0 && self.error is None
        &&& self.status@ == "error"@ <==> self.error is Some
        &&& self.error is Some ==> self.exit_code == 1 && self.stdout@.len() == 0
            && self.stderr@.len() == 0 && !self.truncated
    }

    /// The record of a run that the engine completed with `exit_code`.
    pub fn success(
        exit_code: u32,
        stdout: Vec<u8>,
        stderr: Vec<u8>,
        duration_ms: u64,
        truncated: bool,
    ) -> (r: Self)
        ensures
            r.status@ == Self::status_of(exit_code),
            r.exit_code == exit_code,
            r.stdout@ == stdout@,
            r.stderr@ == stderr@,
            r.duration_ms == duration_ms,
            r.error is None,
            r.truncated == truncated,
            r.wf(),
    {
        proof {
            lemma_status_words_distinct();
        }
        let status = if exit_code == 0 {
            String::from_str("success")
        } else {
            String::from_str("failed")
        };
        ExecutionResult { status, exit_code, stdout, stderr, duration_ms, error: None, truncated }
    }

    /// The exit code of the process that reports this record: the record's
    /// exit code, its 32 bits read as a signed number.
    pub open spec fn spec_process_exit_code(&self) -> i32 {
        if self.exit_code < 0x8000_0000 {
            self.exit_code as i32
        } else {
            (self.exit_code - 0x1_0000_0000) as i32
        }
    }

    /// The exit code of the process that reports this record.
    pub fn process_exit_code(&self) -> (code: i32)
        ensures
            code == self.spec_process_exit_code(),
    {
        if self.exit_code < 0x8000_0000 {
            self.exit_code as i32
        } else {
            (self.exit_code as i64 - 0x1_0000_0000) as i32
        }
    }

    /// The captured standard output as text.
    pub fn stdout_text(&self) -> (text: String)
        ensures
            text@ == utf8_lossy(self.stdout@),
    {
        lossy_text(self.stdout.as_slice())
    }

    /// The captured standard error as text.
    pub fn stderr_text(&self) -> (text: String)
        ensures
            text@ == utf8_lossy(self.stderr@),
    {
        lossy_text(self.stderr.as_slice())
    }

    /// The record as lines for a reader: status, exit code and duration, then
    /// each stream that is not empty under its heading, then a notice when
    /// output was cut.
    pub open spec fn report_of(
        status: Seq<char>,
        exit_code: nat,
        duration_ms: nat,
        stdout: Seq<char>,
        stderr: Seq<char>,
        truncated: bool,
    ) -> Seq<char> {
        "Status: "@ + status + "\nExit Code: "@ + decimal(exit_code) + "\nDuration: "@ + decimal(
            duration_ms,
        ) + "ms\n"@ + (if stdout.len() > 0 {
            "\nStdout:\n"@ + stdout + "\n"@
        } else {
            Seq::empty()
        }) + (if stderr.len() > 0 {
            "\nStderr:\n"@ + stderr + "\n"@
        } else {
            Seq::empty()
        }) + (if truncated {
            "\n\u{26a0} Output was truncated due to size limits\n"@
        } else {
            Seq::empty()
        })
    }

    /// Writes the record as lines for a reader, with the two streams given
    /// as the texts to show for them.
    pub fn report_with(&self, stdout: &str, stderr: &str) -> (report: String)
        ensures
            report@ == Self::report_of(
                self.status@,
                self.exit_code as nat,
                self.duration_ms as nat,
                stdout@,
                stderr@,
                self.truncated,
            ),
    {
        let mut report = String::from_str("Status: ");
        report.append(self.status.as_str());
        report.append("\nExit Code: ");
        report.append(decimal_text(self.exit_code as u64).as_str());
        report.append("\nDuration: ");
        report.append(decimal_text(self.duration_ms).as_str());
        report.append("ms\n");
        let ghost head = report@;
        if chars_of(stdout).len() > 0 {
            report.append("\nStdout:\n");
            report.append(stdout);
            report.append("\n");
        }
        let ghost with_stdout = report@;
        if chars_of(stderr).len() > 0 {
            report.append("\nStderr:\n");
            report.append(stderr);
            report.append("\n");
        }
        let ghost with_stderr = report@;
        if self.truncated {
            report.append("\n\u{26a0} Output was truncated due to size limits\n");
        }
        proof {
            assert(with_stdout =~= head + (if stdout@.len() > 0 {
                "\nStdout:\n"@ + stdout@ + "\n"@
            } else {
                Seq::empty()
            }));
            assert(with_stderr =~= with_stdout + (if stderr@.len() > 0 {
                "\nStderr:\n"@ + stderr@ + "\n"@
            } else {
                Seq::empty()
            }));
            assert(report@ =~= with_stderr + (if self.truncated {
                "\n\u{26a0} Output was truncated due to size limits\n"@
            } else {
                Seq::empty()
            }));
        }
        report
    }

    /// Writes the record as lines for a reader, with each stream read as text.
    pub fn text_report(&self) -> (report: String)
        ensures
            report@ == Self::report_of(
                self.status@,
                self.exit_code as nat,
                self.duration_ms as nat,
                utf8_lossy(self.stdout@),
                utf8_lossy(self.stderr@),
                self.truncated,
            ),
    {
        let stdout = self.stdout_text();
        let stderr = self.stderr_text();
        self.report_with(stdout.as_str(), stderr.as_str())
    }

    /// The record of a run that could not be completed.
    pub fn error(error: String, duration_ms: u64) -> (r: Self)
        ensures
            r.status@ == "error"@,
            r.exit_code == 1,
            r.stdout@ == Seq::<u8>::empty(),
            r.stderr@ == Seq::<u8>::empty(),
            r.duration_ms == duration_ms,
            r.error matches Some(text) && text@ == error@,
            !r.truncated,
            r.wf(),
    {
        proof {
            lemma_status_words_distinct();
        }
        ExecutionResult {
            status: String::from_str("error"),
            exit_code: 1,
            stdout: Vec::new(),
            stderr: Vec::new(),
            duration_ms,
            error: Some(error),
            truncated: false,
        }
    }
}

/// One CPU, in the unit in which CPU limits are counted. The unit is small
/// enough for every single-precision number from a sixteenth of a CPU up to
/// be a whole number of units, so that a limit given as such a number is
/// taken over exactly.
pub const CPU_UNIT: u32 = 134217728;

/// The smallest CPU limit that is accepted: the least whole number of units
/// that is no less than a tenth of a CPU.
pub const MIN_CPU_LIMIT: u32 = 13421773;

/// The largest CPU limit that is accepted: four CPUs.
pub const MAX_CPU_LIMIT: u32 = 536870912;

/// The accepted limits are those from a tenth of a CPU to four CPUs.
pub proof fn lemma_cpu_limit_range(cpu_limit: nat)
    ensures
        MIN_CPU_LIMIT <= cpu_limit <==> CPU_UNIT <= 10 * cpu_limit,
        cpu_limit <= MAX_CPU_LIMIT <==> cpu_limit <= 4 * CPU_UNIT,
{
}

/// A host directory bound into the container.
#[derive(Debug, Clone, PartialEq, Eq)]
pub struct Mount {
    pub source: String,
    pub target: String,
    pub read_only: bool,
}

/// A mount as contracts see it.
pub struct MountView {
    pub source: Seq<char>,
    pub target: Seq<char>,
    pub read_only: bool,
}

impl DeepView for Mount {
    type V = MountView;

    open spec fn deep_view(&self) -> MountView {
        MountView { source: self.source@, target: self.target@, read_only: self.read_only }
    }
}

impl View for Mount {
    type V = MountView;

    open spec fn view(&self) -> MountView {
        self.deep_view()
    }
}

/// What one request asks of its container, before it is turned into the
/// engine's specification document.
#[derive(Debug, Clone, PartialEq, Eq)]
pub struct ContainerConfig {
    pub image: String,
    pub name: String,
    /// The memory cap, in bytes.
    pub memory_limit: u64,
    /// The CPU share, in units of which `CPU_UNIT` make one CPU.
    pub cpu_limit: u32,
    /// The deadline of the run, in seconds.
    pub timeout_secs: u64,
    pub network_disabled: bool,
    pub read_only: bool,
    /// Whether the container is kept after the run for inspection.
    pub debug: bool,
    pub user: String,
    pub security_opts: Vec<String>,
    pub cap_drop: Vec<String>,
    pub mounts: Vec<Mount>,
    pub env: Vec<(String, String)>,
    /// The command line that the container runs.
    pub command: Vec<String>,
}

/// A container configuration as contracts see it.
pub struct ContainerConfigView {
    pub image: Seq<char>,
    pub name: Seq<char>,
    pub memory_limit: nat,
    pub cpu_limit: nat,
    pub timeout_secs: nat,
    pub network_disabled: bool,
    pub read_only: bool,
    pub debug: bool,
    pub user: Seq<char>,
    pub security_opts: Seq<Seq<char>>,
    pub cap_drop: Seq<Seq<char>>,
    pub mounts: Seq<MountView>,
    pub env: Seq<(Seq<char>, Seq<char>)>,
    pub command: Seq<Seq<char>>,
}

impl View for ContainerConfig {
    type V = ContainerConfigView;

    open spec fn view(&self) -> ContainerConfigView {
        ContainerConfigView {
            image: self.image@,
            name: self.name@,
            memory_limit: self.memory_limit as nat,
            cpu_limit: self.cpu_limit as nat,
            timeout_secs: self.timeout_secs as nat,
            network_disabled: self.network_disabled,
            read_only: self.read_only,
            debug: self.debug,
            user: self.user@,
            security_opts: self.security_opts.deep_view(),
            cap_drop: self.cap_drop.deep_view(),
            mounts: self.mounts.deep_view(),
            env: self.env.deep_view(),
            command: self.command.deep_view(),
        }
    }
}

/// The identity that every container runs as: a fixed user that is not root.
pub open spec fn nonroot_user() -> Seq<char> {
    "65532:65532"@
}

/// The configuration that a request starts from: no image or name yet, half a
/// gibibyte of memory, one CPU, thirty seconds, no network, a read-only root,
/// the non-root user, no new privileges, every capability dropped.
pub open spec fn default_container_config() -> ContainerConfigView {
    ContainerConfigView {
        image: Seq::empty(),
        name: Seq::empty(),
        memory_limit: 536870912,
        cpu_limit: CPU_UNIT as nat,
        timeout_secs: 30,
        network_disabled: true,
        read_only: true,
        debug: false,
        user: nonroot_user(),
        security_opts: seq!["no-new-privileges"@, "seccomp=unconfined"@],
        cap_drop: seq!["ALL"@],
        mounts: Seq::empty(),
        env: Seq::empty(),
        command: Seq::empty(),
    }
}

impl Default for ContainerConfig {
    fn default() -> (c: Self)
        ensures
            c@ == default_container_config(),
    {
        let mut security_opts: Vec<String> = Vec::new();
        security_opts.push(String::from_str("no-new-privileges"));
        security_opts.push(String::from_str("seccomp=unconfined"));
        let mut cap_drop: Vec<String> = Vec::new();
        cap_drop.push(String::from_str("ALL"));
        let c = ContainerConfig {
            image: String::new(),
            name: String::new(),
            memory_limit: 536870912,
            cpu_limit: CPU_UNIT,
            timeout_secs: 30,
            network_disabled: true,
            read_only: true,
            debug: false,
            user: String::from_str("65532:65532"),
            security_opts,
            cap_drop,
            mounts: Vec::new(),
            env: Vec::new(),
            command: Vec::new(),
        };
        proof {
            let v = c@;
            let d = default_container_config();
            assert(v.security_opts =~= d.security_opts);
            assert(v.cap_drop =~= d.cap_drop);
            assert(v.mounts =~= d.mounts);
            assert(v.env =~= d.env);
            assert(v.command =~= d.command);
        }
        c
    }
}

} // verus!
