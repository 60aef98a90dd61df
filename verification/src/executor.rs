//! The per-request lifecycle: output capping and the decisions taken between
//! the engine calls of one run.

use vstd::prelude::*;
use vstd::string::StringExecFns;
use crate::config::default_extensions;
use crate::container::{engine_spec, ContainerManager};
use crate::errors::{ErrorKind, ErrorView, SingleloadError};
use crate::security::{SecurityValidator, MAX_SCRIPT_SIZE};
use crate::text::{ascii_bytes, bytes_of_ascii};
use crate::types::{
    default_container_config,
    ContainerConfig,
    ContainerConfigView,
    Language,
    Mount,
    MountView,
    CPU_UNIT,
    MAX_CPU_LIMIT,
    MIN_CPU_LIMIT,
};

verus! {

/// The marker appended to a stream that was cut at the output cap.
pub open spec fn truncation_suffix() -> Seq<u8> {
    ascii_bytes("... [truncated]"@)
}

/// A stream longer than `cap` bytes keeps its first `cap` bytes and gains the
/// truncation marker; a shorter one is unchanged.
pub open spec fn limit_stream(stream: Seq<u8>, cap: nat) -> Seq<u8> {
    if stream.len() > cap {
        stream.take(cap as int) + truncation_suffix()
    } else {
        stream
    }
}

/// The truncation marker is fifteen bytes long.
pub proof fn lemma_truncation_suffix_len()
    ensures
        truncation_suffix().len() == 15,
{
    reveal_strlit("... [truncated]");
}

/// What the output cap leaves of two streams: neither is longer than the
/// cap, unless the truncation flag is set; then neither is longer than the
/// cap and the marker together, and one of them is exactly that long.
pub open spec fn streams_capped(stdout: Seq<u8>, stderr: Seq<u8>, truncated: bool, cap: nat) -> bool {
    if truncated {
        &&& stdout.len() <= cap + truncation_suffix().len()
        &&& stderr.len() <= cap + truncation_suffix().len()
        &&& stdout.len() == cap + truncation_suffix().len() || stderr.len() == cap
            + truncation_suffix().len()
    } else {
        stdout.len() <= cap && stderr.len() <= cap
    }
}

/// Capping two streams leaves them within the cap, or within the cap and
/// the marker with one of them exactly that long; the flag is set exactly
/// when a stream was longer than the cap.
pub proof fn lemma_limits_cap_streams(stdout: Seq<u8>, stderr: Seq<u8>, cap: nat)
    ensures
        streams_capped(
            limit_stream(stdout, cap),
            limit_stream(stderr, cap),
            stdout.len() > cap || stderr.len() > cap,
            cap,
        ),
{
}

/// A stream that was cut keeps exactly its first `cap` bytes and ends with
/// the marker; one that was not cut is unchanged.
pub proof fn lemma_limit_stream_shape(stream: Seq<u8>, cap: nat)
    ensures
        stream.len() > cap ==> limit_stream(stream, cap).len() == cap + 15 && limit_stream(
            stream,
            cap,
        ).take(cap as int) == stream.take(cap as int) && limit_stream(stream, cap).skip(
            cap as int,
        ) == truncation_suffix(),
        stream.len() <= cap ==> limit_stream(stream, cap) == stream,
{
    lemma_truncation_suffix_len();
    if stream.len() > cap {
        let limited = limit_stream(stream, cap);
        assert(limited.take(cap as int) =~= stream.take(cap as int));
        assert(limited.skip(cap as int) =~= truncation_suffix());
    }
}

/// Caps one stream at `cap` bytes; the flag says whether bytes were dropped.
pub fn limit_output(stream: Vec<u8>, cap: u64) -> (out: (Vec<u8>, bool))
    ensures
        out.0@ == limit_stream(stream@, cap as nat),
        out.1 == (stream@.len() > cap),
{
    if stream.len() as u64 > cap {
        let mut kept = stream;
        kept.truncate(cap as usize);
        proof {
            reveal_strlit("... [truncated]");
        }
        let suffix = bytes_of_ascii("... [truncated]");
        kept.extend_from_slice(suffix);
        assert(kept@ =~= limit_stream(stream@, cap as nat));
        (kept, true)
    } else {
        (stream, false)
    }
}

/// Where the script's directory appears inside the container.
pub open spec fn workspace_target() -> Seq<char> {
    "/workspace"@
}

/// The name of the script's file in its workspace.
pub open spec fn script_name(language: Language) -> Seq<char> {
    "script"@ + language.spec_file_extension()
}

/// The path of the script inside the container.
pub open spec fn script_path_in_container(language: Language) -> Seq<char> {
    "/workspace/"@ + script_name(language)
}

/// The command line that runs the script at `script_path`: the interpreter
/// and the script, `go run` for Go, and for the compiled languages one shell
/// line that builds and runs in the scratch space.
pub open spec fn exec_command(language: Language, script_path: Seq<char>) -> Seq<Seq<char>> {
    match language {
        Language::Rust => seq![
            "bash"@,
            "-c"@,
            "cd /tmp && rustc "@ + script_path + " -o rust_binary && ./rust_binary"@,
        ],
        Language::Go => seq![language.spec_command(), "run"@, script_path],
        Language::DotNet => seq![
            "bash"@,
            "-c"@,
            "cd /tmp && dotnet new console -o app && cp "@ + script_path
                + " /tmp/app/Program.cs && cd app && dotnet run"@,
        ],
        _ => seq![language.spec_command(), script_path],
    }
}

/// The environment of every container.
pub open spec fn base_env() -> Seq<(Seq<char>, Seq<char>)> {
    seq![("HOME"@, "/tmp"@), ("USER"@, "nonroot"@), ("PATH"@, "/usr/local/bin:/usr/bin:/bin"@)]
}

/// What a language adds to the environment.
pub open spec fn language_env(language: Language) -> Seq<(Seq<char>, Seq<char>)> {
    match language {
        Language::Python => seq![("PYTHONUNBUFFERED"@, "1"@), ("PYTHONDONTWRITEBYTECODE"@, "1"@)],
        Language::Go => seq![("GOCACHE"@, "/tmp/gocache"@), ("GOPATH"@, "/tmp/gopath"@)],
        Language::DotNet => seq![
            ("DOTNET_CLI_HOME"@, "/tmp"@),
            ("DOTNET_CLI_TELEMETRY_OPTOUT"@, "1"@),
        ],
        _ => Seq::empty(),
    }
}

/// The limits that an executor applies to each of its runs.
pub struct ExecutorView {
    pub base_image: Seq<char>,
    pub timeout_secs: nat,
    pub memory_limit: nat,
    pub cpu_limit: nat,
    pub output_limit: nat,
}

/// What a run asks of its container: the executor's image and limits, the
/// given name, the workspace bound read-only at `/workspace`, the language's
/// environment and command line. Keeping the container for inspection also
/// makes its root writable; everything else is as in the default.
pub open spec fn request_config(
    e: ExecutorView,
    language: Language,
    name: Seq<char>,
    workspace: Seq<char>,
    keep_container: bool,
) -> ContainerConfigView {
    ContainerConfigView {
        image: e.base_image,
        name: name,
        memory_limit: e.memory_limit,
        cpu_limit: e.cpu_limit,
        timeout_secs: e.timeout_secs,
        read_only: !keep_container,
        debug: keep_container,
        mounts: seq![MountView { source: workspace, target: workspace_target(), read_only: true }],
        env: base_env() + language_env(language),
        command: exec_command(language, script_path_in_container(language)),
        ..default_container_config()
    }
}

/// Whatever a run asks for, its container has no network, drops every
/// capability and adds none; a run that does not keep its container also has
/// a read-only root, is removed by the engine on exit, and runs as the
/// non-root user 65532.
pub proof fn lemma_isolation_policy(
    e: ExecutorView,
    language: Language,
    name: Seq<char>,
    workspace: Seq<char>,
    keep_container: bool,
    seccomp_path: Seq<char>,
)
    ensures
        ({
            let spec = engine_spec(
                request_config(e, language, name, workspace, keep_container),
                seccomp_path,
            );
            &&& spec.network == "none"@
            &&& spec.cap_drop == seq!["ALL"@]
            &&& spec.cap_add.len() == 0
            &&& "65532:"@.is_prefix_of(spec.user)
            &&& !keep_container ==> spec.read_only_filesystem && spec.remove
        }),
{
    reveal_strlit("65532:");
    reveal_strlit("65532:65532");
    assert("65532:65532"@.subrange(0, 6) =~= "65532:"@);
}

/// No specification document has the network enabled, so none has both a
/// writable root and a network.
pub proof fn lemma_never_writable_with_network(config: ContainerConfigView, seccomp_path: Seq<char>)
    ensures
        engine_spec(config, seccomp_path).network == "none"@,
{
}

/// The limits that a caller asks for, in the units of the command line.
#[derive(Debug, Clone, Copy, PartialEq, Eq)]
pub struct RunLimits {
    /// The deadline, in seconds: 1 to 3600.
    pub timeout_secs: u64,
    /// The memory cap, in mebibytes: 32 to 8192.
    pub memory_mb: u64,
    /// The CPU share, in units of which `CPU_UNIT` make one CPU: a tenth of
    /// a CPU to four CPUs.
    pub cpu_limit: u32,
    /// The cap on each output stream, in kibibytes: 1 to 10240.
    pub max_output_kb: u64,
}

/// The complaint about the first limit that is out of range, if any.
pub open spec fn limits_violation(limits: RunLimits) -> Option<Seq<char>> {
    if limits.timeout_secs == 0 || limits.timeout_secs > 3600 {
        Some("Timeout must be between 1 and 3600 seconds"@)
    } else if limits.memory_mb < 32 || limits.memory_mb > 8192 {
        Some("Memory must be between 32 and 8192 MB"@)
    } else if limits.cpu_limit < MIN_CPU_LIMIT || limits.cpu_limit > MAX_CPU_LIMIT {
        Some("CPU must be between 0.1 and 4.0"@)
    } else if limits.max_output_kb == 0 || limits.max_output_kb > 10240 {
        Some("Max output must be between 1 and 10240 KB"@)
    } else {
        None
    }
}

impl Default for RunLimits {
    /// Thirty seconds, half a gibibyte, one CPU, one mebibyte of output.
    fn default() -> (limits: Self)
        ensures
            limits == (RunLimits {
                timeout_secs: 30,
                memory_mb: 512,
                cpu_limit: CPU_UNIT,
                max_output_kb: 1024,
            }),
            limits_violation(limits) is None,
    {
        RunLimits { timeout_secs: 30, memory_mb: 512, cpu_limit: CPU_UNIT, max_output_kb: 1024 }
    }
}

impl RunLimits {
    /// Accepts the limits when each lies in its range, and names the first
    /// that does not.
    pub fn validate(&self) -> (r: Result<(), SingleloadError>)
        ensures
            r is Ok <==> limits_violation(*self) is None,
            r matches Err(e) ==> e@ == (ErrorView {
                kind: ErrorKind::InvalidInput,
                detail: limits_violation(*self).unwrap(),
            }),
    {
        if self.timeout_secs == 0 || self.timeout_secs > 3600 {
            return Err(
                SingleloadError::InvalidInput(
                    String::from_str("Timeout must be between 1 and 3600 seconds"),
                ),
            );
        }
        if self.memory_mb < 32 || self.memory_mb > 8192 {
            return Err(
                SingleloadError::InvalidInput(String::from_str("Memory must be between 32 and 8192 MB")),
            );
        }
        if self.cpu_limit < MIN_CPU_LIMIT || self.cpu_limit > MAX_CPU_LIMIT {
            return Err(
                SingleloadError::InvalidInput(String::from_str("CPU must be between 0.1 and 4.0")),
            );
        }
        if self.max_output_kb == 0 || self.max_output_kb > 10240 {
            return Err(
                SingleloadError::InvalidInput(
                    String::from_str("Max output must be between 1 and 10240 KB"),
                ),
            );
        }
        Ok(())
    }
}

fn pair(key: &str, value: &str) -> (p: (String, String))
    ensures
        p.deep_view() == (key@, value@),
{
    (String::from_str(key), String::from_str(value))
}

/// Runs scripts under fixed limits, one container per run.
#[derive(Debug, Clone, PartialEq, Eq)]
pub struct Executor {
    pub container_manager: ContainerManager,
    /// The deadline of a run, in seconds.
    pub timeout_secs: u64,
    /// The memory cap, in bytes.
    pub memory_limit: u64,
    /// The CPU share, in units of which `CPU_UNIT` make one CPU.
    pub cpu_limit: u32,
    /// The cap on each output stream, in bytes.
    pub output_limit: u64,
    pub security_validator: SecurityValidator,
}

impl View for Executor {
    type V = ExecutorView;

    open spec fn view(&self) -> ExecutorView {
        ExecutorView {
            base_image: self.container_manager.config.base_image_name@,
            timeout_secs: self.timeout_secs as nat,
            memory_limit: self.memory_limit as nat,
            cpu_limit: self.cpu_limit as nat,
            output_limit: self.output_limit as nat,
        }
    }
}

impl Executor {
    /// An executor with the given limits, whose validator accepts the
    /// extensions of the supported languages.
    pub fn new(
        container_manager: ContainerManager,
        timeout_secs: u64,
        memory_limit: u64,
        cpu_limit: u32,
        output_limit: u64,
    ) -> (e: Self)
        ensures
            e.container_manager == container_manager,
            e.timeout_secs == timeout_secs,
            e.memory_limit == memory_limit,
            e.cpu_limit == cpu_limit,
            e.output_limit == output_limit,
            e.security_validator.allowed_extensions.deep_view() == default_extensions(),
            e.security_validator.max_file_size == MAX_SCRIPT_SIZE,
    {
        let mut allowed: Vec<String> = Vec::new();
        allowed.push(String::from_str(".py"));
        allowed.push(String::from_str(".js"));
        allowed.push(String::from_str(".php"));
        allowed.push(String::from_str(".go"));
        allowed.push(String::from_str(".rs"));
        allowed.push(String::from_str(".sh"));
        allowed.push(String::from_str(".cs"));
        assert(allowed.deep_view() =~= default_extensions());
        Executor {
            container_manager,
            timeout_secs,
            memory_limit,
            cpu_limit,
            output_limit,
            security_validator: SecurityValidator::new(allowed),
        }
    }

    /// An executor with the limits that a caller asks for, once they are
    /// found in range: mebibytes and kibibytes become bytes.
    pub fn with_limits(container_manager: ContainerManager, limits: RunLimits) -> (r: Result<
        Self,
        SingleloadError,
    >)
        ensures
            r is Ok <==> limits_violation(limits) is None,
            r matches Err(e) ==> e@ == (ErrorView {
                kind: ErrorKind::InvalidInput,
                detail: limits_violation(limits).unwrap(),
            }),
            r matches Ok(e) ==> {
                &&& e.container_manager == container_manager
                &&& e.timeout_secs == limits.timeout_secs
                &&& e.memory_limit == limits.memory_mb * 1024 * 1024
                &&& e.cpu_limit == limits.cpu_limit
                &&& e.output_limit == limits.max_output_kb * 1024
                &&& e.security_validator.allowed_extensions.deep_view() == default_extensions()
                &&& e.security_validator.max_file_size == MAX_SCRIPT_SIZE
            },
    {
        match limits.validate() {
            Err(e) => Err(e),
            Ok(_) => Ok(
                Executor::new(
                    container_manager,
                    limits.timeout_secs,
                    limits.memory_mb * 1024 * 1024,
                    limits.cpu_limit,
                    limits.max_output_kb * 1024,
                ),
            ),
        }
    }

    /// The command line that runs the script at `script_path` in its container.
    pub fn build_exec_command(&self, language: Language, script_path: &str) -> (argv: Vec<String>)
        ensures
            argv.deep_view() == exec_command(language, script_path@),
    {
        let mut argv: Vec<String> = Vec::new();
        match language {
            Language::Rust => {
                let mut line = String::from_str("cd /tmp && rustc ");
                line.append(script_path);
                line.append(" -o rust_binary && ./rust_binary");
                argv.push(String::from_str("bash"));
                argv.push(String::from_str("-c"));
                argv.push(line);
            },
            Language::Go => {
                argv.push(String::from_str(language.command()));
                argv.push(String::from_str("run"));
                argv.push(String::from_str(script_path));
            },
            Language::DotNet => {
                let mut line = String::from_str("cd /tmp && dotnet new console -o app && cp ");
                line.append(script_path);
                line.append(" /tmp/app/Program.cs && cd app && dotnet run");
                argv.push(String::from_str("bash"));
                argv.push(String::from_str("-c"));
                argv.push(line);
            },
            _ => {
                argv.push(String::from_str(language.command()));
                argv.push(String::from_str(script_path));
            },
        }
        assert(argv.deep_view() =~= exec_command(language, script_path@));
        argv
    }

    /// Caps both streams at the executor's output limit; the flag is set when
    /// either stream lost bytes.
    pub fn apply_output_limits(&self, stdout: Vec<u8>, stderr: Vec<u8>) -> (out: (
        Vec<u8>,
        Vec<u8>,
        bool,
    ))
        ensures
            out.0@ == limit_stream(stdout@, self.output_limit as nat),
            out.1@ == limit_stream(stderr@, self.output_limit as nat),
            out.2 == (stdout@.len() > self.output_limit || stderr@.len() > self.output_limit),
    {
        let (stdout_limited, stdout_cut) = limit_output(stdout, self.output_limit);
        let (stderr_limited, stderr_cut) = limit_output(stderr, self.output_limit);
        (stdout_limited, stderr_limited, stdout_cut || stderr_cut)
    }

    /// What a run asks of its container named `name`, with its script in the
    /// host directory `workspace`.
    pub fn container_config(
        &self,
        language: Language,
        name: String,
        workspace: &str,
        keep_container: bool,
    ) -> (config: ContainerConfig)
        ensures
            config@ == request_config(self@, language, name@, workspace@, keep_container),
    {
        let ghost wanted = request_config(self@, language, name@, workspace@, keep_container);
        let mut config = ContainerConfig::default();
        config.image = self.container_manager.config.base_image_name.clone();
        config.name = name;
        config.memory_limit = self.memory_limit;
        config.cpu_limit = self.cpu_limit;
        config.timeout_secs = self.timeout_secs;
        config.mounts.push(
            Mount {
                source: String::from_str(workspace),
                target: String::from_str("/workspace"),
                read_only: true,
            },
        );
        assert(config.mounts.deep_view() =~= wanted.mounts);
        let mut env: Vec<(String, String)> = Vec::new();
        env.push(pair("HOME", "/tmp"));
        env.push(pair("USER", "nonroot"));
        env.push(pair("PATH", "/usr/local/bin:/usr/bin:/bin"));
        assert(env.deep_view() =~= base_env());
        match language {
            Language::Python => {
                env.push(pair("PYTHONUNBUFFERED", "1"));
                env.push(pair("PYTHONDONTWRITEBYTECODE", "1"));
                assert(env.deep_view() =~= base_env() + language_env(language));
            },
            Language::Go => {
                env.push(pair("GOCACHE", "/tmp/gocache"));
                env.push(pair("GOPATH", "/tmp/gopath"));
                assert(env.deep_view() =~= base_env() + language_env(language));
            },
            Language::DotNet => {
                env.push(pair("DOTNET_CLI_HOME", "/tmp"));
                env.push(pair("DOTNET_CLI_TELEMETRY_OPTOUT", "1"));
                assert(env.deep_view() =~= base_env() + language_env(language));
            },
            _ => {
                assert(env.deep_view() =~= base_env() + language_env(language));
            },
        }
        config.env = env;
        config.read_only = !keep_container;
        config.debug = keep_container;
        let mut script_path = String::from_str("/workspace/");
        script_path.append("script");
        script_path.append(language.file_extension());
        assert(script_path@ =~= script_path_in_container(language));
        config.command = self.build_exec_command(language, script_path.as_str());
        assert(config@.security_opts =~= wanted.security_opts);
        assert(config@.cap_drop =~= wanted.cap_drop);
        config
    }
}

} // verus!
