//! The process-wide configuration: names, defaults and their accepted ranges.

use vstd::prelude::*;
use vstd::string::StringExecFns;
use crate::errors::{ErrorKind, ErrorView, SingleloadError};
use crate::text::option_text;
use crate::types::{CPU_UNIT, MAX_CPU_LIMIT, MIN_CPU_LIMIT};

verus! {

/// The settings of the process, read once at start-up.
#[derive(Debug, Clone, PartialEq, Eq)]
pub struct Config {
    pub base_image_name: String,
    pub podman_socket: String,
    pub container_prefix: String,
    pub workspace_dir: String,
    pub max_concurrent_containers: usize,
    pub default_timeout_secs: u64,
    pub default_memory_mb: u64,
    /// The default CPU share, in units of which `CPU_UNIT` make one CPU.
    pub default_cpu_limit: u32,
    pub default_output_limit_kb: u64,
    pub allowed_script_extensions: Vec<String>,
    pub seccomp_profile: Option<String>,
}

/// A configuration as contracts see it.
pub struct ConfigView {
    pub base_image_name: Seq<char>,
    pub podman_socket: Seq<char>,
    pub container_prefix: Seq<char>,
    pub workspace_dir: Seq<char>,
    pub max_concurrent_containers: nat,
    pub default_timeout_secs: nat,
    pub default_memory_mb: nat,
    pub default_cpu_limit: nat,
    pub default_output_limit_kb: nat,
    pub allowed_script_extensions: Seq<Seq<char>>,
    pub seccomp_profile: Option<Seq<char>>,
}

impl View for Config {
    type V = ConfigView;

    open spec fn view(&self) -> ConfigView {
        ConfigView {
            base_image_name: self.base_image_name@,
            podman_socket: self.podman_socket@,
            container_prefix: self.container_prefix@,
            workspace_dir: self.workspace_dir@,
            max_concurrent_containers: self.max_concurrent_containers as nat,
            default_timeout_secs: self.default_timeout_secs as nat,
            default_memory_mb: self.default_memory_mb as nat,
            default_cpu_limit: self.default_cpu_limit as nat,
            default_output_limit_kb: self.default_output_limit_kb as nat,
            allowed_script_extensions: self.allowed_script_extensions.deep_view(),
            seccomp_profile: option_text(self.seccomp_profile),
        }
    }
}

/// The engine socket of the user with the given numeric id.
pub open spec fn socket_for_uid(uid: Seq<char>) -> Seq<char> {
    "unix:///run/user/"@ + uid + "/podman/podman.sock"@
}

/// The extensions that scripts may have unless configured otherwise.
pub open spec fn default_extensions() -> Seq<Seq<char>> {
    seq![".py"@, ".js"@, ".php"@, ".go"@, ".rs"@, ".sh"@, ".cs"@]
}

/// The configuration that results from the three recognized environment
/// values, each of which may be absent.
pub open spec fn loaded_config(
    uid: Option<Seq<char>>,
    socket: Option<Seq<char>>,
    image: Option<Seq<char>>,
) -> ConfigView {
    ConfigView {
        base_image_name: match image {
            Some(name) => name,
            None => "localhost/singleload-runner:latest"@,
        },
        podman_socket: match socket {
            Some(path) => path,
            None => socket_for_uid(
                match uid {
                    Some(id) => id,
                    None => "1000"@,
                },
            ),
        },
        container_prefix: "singleload"@,
        workspace_dir: "/tmp/singleload"@,
        max_concurrent_containers: 10,
        default_timeout_secs: 30,
        default_memory_mb: 512,
        default_cpu_limit: CPU_UNIT as nat,
        default_output_limit_kb: 1024,
        allowed_script_extensions: default_extensions(),
        seccomp_profile: None,
    }
}

/// The complaint about the first setting that is out of range, if any.
pub open spec fn first_violation(c: ConfigView) -> Option<Seq<char>> {
    if c.max_concurrent_containers == 0 {
        Some("max_concurrent_containers must be greater than 0"@)
    } else if c.default_timeout_secs == 0 || c.default_timeout_secs > 3600 {
        Some("default_timeout_secs must be between 1 and 3600"@)
    } else if c.default_memory_mb < 32 || c.default_memory_mb > 8192 {
        Some("default_memory_mb must be between 32 and 8192"@)
    } else if c.default_cpu_limit < MIN_CPU_LIMIT || c.default_cpu_limit > MAX_CPU_LIMIT {
        Some("default_cpu_limit must be between 0.1 and 4.0"@)
    } else {
        None
    }
}

impl Default for Config {
    /// The configuration when the environment overrides nothing.
    fn default() -> (c: Self)
        ensures
            c@ == loaded_config(None, None, None),
    {
        Config::load(None, None, None)
    }
}

impl Config {
    /// Builds the configuration from the values of the environment variables
    /// `UID`, `SINGLELOAD_PODMAN_SOCKET` and `SINGLELOAD_BASE_IMAGE`.
    pub fn load(uid: Option<String>, socket: Option<String>, image: Option<String>) -> (c: Self)
        ensures
            c@ == loaded_config(
                option_text(uid),
                option_text(socket),
                option_text(image),
            ),
    {
        let base_image_name = match image {
            Some(name) => name,
            None => String::from_str("localhost/singleload-runner:latest"),
        };
        let podman_socket = match socket {
            Some(path) => path,
            None => {
                let mut path = String::from_str("unix:///run/user/");
                match &uid {
                    Some(id) => path.append(id.as_str()),
                    None => path.append("1000"),
                }
                path.append("/podman/podman.sock");
                path
            },
        };
        let mut extensions: Vec<String> = Vec::new();
        extensions.push(String::from_str(".py"));
        extensions.push(String::from_str(".js"));
        extensions.push(String::from_str(".php"));
        extensions.push(String::from_str(".go"));
        extensions.push(String::from_str(".rs"));
        extensions.push(String::from_str(".sh"));
        extensions.push(String::from_str(".cs"));
        assert(extensions.deep_view() =~= default_extensions());
        Config {
            base_image_name,
            podman_socket,
            container_prefix: String::from_str("singleload"),
            workspace_dir: String::from_str("/tmp/singleload"),
            max_concurrent_containers: 10,
            default_timeout_secs: 30,
            default_memory_mb: 512,
            default_cpu_limit: CPU_UNIT,
            default_output_limit_kb: 1024,
            allowed_script_extensions: extensions,
            seccomp_profile: None,
        }
    }

    /// Accepts the configuration when every default lies in its range, and
    /// names the first setting that does not.
    pub fn validate(&self) -> (r: Result<(), SingleloadError>)
        ensures
            r is Ok <==> first_violation(self@) is None,
            r matches Err(e) ==> e@ == (ErrorView {
                kind: ErrorKind::InvalidInput,
                detail: first_violation(self@).unwrap(),
            }),
    {
        if self.max_concurrent_containers == 0 {
            return Err(
                SingleloadError::InvalidInput(
                    String::from_str("max_concurrent_containers must be greater than 0"),
                ),
            );
        }
        if self.default_timeout_secs == 0 || self.default_timeout_secs > 3600 {
            return Err(
                SingleloadError::InvalidInput(
                    String::from_str("default_timeout_secs must be between 1 and 3600"),
                ),
            );
        }
        if self.default_memory_mb < 32 || self.default_memory_mb > 8192 {
            return Err(
                SingleloadError::InvalidInput(
                    String::from_str("default_memory_mb must be between 32 and 8192"),
                ),
            );
        }
        if self.default_cpu_limit < MIN_CPU_LIMIT || self.default_cpu_limit > MAX_CPU_LIMIT {
            return Err(
                SingleloadError::InvalidInput(
                    String::from_str("default_cpu_limit must be between 0.1 and 4.0"),
                ),
            );
        }
        Ok(())
    }
}

} // verus!
