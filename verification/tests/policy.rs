use singleload::config::Config;
use singleload::container::{
    BuildLine, BuildPlan, ContainerManager, ContainerSummary, InspectOutcome, MountSpec, WaitOutcome,
    PIDS_LIMIT,
};
use singleload::errors::ErrorKind;
use singleload::executor::{Executor, RunLimits};
use singleload::security::SeccompProfile;
use singleload::seccomp::SeccompPolicy;
use singleload::types::{
    ContainerConfig, Language, Mount, CPU_UNIT, MAX_CPU_LIMIT, MIN_CPU_LIMIT,
};

fn strings(items: &[&str]) -> Vec<String> {
    items.iter().map(|s| s.to_string()).collect()
}

fn pairs(items: &[(&str, &str)]) -> Vec<(String, String)> {
    items.iter().map(|(k, v)| (k.to_string(), v.to_string())).collect()
}

/// A single-precision CPU limit in the library's units.
fn units(cpu: f32) -> u32 {
    (f64::from(cpu) * f64::from(CPU_UNIT)) as u32
}

fn manager() -> ContainerManager {
    ContainerManager::new(Config::default(), Ok(())).unwrap()
}

fn executor() -> Executor {
    Executor::new(manager(), 30, 512 * 1024 * 1024, CPU_UNIT, 1024 * 1024)
}

#[test]
fn default_configuration() {
    let c = Config::default();
    assert_eq!(c.base_image_name, "localhost/singleload-runner:latest");
    assert_eq!(c.podman_socket, "unix:///run/user/1000/podman/podman.sock");
    assert_eq!(c.container_prefix, "singleload");
    assert_eq!(c.workspace_dir, "/tmp/singleload");
    assert_eq!(c.max_concurrent_containers, 10);
    assert_eq!(c.default_timeout_secs, 30);
    assert_eq!(c.default_memory_mb, 512);
    assert_eq!(c.default_cpu_limit, CPU_UNIT);
    assert_eq!(c.default_output_limit_kb, 1024);
    assert_eq!(
        c.allowed_script_extensions,
        strings(&[".py", ".js", ".php", ".go", ".rs", ".sh", ".cs"])
    );
    assert_eq!(c.seccomp_profile, None);
    assert_eq!(c.validate(), Ok(()));
}

#[test]
fn configuration_from_the_environment() {
    let c = Config::load(Some("4242".to_string()), None, None);
    assert_eq!(c.podman_socket, "unix:///run/user/4242/podman/podman.sock");
    assert_eq!(c.base_image_name, "localhost/singleload-runner:latest");
    let c = Config::load(
        Some("4242".to_string()),
        Some("unix:///var/run/podman.sock".to_string()),
        Some("registry.local/runner:2".to_string()),
    );
    assert_eq!(c.podman_socket, "unix:///var/run/podman.sock");
    assert_eq!(c.base_image_name, "registry.local/runner:2");
    assert_eq!(Config::load(None, None, None), Config::default());
}

#[test]
fn configuration_out_of_range_is_refused() {
    let ok = Config::default();
    let cases: Vec<(Config, &str)> = vec![
        (
            Config { max_concurrent_containers: 0, default_timeout_secs: 0, ..ok.clone() },
            "max_concurrent_containers must be greater than 0",
        ),
        (
            Config { default_timeout_secs: 0, ..ok.clone() },
            "default_timeout_secs must be between 1 and 3600",
        ),
        (
            Config { default_timeout_secs: 3601, ..ok.clone() },
            "default_timeout_secs must be between 1 and 3600",
        ),
        (
            Config { default_memory_mb: 31, ..ok.clone() },
            "default_memory_mb must be between 32 and 8192",
        ),
        (
            Config { default_memory_mb: 8193, ..ok.clone() },
            "default_memory_mb must be between 32 and 8192",
        ),
        (
            Config { default_cpu_limit: MIN_CPU_LIMIT - 1, ..ok.clone() },
            "default_cpu_limit must be between 0.1 and 4.0",
        ),
        (
            Config { default_cpu_limit: MAX_CPU_LIMIT + 1, ..ok.clone() },
            "default_cpu_limit must be between 0.1 and 4.0",
        ),
    ];
    for (config, complaint) in cases {
        let failure = config.validate().unwrap_err();
        assert_eq!(failure.kind(), ErrorKind::InvalidInput);
        assert_eq!(failure.message(), format!("Invalid input: {}", complaint));
    }
    for config in [
        Config { default_timeout_secs: 1, default_memory_mb: 32, default_cpu_limit: MIN_CPU_LIMIT, ..ok.clone() },
        Config {
            default_timeout_secs: 3600,
            default_memory_mb: 8192,
            default_cpu_limit: MAX_CPU_LIMIT,
            max_concurrent_containers: 1,
            ..ok.clone()
        },
    ] {
        assert_eq!(config.validate(), Ok(()));
    }
}

#[test]
fn limits_in_range_are_accepted() {
    assert_eq!(RunLimits::default().validate(), Ok(()));
    let low = RunLimits { timeout_secs: 1, memory_mb: 32, cpu_limit: MIN_CPU_LIMIT, max_output_kb: 1 };
    let high =
        RunLimits { timeout_secs: 3600, memory_mb: 8192, cpu_limit: MAX_CPU_LIMIT, max_output_kb: 10240 };
    assert_eq!(low.validate(), Ok(()));
    assert_eq!(high.validate(), Ok(()));
}

#[test]
fn limits_out_of_range_are_refused() {
    let ok = RunLimits::default();
    let cases = [
        (RunLimits { timeout_secs: 0, memory_mb: 0, ..ok }, "Timeout must be between 1 and 3600 seconds"),
        (RunLimits { timeout_secs: 3601, ..ok }, "Timeout must be between 1 and 3600 seconds"),
        (RunLimits { memory_mb: 31, ..ok }, "Memory must be between 32 and 8192 MB"),
        (RunLimits { memory_mb: 8193, ..ok }, "Memory must be between 32 and 8192 MB"),
        (RunLimits { cpu_limit: MIN_CPU_LIMIT - 1, ..ok }, "CPU must be between 0.1 and 4.0"),
        (RunLimits { cpu_limit: MAX_CPU_LIMIT + 1, ..ok }, "CPU must be between 0.1 and 4.0"),
        (RunLimits { max_output_kb: 0, ..ok }, "Max output must be between 1 and 10240 KB"),
        (RunLimits { max_output_kb: 10241, ..ok }, "Max output must be between 1 and 10240 KB"),
    ];
    for (limits, complaint) in cases {
        let failure = limits.validate().unwrap_err();
        assert_eq!(failure.kind(), ErrorKind::InvalidInput);
        assert_eq!(failure.message(), format!("Invalid input: {}", complaint));
        assert!(Executor::with_limits(manager(), limits).is_err());
    }
}

#[test]
fn executor_turns_limits_into_bytes() {
    let e = Executor::with_limits(
        manager(),
        RunLimits { timeout_secs: 5, memory_mb: 64, cpu_limit: units(2.5), max_output_kb: 2 },
    )
    .ok()
    .expect("in range");
    assert_eq!(e.timeout_secs, 5);
    assert_eq!(e.memory_limit, 67108864);
    assert_eq!(e.cpu_limit, 335544320);
    assert_eq!(e.output_limit, 2048);
    assert_eq!(
        e.security_validator.allowed_extensions,
        strings(&[".py", ".js", ".php", ".go", ".rs", ".sh", ".cs"])
    );
}

#[test]
fn default_container_configuration() {
    let c = ContainerConfig::default();
    assert_eq!(c.image, "");
    assert_eq!(c.name, "");
    assert_eq!(c.memory_limit, 512 * 1024 * 1024);
    assert_eq!(c.cpu_limit, 134217728);
    assert_eq!(c.timeout_secs, 30);
    assert!(c.network_disabled);
    assert!(c.read_only);
    assert!(!c.debug);
    assert_eq!(c.user, "65532:65532");
    assert_eq!(c.security_opts, strings(&["no-new-privileges", "seccomp=unconfined"]));
    assert_eq!(c.cap_drop, strings(&["ALL"]));
    assert!(c.mounts.is_empty());
    assert!(c.env.is_empty());
    assert!(c.command.is_empty());
}

#[test]
fn command_lines_of_the_languages() {
    let e = executor();
    assert_eq!(
        e.build_exec_command(Language::Python, "/workspace/script.py"),
        strings(&["python3", "/workspace/script.py"])
    );
    assert_eq!(
        e.build_exec_command(Language::Javascript, "/workspace/script.js"),
        strings(&["node", "/workspace/script.js"])
    );
    assert_eq!(
        e.build_exec_command(Language::Php, "/workspace/script.php"),
        strings(&["php", "/workspace/script.php"])
    );
    assert_eq!(
        e.build_exec_command(Language::Go, "/workspace/script.go"),
        strings(&["go", "run", "/workspace/script.go"])
    );
    assert_eq!(
        e.build_exec_command(Language::Bash, "/workspace/script.sh"),
        strings(&["bash", "/workspace/script.sh"])
    );
    assert_eq!(
        e.build_exec_command(Language::Rust, "/workspace/script.rs"),
        strings(&[
            "bash",
            "-c",
            "cd /tmp && rustc /workspace/script.rs -o rust_binary && ./rust_binary"
        ])
    );
    assert_eq!(
        e.build_exec_command(Language::DotNet, "/workspace/script.cs"),
        strings(&[
            "bash",
            "-c",
            "cd /tmp && dotnet new console -o app && cp /workspace/script.cs /tmp/app/Program.cs && cd app && dotnet run"
        ])
    );
}

#[test]
fn request_configuration_for_python() {
    let e = Executor::new(manager(), 45, 1 << 30, 2 * CPU_UNIT, 4096);
    let c = e.container_config(Language::Python, "singleload-x".to_string(), "/tmp/ws1", false);
    assert_eq!(c.image, "localhost/singleload-runner:latest");
    assert_eq!(c.name, "singleload-x");
    assert_eq!(c.memory_limit, 1 << 30);
    assert_eq!(c.cpu_limit, 2 * CPU_UNIT);
    assert_eq!(c.timeout_secs, 45);
    assert!(c.network_disabled);
    assert!(c.read_only);
    assert!(!c.debug);
    assert_eq!(c.user, "65532:65532");
    assert_eq!(
        c.mounts,
        vec![Mount {
            source: "/tmp/ws1".to_string(),
            target: "/workspace".to_string(),
            read_only: true
        }]
    );
    assert_eq!(
        c.env,
        pairs(&[
            ("HOME", "/tmp"),
            ("USER", "nonroot"),
            ("PATH", "/usr/local/bin:/usr/bin:/bin"),
            ("PYTHONUNBUFFERED", "1"),
            ("PYTHONDONTWRITEBYTECODE", "1"),
        ])
    );
    assert_eq!(c.command, strings(&["python3", "/workspace/script.py"]));
}

#[test]
fn environment_additions_of_the_languages() {
    let e = executor();
    let base = pairs(&[("HOME", "/tmp"), ("USER", "nonroot"), ("PATH", "/usr/local/bin:/usr/bin:/bin")]);
    for language in [Language::Javascript, Language::Php, Language::Rust, Language::Bash] {
        assert_eq!(e.container_config(language, "n".to_string(), "/w", false).env, base);
    }
    let mut go = base.clone();
    go.extend(pairs(&[("GOCACHE", "/tmp/gocache"), ("GOPATH", "/tmp/gopath")]));
    assert_eq!(e.container_config(Language::Go, "n".to_string(), "/w", false).env, go);
    let mut dotnet = base.clone();
    dotnet.extend(pairs(&[("DOTNET_CLI_HOME", "/tmp"), ("DOTNET_CLI_TELEMETRY_OPTOUT", "1")]));
    assert_eq!(e.container_config(Language::DotNet, "n".to_string(), "/w", false).env, dotnet);
}

#[test]
fn kept_container_has_a_writable_root() {
    let e = executor();
    let c = e.container_config(Language::Bash, "n".to_string(), "/w", true);
    assert!(!c.read_only);
    assert!(c.debug);
    let spec = e.container_manager.create_container(c, "/tmp/p/seccomp.json");
    assert!(!spec.read_only_filesystem);
    assert!(!spec.remove);
    assert_eq!(spec.network, "none");
    assert_eq!(spec.cap_drop, strings(&["ALL"]));
}

#[test]
fn specification_of_a_run_that_does_not_keep_its_container() {
    let e = executor();
    let c = e.container_config(Language::Bash, "singleload-1".to_string(), "/tmp/ws", false);
    let spec = e.container_manager.create_container(c, "/tmp/p/seccomp.json");
    assert_eq!(spec.image, "localhost/singleload-runner:latest");
    assert_eq!(spec.name, "singleload-1");
    assert_eq!(spec.user, "65532:65532");
    assert!(spec.user.starts_with("65532:"));
    assert_eq!(spec.userns, "host");
    assert_eq!(spec.network, "none");
    assert!(spec.read_only_filesystem);
    assert!(spec.remove);
    assert_eq!(spec.memory_limit, 512 * 1024 * 1024);
    assert_eq!(spec.cpu_shares, 1024);
    assert_eq!(spec.pids_limit, 100);
    assert_eq!(PIDS_LIMIT, 100);
    assert_eq!(spec.security_opt, strings(&["no-new-privileges", "seccomp=/tmp/p/seccomp.json"]));
    assert_eq!(spec.seccomp_profile_path, "/tmp/p/seccomp.json");
    assert_eq!(spec.cap_drop, strings(&["ALL"]));
    assert!(spec.cap_add.is_empty());
    assert_eq!(
        spec.env,
        pairs(&[("HOME", "/tmp"), ("USER", "nonroot"), ("PATH", "/usr/local/bin:/usr/bin:/bin")])
    );
    assert_eq!(
        spec.mounts,
        vec![
            MountSpec::Bind {
                source: "/tmp/ws".to_string(),
                destination: "/workspace".to_string(),
                read_only: true,
                propagation: "rprivate".to_string(),
            },
            MountSpec::Tmpfs { destination: "/tmp".to_string(), size: "100m".to_string() },
        ]
    );
    assert_eq!(spec.command, strings(&["bash", "/workspace/script.sh"]));
}

#[test]
fn specification_ignores_what_the_request_says_of_network_and_capabilities() {
    let m = manager();
    let config = ContainerConfig {
        network_disabled: false,
        security_opts: strings(&["seccomp=unconfined"]),
        cap_drop: Vec::new(),
        ..ContainerConfig::default()
    };
    let spec = m.create_container(config, "/p");
    assert_eq!(spec.network, "none");
    assert_eq!(spec.cap_drop, strings(&["ALL"]));
    assert_eq!(spec.security_opt, strings(&["no-new-privileges", "seccomp=/p"]));
    assert_eq!(
        spec.mounts,
        vec![MountSpec::Tmpfs { destination: "/tmp".to_string(), size: "100m".to_string() }]
    );
}

#[test]
fn specification_keeps_every_mount_in_order() {
    let m = manager();
    let config = ContainerConfig {
        mounts: vec![
            Mount { source: "/a".to_string(), target: "/x".to_string(), read_only: true },
            Mount { source: "/b".to_string(), target: "/y".to_string(), read_only: false },
        ],
        ..ContainerConfig::default()
    };
    let spec = m.create_container(config, "/p");
    assert_eq!(
        spec.mounts,
        vec![
            MountSpec::Bind {
                source: "/a".to_string(),
                destination: "/x".to_string(),
                read_only: true,
                propagation: "rprivate".to_string(),
            },
            MountSpec::Bind {
                source: "/b".to_string(),
                destination: "/y".to_string(),
                read_only: false,
                propagation: "rprivate".to_string(),
            },
            MountSpec::Tmpfs { destination: "/tmp".to_string(), size: "100m".to_string() },
        ]
    );
}

#[test]
fn cpu_limits_are_counted_in_exact_units() {
    assert_eq!(CPU_UNIT, 1 << 27);
    assert_eq!(units(1.0), CPU_UNIT);
    assert_eq!(units(0.1), MIN_CPU_LIMIT);
    assert_eq!(units(4.0), MAX_CPU_LIMIT);
    assert_eq!(MIN_CPU_LIMIT, 13421773);
    assert_eq!(MAX_CPU_LIMIT, 4 * CPU_UNIT);
    assert!(u64::from(MIN_CPU_LIMIT) * 10 >= u64::from(CPU_UNIT));
    assert!(u64::from(MIN_CPU_LIMIT - 1) * 10 < u64::from(CPU_UNIT));
    for cpu in [0.1f32, 0.1004, 0.3333, 1.0, 2.7182817, 3.9999998, 4.0] {
        assert_eq!(f64::from(units(cpu)) / f64::from(CPU_UNIT), f64::from(cpu));
    }
}

#[test]
fn cpu_shares_are_rounded_to_the_nearest() {
    let m = manager();
    for (limit, shares) in [
        (0u32, 0u64),
        (1, 0),
        (65535, 0),
        (65536, 1),
        (units(0.1), 102),
        (units(0.1004), 103),
        (units(0.25), 256),
        (units(0.5), 512),
        (units(1.0), 1024),
        (units(1.5), 1536),
        (units(3.333), 3413),
        (units(4.0), 4096),
        (u32::MAX, 32768),
    ] {
        let config = ContainerConfig { cpu_limit: limit, ..ContainerConfig::default() };
        assert_eq!(m.create_container(config, "/p").cpu_shares, shares);
    }
}

#[test]
fn cpu_shares_agree_with_the_rounded_product() {
    let m = manager();
    let mut cpu = 0.1f32;
    while cpu <= 4.0 {
        let config = ContainerConfig { cpu_limit: units(cpu), ..ContainerConfig::default() };
        assert_eq!(m.create_container(config, "/p").cpu_shares, (cpu * 1024.0).round() as u64);
        cpu += 0.000_737;
    }
}

#[test]
fn manager_starts_with_the_default_filter() {
    let m = manager();
    assert_eq!(m.config, Config::default());
    assert_eq!(m.seccomp_profile, SeccompProfile::default());
    assert_eq!(m.seccomp_profile.content, SeccompPolicy::default().render());
}

#[test]
fn default_filter_denies_and_conditions() {
    let profile = SeccompProfile::default().content;
    assert!(profile.contains("\"defaultAction\": \"SCMP_ACT_ALLOW\""));
    assert!(profile.contains("\"defaultErrnoRet\": 1"));
    assert!(profile.contains("\"action\": \"SCMP_ACT_ERRNO\""));
    for name in [
        "acct", "add_key", "bpf", "clock_adjtime", "clock_settime", "create_module",
        "delete_module", "finit_module", "get_kernel_syms", "get_mempolicy", "init_module",
        "io_cancel", "io_destroy", "io_getevents", "io_setup", "io_submit", "ioperm", "iopl",
        "kexec_file_load", "kexec_load", "keyctl", "lookup_dcookie", "mbind", "mount",
        "move_pages", "name_to_handle_at", "nfsservctl", "open_by_handle_at", "perf_event_open",
        "personality", "pivot_root", "process_vm_readv", "process_vm_writev", "ptrace",
        "query_module", "quotactl", "reboot", "request_key", "set_mempolicy", "setns",
        "settimeofday", "stime", "swapoff", "swapon", "sysfs", "syslog", "umount", "umount2",
        "unshare", "uselib", "userfaultfd", "ustat", "vm86", "vm86old", "clone", "chmod",
        "fchmod", "fchmodat",
    ] {
        assert!(profile.contains(&format!("\"{}\"", name)));
    }
    assert!(profile.contains("\"value\": 2114060288"));
    assert!(profile.contains("\"value\": 2048"));
    assert!(profile.contains("SCMP_CMP_MASKED_EQ"));
    let document: serde_json::Value = serde_json::from_str(&profile).expect("valid JSON");
    assert_eq!(document["syscalls"].as_array().map(|rules| rules.len()), Some(3));
    assert_eq!(document["syscalls"][0]["names"].as_array().map(|names| names.len()), Some(54));
    assert_eq!(document["syscalls"][0]["errnoRet"].as_u64(), Some(1));
    assert_eq!(
        2114060288u64,
        0x0002_0000 | 0x0400_0000 | 0x0800_0000 | 0x1000_0000 | 0x2000_0000 | 0x4000_0000
            | 0x0200_0000
    );
}

#[test]
fn image_inspection_outcomes() {
    let m = manager();
    assert_eq!(m.base_image_exists(InspectOutcome::Found), Ok(true));
    assert_eq!(m.base_image_exists(InspectOutcome::NotFound), Ok(false));
    let failure = m.base_image_exists(InspectOutcome::Failed("socket closed".to_string())).unwrap_err();
    assert_eq!(failure.kind(), ErrorKind::PodmanApi);
    assert_eq!(failure.message(), "Podman API error: socket closed");
}

#[test]
fn image_is_built_when_forced_or_absent() {
    let m = manager();
    let plan = BuildPlan {
        containerfile: "Containerfile".to_string(),
        tags: vec!["localhost/singleload-runner:latest".to_string()],
        pull: true,
        remove: true,
        force_remove: true,
    };
    assert_eq!(m.install_base_image(false, false), Some(plan.clone()));
    assert_eq!(m.install_base_image(false, true), Some(plan.clone()));
    assert_eq!(m.install_base_image(true, true), Some(plan));
    assert_eq!(m.install_base_image(true, false), None);
}

#[test]
fn failed_probe_leaves_no_driver() {
    let failure = ContainerManager::new(Config::default(), Err("connection refused".to_string()))
        .unwrap_err();
    assert_eq!(failure.kind(), ErrorKind::PodmanApi);
    assert_eq!(failure.message(), "Podman API error: connection refused");
}

#[test]
fn build_output_with_an_error_aborts() {
    let m = manager();
    let fine = BuildLine { stream: Some("STEP 1/3".to_string()), error: None };
    assert_eq!(m.check_build_output(&Ok(fine)), Ok(()));
    assert_eq!(m.check_build_output(&Ok(BuildLine { stream: None, error: None })), Ok(()));
    let broken = BuildLine { stream: Some("STEP 2/3".to_string()), error: Some("no space".to_string()) };
    let failure = m.check_build_output(&Ok(broken)).unwrap_err();
    assert_eq!(failure.kind(), ErrorKind::Container);
    assert_eq!(failure.message(), "Container error: Build error: no space");
    let failure = m.check_build_output(&Err("stream reset".to_string())).unwrap_err();
    assert_eq!(failure.kind(), ErrorKind::Container);
    assert_eq!(failure.message(), "Container error: Build failed: stream reset");
}

#[test]
fn engine_answers_become_results() {
    let m = manager();
    assert_eq!(m.container_created(Ok("c0ffee".to_string())), Ok("c0ffee".to_string()));
    assert_eq!(
        m.container_created(Err("name in use".to_string())).unwrap_err().message(),
        "Container error: Failed to create container: name in use"
    );
    assert_eq!(m.start_container(Ok(())), Ok(()));
    assert_eq!(
        m.start_container(Err("oci runtime".to_string())).unwrap_err().message(),
        "Container error: Failed to start container: oci runtime"
    );
    assert_eq!(m.wait_container(WaitOutcome::Exited(3)), Ok(3));
    assert_eq!(m.wait_container(WaitOutcome::Exited(-1)), Ok(-1));
    assert_eq!(
        m.wait_container(WaitOutcome::Failed("gone".to_string())).unwrap_err().message(),
        "Container error: Container wait failed: gone"
    );
    let timeout = m.wait_container(WaitOutcome::TimedOut).unwrap_err();
    assert_eq!(timeout.kind(), ErrorKind::Timeout);
    assert_eq!(timeout.message(), "Execution timeout exceeded");
    assert_eq!(
        m.get_container_logs(Ok(b"1 out\n2 err\n".to_vec())),
        Ok((b"out".to_vec(), b"err".to_vec()))
    );
    assert_eq!(
        m.get_container_logs(Err("no such container".to_string())).unwrap_err().message(),
        "Container error: Failed to get logs: no such container"
    );
    assert_eq!(m.parse_container_logs(b"x\n"), (b"x".to_vec(), Vec::new()));
}

#[test]
fn removing_twice_is_no_error() {
    let m = manager();
    assert_eq!(m.remove_container("abc", Ok(())), None);
    assert_eq!(
        m.remove_container("abc", Err("no such container".to_string())),
        Some("Failed to remove container abc: no such container".to_string())
    );
    assert_eq!(
        m.remove_container("abc", Err("no such container".to_string())),
        Some("Failed to remove container abc: no such container".to_string())
    );
}

fn summary(id: Option<&str>, names: &[&str], created: Option<i64>) -> ContainerSummary {
    ContainerSummary { id: id.map(|s| s.to_string()), names: strings(names), created }
}

#[test]
fn stale_containers_are_picked_by_name_and_age() {
    let m = manager();
    let now: u64 = 1_700_000_000;
    let list = vec![
        summary(Some("old"), &["/singleload-1"], Some(now as i64 - 3601)),
        summary(Some("edge"), &["/singleload-2"], Some(now as i64 - 3600)),
        summary(Some("young"), &["/singleload-3"], Some(0i64.max(now as i64 - 10))),
        summary(Some("foreign"), &["/postgres"], Some(0)),
        summary(Some("noslash"), &["singleload-4"], Some(0)),
        summary(Some("nohyphen"), &["/singleload5"], Some(0)),
        summary(Some("undated"), &["/singleload-6"], None),
        summary(None, &["/singleload-7"], Some(0)),
        summary(Some("second-name"), &["/alias", "/singleload-8"], Some(0)),
        summary(Some("both"), &["/singleload-9", "/singleload-10"], Some(0)),
        summary(Some("future"), &["/singleload-11"], Some(now as i64 + 5)),
        summary(Some("ancient"), &["/singleload-12"], Some(i64::MIN)),
        summary(Some("nameless"), &[], Some(0)),
    ];
    assert_eq!(
        m.cleanup_old_containers(&list, now),
        strings(&["old", "second-name", "both", "ancient"])
    );
    assert!(m.cleanup_old_containers(&Vec::new(), now).is_empty());
    assert!(m.cleanup_old_containers(&list, 0).len() == 1);
}

#[test]
fn stale_containers_follow_the_configured_prefix() {
    let config = Config { container_prefix: "sandbox".to_string(), ..Config::default() };
    let m = ContainerManager::new(config, Ok(())).unwrap();
    let list = vec![
        summary(Some("a"), &["/singleload-1"], Some(0)),
        summary(Some("b"), &["/sandbox-1"], Some(0)),
    ];
    assert_eq!(m.cleanup_old_containers(&list, 10_000), strings(&["b"]));
}
