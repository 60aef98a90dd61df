//! The container driver's decisions: the specification document handed to the
//! engine, what each engine answer means, and which containers are stale.

use vstd::prelude::*;
use vstd::string::StringExecFns;
use crate::config::Config;
use crate::errors::{ErrorKind, ErrorView, SingleloadError};
use crate::logs::{split_streams, stderr_of, stdout_of};
use crate::seccomp::default_profile_text;
use crate::security::SeccompProfile;
use crate::text::{chars_of, chars_start_with, option_text};
use crate::types::{ContainerConfig, ContainerConfigView, MountView, CPU_UNIT};

verus! {

/// The number of processes that a container may hold.
pub const PIDS_LIMIT: u64 = 100;

/// The age, in seconds, beyond which a leftover container is removed.
pub const STALE_AFTER_SECS: u64 = 3600;

/// One mount of the engine's specification document.
#[derive(Debug, Clone, PartialEq, Eq)]
pub enum MountSpec {
    /// A host directory bound into the container.
    Bind { source: String, destination: String, read_only: bool, propagation: String },
    /// A memory-backed file system of the given size.
    Tmpfs { destination: String, size: String },
}

/// A mount of the document as contracts see it.
pub enum MountSpecView {
    Bind { source: Seq<char>, destination: Seq<char>, read_only: bool, propagation: Seq<char> },
    Tmpfs { destination: Seq<char>, size: Seq<char> },
}

impl DeepView for MountSpec {
    type V = MountSpecView;

    open spec fn deep_view(&self) -> MountSpecView {
        match self {
            MountSpec::Bind { source, destination, read_only, propagation } => MountSpecView::Bind {
                source: source@,
                destination: destination@,
                read_only: *read_only,
                propagation: propagation@,
            },
            MountSpec::Tmpfs { destination, size } => MountSpecView::Tmpfs {
                destination: destination@,
                size: size@,
            },
        }
    }
}

/// The specification document of one container: the whole isolation contract.
#[derive(Debug, Clone, PartialEq, Eq)]
pub struct ContainerSpec {
    pub image: String,
    pub name: String,
    pub user: String,
    /// The user namespace mode.
    pub userns: String,
    /// The network mode.
    pub network: String,
    pub read_only_filesystem: bool,
    /// Whether the engine removes the container when it exits.
    pub remove: bool,
    /// The memory cap, in bytes.
    pub memory_limit: u64,
    pub cpu_shares: u64,
    pub pids_limit: u64,
    /// The security options, as the engine's command line writes them.
    pub security_opt: Vec<String>,
    /// The file that holds the syscall filter named in the security options.
    pub seccomp_profile_path: String,
    pub cap_drop: Vec<String>,
    pub cap_add: Vec<String>,
    pub env: Vec<(String, String)>,
    pub mounts: Vec<MountSpec>,
    pub command: Vec<String>,
}

/// A specification document as contracts see it.
pub struct ContainerSpecView {
    pub image: Seq<char>,
    pub name: Seq<char>,
    pub user: Seq<char>,
    pub userns: Seq<char>,
    pub network: Seq<char>,
    pub read_only_filesystem: bool,
    pub remove: bool,
    pub memory_limit: nat,
    pub cpu_shares: nat,
    pub pids_limit: nat,
    pub security_opt: Seq<Seq<char>>,
    pub seccomp_profile_path: Seq<char>,
    pub cap_drop: Seq<Seq<char>>,
    pub cap_add: Seq<Seq<char>>,
    pub env: Seq<(Seq<char>, Seq<char>)>,
    pub mounts: Seq<MountSpecView>,
    pub command: Seq<Seq<char>>,
}

impl View for ContainerSpec {
    type V = ContainerSpecView;

    open spec fn view(&self) -> ContainerSpecView {
        ContainerSpecView {
            image: self.image@,
            name: self.name@,
            user: self.user@,
            userns: self.userns@,
            network: self.network@,
            read_only_filesystem: self.read_only_filesystem,
            remove: self.remove,
            memory_limit: self.memory_limit as nat,
            cpu_shares: self.cpu_shares as nat,
            pids_limit: self.pids_limit as nat,
            security_opt: self.security_opt.deep_view(),
            seccomp_profile_path: self.seccomp_profile_path@,
            cap_drop: self.cap_drop.deep_view(),
            cap_add: self.cap_add.deep_view(),
            env: self.env.deep_view(),
            mounts: self.mounts.deep_view(),
            command: self.command.deep_view(),
        }
    }
}

/// The CPU shares of a limit: 1024 shares for each CPU, rounded to the
/// nearest share, a half upwards.
pub open spec fn cpu_shares(cpu_limit: nat) -> nat {
    ((cpu_limit * 1024 + CPU_UNIT / 2) / (CPU_UNIT as int)) as nat
}

/// The engine's form of a bind mount.
pub open spec fn bind_mount(m: MountView) -> MountSpecView {
    MountSpecView::Bind {
        source: m.source,
        destination: m.target,
        read_only: m.read_only,
        propagation: "rprivate"@,
    }
}

/// The writable scratch space of every container.
pub open spec fn scratch_mount() -> MountSpecView {
    MountSpecView::Tmpfs { destination: "/tmp"@, size: "100m"@ }
}

/// The mounts of the document: every requested bind mount, then the scratch space.
pub open spec fn engine_mounts(mounts: Seq<MountView>) -> Seq<MountSpecView> {
    mounts.map_values(|m: MountView| bind_mount(m)).push(scratch_mount())
}

/// The specification document for `config`, with the syscall filter read
/// from `seccomp_path`. The network is always disabled, every capability is
/// dropped and none added, whatever `config` holds for them.
pub open spec fn engine_spec(config: ContainerConfigView, seccomp_path: Seq<char>) -> ContainerSpecView {
    ContainerSpecView {
        image: config.image,
        name: config.name,
        user: config.user,
        userns: "host"@,
        network: "none"@,
        read_only_filesystem: config.read_only,
        remove: !config.debug,
        memory_limit: config.memory_limit,
        cpu_shares: cpu_shares(config.cpu_limit),
        pids_limit: PIDS_LIMIT as nat,
        security_opt: seq!["no-new-privileges"@, "seccomp="@ + seccomp_path],
        seccomp_profile_path: seccomp_path,
        cap_drop: seq!["ALL"@],
        cap_add: Seq::empty(),
        env: config.env,
        mounts: engine_mounts(config.mounts),
        command: config.command,
    }
}

/// What the engine answered when asked to inspect an image.
#[derive(Debug, Clone, PartialEq, Eq)]
pub enum InspectOutcome {
    Found,
    NotFound,
    /// Any other failure, as its text.
    Failed(String),
}

/// How waiting for a container ended.
#[derive(Debug, Clone, PartialEq, Eq)]
pub enum WaitOutcome {
    /// The container exited with this code.
    Exited(i32),
    /// The engine failed, with this text.
    Failed(String),
    /// The deadline passed first.
    TimedOut,
}

/// One entry of the engine's container list.
#[derive(Debug, Clone, PartialEq, Eq)]
pub struct ContainerSummary {
    pub id: Option<String>,
    pub names: Vec<String>,
    /// The creation time, in seconds since the epoch.
    pub created: Option<i64>,
}

/// An entry of the engine's container list as contracts see it.
pub struct ContainerSummaryView {
    pub id: Option<Seq<char>>,
    pub names: Seq<Seq<char>>,
    pub created: Option<int>,
}

impl DeepView for ContainerSummary {
    type V = ContainerSummaryView;

    open spec fn deep_view(&self) -> ContainerSummaryView {
        ContainerSummaryView {
            id: option_text(self.id),
            names: self.names.deep_view(),
            created: match self.created {
                Some(t) => Some(t as int),
                None => None,
            },
        }
    }
}

/// How the base image is built: from the file `containerfile` of a throwaway
/// context, under the given tags, pulling the base anew and removing the
/// intermediate containers even when the build fails.
#[derive(Debug, Clone, PartialEq, Eq)]
pub struct BuildPlan {
    pub containerfile: String,
    pub tags: Vec<String>,
    pub pull: bool,
    pub remove: bool,
    pub force_remove: bool,
}

/// One line of build output.
#[derive(Debug, Clone, PartialEq, Eq)]
pub struct BuildLine {
    pub stream: Option<String>,
    pub error: Option<String>,
}

/// An engine-side failure with its context: the context, a colon, the reason.
pub open spec fn engine_failure(context: Seq<char>, why: Seq<char>) -> ErrorView {
    ErrorView { kind: ErrorKind::Container, detail: context + ": "@ + why }
}

/// The prefix of the names of this library's containers in the engine's list:
/// a slash, the configured prefix, a hyphen.
pub open spec fn listed_name_prefix(prefix: Seq<char>) -> Seq<char> {
    "/"@ + prefix + "-"@
}

/// Whether one of `names` begins with the listed prefix.
pub open spec fn has_own_name(names: Seq<Seq<char>>, prefix: Seq<char>) -> bool {
    exists|i: int| 0 <= i < names.len() && listed_name_prefix(prefix).is_prefix_of(#[trigger] names[i])
}

/// A container is stale when one of its names carries the prefix and it was
/// created more than an hour before `now`.
pub open spec fn is_stale(c: ContainerSummaryView, prefix: Seq<char>, now: int) -> bool {
    has_own_name(c.names, prefix) && match c.created {
        Some(t) => now - t > STALE_AFTER_SECS,
        None => false,
    }
}

/// The ids of the stale containers of `list`, in list order. A stale
/// container without an id cannot be removed and is left out.
pub open spec fn stale_ids(list: Seq<ContainerSummaryView>, prefix: Seq<char>, now: int) -> Seq<
    Seq<char>,
>
    decreases list.len(),
{
    if list.len() == 0 {
        Seq::empty()
    } else {
        let earlier = stale_ids(list.drop_last(), prefix, now);
        let c = list.last();
        if is_stale(c, prefix, now) && c.id is Some {
            earlier.push(c.id->0)
        } else {
            earlier
        }
    }
}

/// The ids picked for reaping are exactly those of the stale containers
/// that have one.
pub proof fn lemma_stale_ids_are_of_stale_containers(
    list: Seq<ContainerSummaryView>,
    prefix: Seq<char>,
    now: int,
    id: Seq<char>,
)
    ensures
        stale_ids(list, prefix, now).contains(id) <==> exists|i: int|
            0 <= i < list.len() && is_stale(#[trigger] list[i], prefix, now) && list[i].id == Some(
                id,
            ),
    decreases list.len(),
{
    if list.len() > 0 {
        let earlier = list.drop_last();
        let c = list.last();
        lemma_stale_ids_are_of_stale_containers(earlier, prefix, now, id);
        let picked = stale_ids(earlier, prefix, now);
        let all = stale_ids(list, prefix, now);
        if all.contains(id) {
            let k = choose|k: int| 0 <= k < all.len() && all[k] == id;
            if is_stale(c, prefix, now) && c.id is Some && k == all.len() - 1 {
                assert(list[list.len() - 1] == c);
            } else {
                assert(picked[k] == id);
                assert(picked.contains(id));
                let i = choose|i: int|
                    0 <= i < earlier.len() && is_stale(#[trigger] earlier[i], prefix, now)
                        && earlier[i].id == Some(id);
                assert(list[i] == earlier[i]);
            }
        }
        if exists|i: int|
            0 <= i < list.len() && is_stale(#[trigger] list[i], prefix, now) && list[i].id == Some(
                id,
            ) {
            let i = choose|i: int|
                0 <= i < list.len() && is_stale(#[trigger] list[i], prefix, now) && list[i].id
                    == Some(id);
            if i == list.len() - 1 {
                assert(all == picked.push(id));
                assert(all[all.len() - 1] == id);
            } else {
                assert(earlier[i] == list[i]);
                assert(picked.contains(id));
                let k = choose|k: int| 0 <= k < picked.len() && picked[k] == id;
                assert(all[k] == id);
            }
        }
    }
}

/// What becomes of an exit code in a record: the same 32 bits, read as unsigned.
pub open spec fn unsigned_exit_code(code: i32) -> u32 {
    if code >= 0 {
        code as u32
    } else {
        (code + 0x1_0000_0000) as u32
    }
}

fn engine_error(context: &str, why: &str) -> (e: SingleloadError)
    ensures
        e@ == engine_failure(context@, why@),
{
    let mut text = String::from_str(context);
    text.append(": ");
    text.append(why);
    SingleloadError::Container(text)
}

/// The holder of the driver's settings: the configuration and the syscall filter.
#[derive(Debug, Clone, PartialEq, Eq)]
pub struct ContainerManager {
    pub config: Config,
    pub seccomp_profile: SeccompProfile,
}

impl ContainerManager {
    /// A driver for `config` with the default syscall filter, given the
    /// outcome of the liveness probe of the engine. A failed probe is final:
    /// there is no driver.
    pub fn new(config: Config, probe: Result<(), String>) -> (r: Result<Self, SingleloadError>)
        ensures
            match probe {
                Ok(_) => r matches Ok(m) && m.config == config && m.seccomp_profile.content@
                    == default_profile_text(),
                Err(why) => r matches Err(e) && e@ == (ErrorView {
                    kind: ErrorKind::PodmanApi,
                    detail: why@,
                }),
            },
    {
        match probe {
            Ok(_) => Ok(ContainerManager { config, seccomp_profile: SeccompProfile::default() }),
            Err(why) => Err(SingleloadError::PodmanApi(why)),
        }
    }

    /// Builds the specification document of a container from what the request
    /// asks for and the file that holds the syscall filter.
    pub fn create_container(&self, config: ContainerConfig, seccomp_path: &str) -> (spec:
        ContainerSpec)
        ensures
            spec@ == engine_spec(config@, seccomp_path@),
    {
        let ghost wanted = engine_spec(config@, seccomp_path@);
        let mut mounts: Vec<MountSpec> = Vec::new();
        let mut i: usize = 0;
        while i < config.mounts.len()
            invariant
                i <= config.mounts@.len(),
                mounts@.len() == i,
                mounts.deep_view() == config.mounts.deep_view().take(i as int).map_values(
                    |m: MountView| bind_mount(m),
                ),
            decreases config.mounts@.len() - i,
        {
            let mount = &config.mounts[i];
            let ghost before = mounts.deep_view();
            let bind = MountSpec::Bind {
                source: mount.source.clone(),
                destination: mount.target.clone(),
                read_only: mount.read_only,
                propagation: String::from_str("rprivate"),
            };
            assert(bind.deep_view() == bind_mount(config.mounts.deep_view()[i as int]));
            mounts.push(bind);
            proof {
                let after = config.mounts.deep_view().take(i + 1).map_values(
                    |m: MountView| bind_mount(m),
                );
                assert(config.mounts.deep_view().len() == config.mounts@.len());
                assert(config.mounts.deep_view().take(i + 1).len() == i + 1);
                assert(after.len() == i + 1);
                assert(mounts.deep_view().len() == after.len());
                assert forall|j: int| 0 <= j < after.len() implies mounts.deep_view()[j]
                    == after[j] by {
                    if j < i {
                        assert(mounts.deep_view()[j] == before[j]);
                    }
                }
                assert(mounts.deep_view() =~= after);
            }
            i += 1;
        }
        assert(config.mounts.deep_view().take(i as int) =~= config.mounts.deep_view());
        mounts.push(
            MountSpec::Tmpfs { destination: String::from_str("/tmp"), size: String::from_str("100m") },
        );
        assert(mounts.deep_view() =~= wanted.mounts);

        let mut seccomp = String::from_str("seccomp=");
        seccomp.append(seccomp_path);
        let mut security_opt: Vec<String> = Vec::new();
        security_opt.push(String::from_str("no-new-privileges"));
        security_opt.push(seccomp);
        assert(security_opt.deep_view() =~= wanted.security_opt);
        let mut cap_drop: Vec<String> = Vec::new();
        cap_drop.push(String::from_str("ALL"));
        assert(cap_drop.deep_view() =~= wanted.cap_drop);
        let cap_add: Vec<String> = Vec::new();
        assert(cap_add.deep_view() =~= wanted.cap_add);
        let shares: u64 = (config.cpu_limit as u64 * 1024 + (CPU_UNIT / 2) as u64) / (CPU_UNIT as u64);
        ContainerSpec {
            image: config.image,
            name: config.name,
            user: config.user,
            userns: String::from_str("host"),
            network: String::from_str("none"),
            read_only_filesystem: config.read_only,
            remove: !config.debug,
            memory_limit: config.memory_limit,
            cpu_shares: shares,
            pids_limit: PIDS_LIMIT,
            security_opt,
            seccomp_profile_path: String::from_str(seccomp_path),
            cap_drop,
            cap_add,
            env: config.env,
            mounts,
            command: config.command,
        }
    }

    /// Whether the base image is present, from what the engine answered to
    /// its inspection: absent when it was not found, an error on any other failure.
    pub fn base_image_exists(&self, outcome: InspectOutcome) -> (r: Result<bool, SingleloadError>)
        ensures
            outcome is Found ==> r == Ok::<bool, SingleloadError>(true),
            outcome is NotFound ==> r == Ok::<bool, SingleloadError>(false),
            outcome matches InspectOutcome::Failed(why) ==> r matches Err(e) && e@ == (ErrorView {
                kind: ErrorKind::PodmanApi,
                detail: why@,
            }),
    {
        match outcome {
            InspectOutcome::Found => Ok(true),
            InspectOutcome::NotFound => Ok(false),
            InspectOutcome::Failed(why) => Err(SingleloadError::PodmanApi(why)),
        }
    }

    /// How to install the base image: nothing is to do when it exists and
    /// the build is not forced; else it is built from the file `Containerfile`
    /// under the configured name.
    pub fn install_base_image(&self, image_exists: bool, force: bool) -> (plan: Option<BuildPlan>)
        ensures
            plan is Some <==> force || !image_exists,
            plan matches Some(p) ==> p.containerfile@ == "Containerfile"@ && p.tags.deep_view()
                == seq![self.config.base_image_name@] && p.pull && p.remove && p.force_remove,
    {
        if !force && image_exists {
            return None;
        }
        let mut tags: Vec<String> = Vec::new();
        tags.push(self.config.base_image_name.clone());
        assert(tags.deep_view() =~= seq![self.config.base_image_name@]);
        Some(
            BuildPlan {
                containerfile: String::from_str("Containerfile"),
                tags,
                pull: true,
                remove: true,
                force_remove: true,
            },
        )
    }

    /// Judges one item of the build's output stream: a failed read and a line
    /// that carries an error both abort the build.
    pub fn check_build_output(&self, item: &Result<BuildLine, String>) -> (r: Result<
        (),
        SingleloadError,
    >)
        ensures
            match item {
                Err(why) => r matches Err(e) && e@ == (ErrorView {
                    kind: ErrorKind::Container,
                    detail: "Build failed: "@ + why@,
                }),
                Ok(line) => match line.error {
                    Some(why) => r matches Err(e) && e@ == (ErrorView {
                        kind: ErrorKind::Container,
                        detail: "Build error: "@ + why@,
                    }),
                    None => r is Ok,
                },
            },
    {
        match item {
            Err(why) => {
                let mut text = String::from_str("Build failed: ");
                text.append(why.as_str());
                Err(SingleloadError::Container(text))
            },
            Ok(line) => match &line.error {
                Some(why) => {
                    let mut text = String::from_str("Build error: ");
                    text.append(why.as_str());
                    Err(SingleloadError::Container(text))
                },
                None => Ok(()),
            },
        }
    }

    /// The id of the created container, or the engine's failure with context.
    pub fn container_created(&self, outcome: Result<String, String>) -> (r: Result<
        String,
        SingleloadError,
    >)
        ensures
            match outcome {
                Ok(id) => r matches Ok(got) && got@ == id@,
                Err(why) => r matches Err(e) && e@ == engine_failure(
                    "Failed to create container"@,
                    why@,
                ),
            },
    {
        match outcome {
            Ok(id) => Ok(id),
            Err(why) => Err(engine_error("Failed to create container", why.as_str())),
        }
    }

    /// What the engine's answer to a start request means.
    pub fn start_container(&self, outcome: Result<(), String>) -> (r: Result<(), SingleloadError>)
        ensures
            match outcome {
                Ok(_) => r is Ok,
                Err(why) => r matches Err(e) && e@ == engine_failure(
                    "Failed to start container"@,
                    why@,
                ),
            },
    {
        match outcome {
            Ok(_) => Ok(()),
            Err(why) => Err(engine_error("Failed to start container", why.as_str())),
        }
    }

    /// What the end of a wait means: the exit code, the engine's failure with
    /// context, or a timeout.
    pub fn wait_container(&self, outcome: WaitOutcome) -> (r: Result<i32, SingleloadError>)
        ensures
            match outcome {
                WaitOutcome::Exited(code) => r == Ok::<i32, SingleloadError>(code),
                WaitOutcome::Failed(why) => r matches Err(e) && e@ == engine_failure(
                    "Container wait failed"@,
                    why@,
                ),
                WaitOutcome::TimedOut => r matches Err(e) && e@ == (ErrorView {
                    kind: ErrorKind::Timeout,
                    detail: Seq::empty(),
                }),
            },
    {
        match outcome {
            WaitOutcome::Exited(code) => Ok(code),
            WaitOutcome::Failed(why) => Err(engine_error("Container wait failed", why.as_str())),
            WaitOutcome::TimedOut => Err(SingleloadError::Timeout),
        }
    }

    /// The two streams carried by the fetched log, or the engine's failure
    /// with context.
    pub fn get_container_logs(&self, outcome: Result<Vec<u8>, String>) -> (r: Result<
        (Vec<u8>, Vec<u8>),
        SingleloadError,
    >)
        ensures
            match outcome {
                Ok(logs) => r matches Ok(streams) && streams.0@ == stdout_of(logs@) && streams.1@
                    == stderr_of(logs@),
                Err(why) => r matches Err(e) && e@ == engine_failure("Failed to get logs"@, why@),
            },
    {
        match outcome {
            Ok(logs) => Ok(self.parse_container_logs(logs.as_slice())),
            Err(why) => Err(engine_error("Failed to get logs", why.as_str())),
        }
    }

    /// Splits the engine's log into standard output and standard error.
    pub fn parse_container_logs(&self, logs: &[u8]) -> (streams: (Vec<u8>, Vec<u8>))
        ensures
            streams.0@ == stdout_of(logs@),
            streams.1@ == stderr_of(logs@),
    {
        split_streams(logs)
    }

    /// Removal is best effort: a failure is never an error, only a warning,
    /// which is returned for the log.
    pub fn remove_container(&self, container_id: &str, outcome: Result<(), String>) -> (warning:
        Option<String>)
        ensures
            match outcome {
                Ok(_) => warning is None,
                Err(why) => warning matches Some(text) && text@ == "Failed to remove container "@
                    + container_id@ + ": "@ + why@,
            },
    {
        match outcome {
            Ok(_) => None,
            Err(why) => {
                let mut text = String::from_str("Failed to remove container ");
                text.append(container_id);
                text.append(": ");
                text.append(why.as_str());
                Some(text)
            },
        }
    }

    /// Picks from the engine's list the containers to reap at time `now`
    /// (seconds since the epoch): those of this library's prefix that are
    /// older than an hour.
    pub fn cleanup_old_containers(&self, list: &Vec<ContainerSummary>, now: u64) -> (ids: Vec<
        String,
    >)
        ensures
            ids.deep_view() == stale_ids(
                list.deep_view(),
                self.config.container_prefix@,
                now as int,
            ),
    {
        let mut wanted = String::from_str("/");
        wanted.append(self.config.container_prefix.as_str());
        wanted.append("-");
        let wanted_chars = chars_of(wanted.as_str());
        let ghost prefix = self.config.container_prefix@;
        let mut ids: Vec<String> = Vec::new();
        let mut i: usize = 0;
        assert(list.deep_view().take(0) =~= Seq::<ContainerSummaryView>::empty());
        while i < list.len()
            invariant
                i <= list@.len(),
                prefix == self.config.container_prefix@,
                wanted_chars@ == listed_name_prefix(prefix),
                ids.deep_view() == stale_ids(list.deep_view().take(i as int), prefix, now as int),
            decreases list@.len() - i,
        {
            let c = &list[i];
            let ghost seen = list.deep_view().take(i + 1);
            assert(seen.drop_last() =~= list.deep_view().take(i as int));
            assert(seen.last() == c.deep_view());
            let mut own = false;
            let mut k: usize = 0;
            while k < c.names.len()
                invariant
                    k <= c.names@.len(),
                    wanted_chars@ == listed_name_prefix(prefix),
                    own == (exists|j: int|
                        0 <= j < k && listed_name_prefix(prefix).is_prefix_of(
                            #[trigger] c.names.deep_view()[j],
                        )),
                decreases c.names@.len() - k,
            {
                let name_chars = chars_of(c.names[k].as_str());
                if chars_start_with(&name_chars, &wanted_chars) {
                    assert(listed_name_prefix(prefix).is_prefix_of(c.names.deep_view()[k as int]));
                    own = true;
                }
                k += 1;
            }
            assert(own == has_own_name(c.names.deep_view(), prefix));
            let old_enough = match c.created {
                Some(t) => now as i128 - t as i128 > STALE_AFTER_SECS as i128,
                None => false,
            };
            assert(is_stale(c.deep_view(), prefix, now as int) == (own && old_enough));
            if own && old_enough {
                match &c.id {
                    Some(id) => {
                        let ghost before = ids.deep_view();
                        ids.push(id.clone());
                        assert(ids.deep_view() =~= before.push(id@));
                    },
                    None => {},
                }
            }
            i += 1;
        }
        assert(list.deep_view().take(i as int) =~= list.deep_view());
        ids
    }
}

} // verus!
