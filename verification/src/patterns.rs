//! The catalogue of regular expressions that describe suspicious script
//! content, by category. It is compiled once; a pattern that does not
//! compile is a fault of the catalogue.

use vstd::prelude::*;
use vstd::string::StringExecFns;
use crate::errors::{ErrorKind, ErrorView, SingleloadError};

verus! {

/// `regex::Regex`, a compiled pattern. Nothing of its inside is visible here.
#[verifier::external_type_specification]
#[verifier::external_body]
pub struct ExRegex(regex::Regex);

/// What `regex::Regex::new` answers to a pattern: nothing when it compiles
/// the pattern, else the text of its refusal, as `regex::Error` displays it.
/// A pattern is refused when it is not valid, and when its program would be
/// larger than the crate's size limit.
pub uninterp spec fn regex_refusal(pattern: Seq<char>) -> Option<Seq<char>>;

/// Compiles `pattern` with `regex::Regex::new`, and turns a refusal into
/// its text. The outcome is the one that the name gives for the pattern.
#[verifier::external_body]
fn compile_regex(pattern: &str) -> (r: Result<regex::Regex, String>)
    ensures
        r is Ok <==> regex_refusal(pattern@) is None,
        r matches Err(why) ==> regex_refusal(pattern@) == Some(why@),
{
    match regex::Regex::new(pattern) {
        Ok(regex) => Ok(regex),
        Err(error) => Err(error.to_string()),
    }
}

/// A compiled pattern with its source and with what a match means.
pub struct CompiledPattern {
    pub regex: regex::Regex,
    pub source: String,
    pub description: String,
}

impl DeepView for CompiledPattern {
    type V = (Seq<char>, Seq<char>);

    open spec fn deep_view(&self) -> (Seq<char>, Seq<char>) {
        (self.source@, self.description@)
    }
}

/// The complaint about a pattern that does not compile.
pub open spec fn invalid_regex_text(pattern: Seq<char>, why: Seq<char>) -> Seq<char> {
    "Invalid regex "@ + pattern + ": "@ + why
}

/// The patterns of file-system access, each with what a match means.
pub open spec fn filesystem_catalogue() -> Seq<(Seq<char>, Seq<char>)> {
    seq![
        (r"/proc/self/exe"@, "Attempting to access process executable"@),
        (r"/proc/\d+/maps"@, "Attempting to read process memory maps"@),
        (r"/proc/sys/kernel/[a-zA-Z_]+"@, "Attempting to access kernel parameters"@),
        (r"/sys/kernel/security"@, "Attempting to access security modules"@),
        (r"/etc/(passwd|shadow|sudoers)"@, "Attempting to access authentication files"@),
        (r"/(root|home)/\."@, "Attempting to access hidden files in home directories"@),
        (r"/dev/(mem|kmem|port)"@, "Attempting to access raw memory devices"@),
        (r"/sys/class/net"@, "Attempting to access network interfaces"@),
        (r"/sys/firmware"@, "Attempting to access firmware information"@),
    ]
}

/// The patterns of privilege escalation, each with what a match means.
pub open spec fn privilege_catalogue() -> Seq<(Seq<char>, Seq<char>)> {
    seq![
        (r"chmod\s+[+]s"@, "Attempting to set SUID/SGID bits"@),
        (r"setuid\s*\(\s*0\s*\)"@, "Attempting to setuid to root"@),
        (r"setgid\s*\(\s*0\s*\)"@, "Attempting to setgid to root"@),
        (r"CAP_[A-Z_]+"@, "Attempting to manipulate capabilities"@),
        (r"LD_PRELOAD\s*="@, "Attempting to preload libraries"@),
        (r"LD_LIBRARY_PATH\s*="@, "Attempting to modify library path"@),
        (r"/usr/bin/sudo"@, "Attempting to use sudo"@),
        (r"pkexec"@, "Attempting to use PolicyKit"@),
        (r"doas"@, "Attempting to use doas"@),
    ]
}

/// The patterns of container escape, each with what a match means.
pub open spec fn escape_catalogue() -> Seq<(Seq<char>, Seq<char>)> {
    seq![
        (r"nsenter"@, "Attempting to enter namespaces"@),
        (r"unshare"@, "Attempting to create new namespaces"@),
        (r"/proc/\d+/ns/"@, "Attempting to access namespace files"@),
        (r"mount\s+--bind"@, "Attempting bind mounts"@),
        (r"mount\s+-o\s+remount"@, "Attempting to remount filesystems"@),
        (r"pivot_root"@, "Attempting to change root filesystem"@),
        (r"chroot"@, "Attempting to change root"@),
        (r"/var/run/docker\.sock"@, "Attempting to access Docker socket"@),
        (r"/run/containerd/containerd\.sock"@, "Attempting to access containerd socket"@),
        (r"cgroup"@, "Attempting to manipulate cgroups"@),
        (r"overlay"@, "Attempting to access overlay filesystem"@),
        (r"runc"@, "Attempting to access container runtime"@),
    ]
}

/// The patterns of resource exhaustion, each with what a match means.
pub open spec fn resource_catalogue() -> Seq<(Seq<char>, Seq<char>)> {
    seq![
        (r"fork\s*\(\s*\)\s*while.*true"@, "Fork bomb pattern detected"@),
        (r":\(\)\s*\{\s*:\|:&\s*\}"@, "Bash fork bomb detected"@),
        (r"while.*true.*malloc"@, "Memory exhaustion pattern detected"@),
        (r"/dev/zero.*dd"@, "Disk filling pattern detected"@),
        (r"openfiles\s*=\s*\d{5,}"@, "File descriptor exhaustion detected"@),
        (r"ulimit\s+-[nS]"@, "Attempting to modify resource limits"@),
        (r"stress(-ng)?"@, "Stress testing tool detected"@),
    ]
}

/// The patterns of network use, each with what a match means.
pub open spec fn network_catalogue() -> Seq<(Seq<char>, Seq<char>)> {
    seq![
        (r"socket\s*\("@, "Raw socket creation attempted"@),
        (r"connect\s*\("@, "Network connection attempted"@),
        (r"(curl|wget|nc|netcat|telnet|ssh)"@, "Network tool usage detected"@),
        (r"iptables"@, "Firewall manipulation attempted"@),
        (r"ip\s+(route|addr|link)"@, "Network configuration attempted"@),
        (r"/proc/net/"@, "Network information access attempted"@),
        (r"AF_INET"@, "Network socket family referenced"@),
        (r"SOCK_RAW"@, "Raw socket type referenced"@),
    ]
}

fn filesystem_entries() -> (entries: Vec<(&'static str, &'static str)>)
    ensures
        entries.deep_view() == filesystem_catalogue(),
{
    let mut entries: Vec<(&'static str, &'static str)> = Vec::new();
    entries.push((r"/proc/self/exe", "Attempting to access process executable"));
    entries.push((r"/proc/\d+/maps", "Attempting to read process memory maps"));
    entries.push((r"/proc/sys/kernel/[a-zA-Z_]+", "Attempting to access kernel parameters"));
    entries.push((r"/sys/kernel/security", "Attempting to access security modules"));
    entries.push((r"/etc/(passwd|shadow|sudoers)", "Attempting to access authentication files"));
    entries.push((r"/(root|home)/\.", "Attempting to access hidden files in home directories"));
    entries.push((r"/dev/(mem|kmem|port)", "Attempting to access raw memory devices"));
    entries.push((r"/sys/class/net", "Attempting to access network interfaces"));
    entries.push((r"/sys/firmware", "Attempting to access firmware information"));
    assert(entries.deep_view() =~= filesystem_catalogue());
    entries
}

fn privilege_entries() -> (entries: Vec<(&'static str, &'static str)>)
    ensures
        entries.deep_view() == privilege_catalogue(),
{
    let mut entries: Vec<(&'static str, &'static str)> = Vec::new();
    entries.push((r"chmod\s+[+]s", "Attempting to set SUID/SGID bits"));
    entries.push((r"setuid\s*\(\s*0\s*\)", "Attempting to setuid to root"));
    entries.push((r"setgid\s*\(\s*0\s*\)", "Attempting to setgid to root"));
    entries.push((r"CAP_[A-Z_]+", "Attempting to manipulate capabilities"));
    entries.push((r"LD_PRELOAD\s*=", "Attempting to preload libraries"));
    entries.push((r"LD_LIBRARY_PATH\s*=", "Attempting to modify library path"));
    entries.push((r"/usr/bin/sudo", "Attempting to use sudo"));
    entries.push((r"pkexec", "Attempting to use PolicyKit"));
    entries.push((r"doas", "Attempting to use doas"));
    assert(entries.deep_view() =~= privilege_catalogue());
    entries
}

fn escape_entries() -> (entries: Vec<(&'static str, &'static str)>)
    ensures
        entries.deep_view() == escape_catalogue(),
{
    let mut entries: Vec<(&'static str, &'static str)> = Vec::new();
    entries.push((r"nsenter", "Attempting to enter namespaces"));
    entries.push((r"unshare", "Attempting to create new namespaces"));
    entries.push((r"/proc/\d+/ns/", "Attempting to access namespace files"));
    entries.push((r"mount\s+--bind", "Attempting bind mounts"));
    entries.push((r"mount\s+-o\s+remount", "Attempting to remount filesystems"));
    entries.push((r"pivot_root", "Attempting to change root filesystem"));
    entries.push((r"chroot", "Attempting to change root"));
    entries.push((r"/var/run/docker\.sock", "Attempting to access Docker socket"));
    entries.push((r"/run/containerd/containerd\.sock", "Attempting to access containerd socket"));
    entries.push((r"cgroup", "Attempting to manipulate cgroups"));
    entries.push((r"overlay", "Attempting to access overlay filesystem"));
    entries.push((r"runc", "Attempting to access container runtime"));
    assert(entries.deep_view() =~= escape_catalogue());
    entries
}

fn resource_entries() -> (entries: Vec<(&'static str, &'static str)>)
    ensures
        entries.deep_view() == resource_catalogue(),
{
    let mut entries: Vec<(&'static str, &'static str)> = Vec::new();
    entries.push((r"fork\s*\(\s*\)\s*while.*true", "Fork bomb pattern detected"));
    entries.push((r":\(\)\s*\{\s*:\|:&\s*\}", "Bash fork bomb detected"));
    entries.push((r"while.*true.*malloc", "Memory exhaustion pattern detected"));
    entries.push((r"/dev/zero.*dd", "Disk filling pattern detected"));
    entries.push((r"openfiles\s*=\s*\d{5,}", "File descriptor exhaustion detected"));
    entries.push((r"ulimit\s+-[nS]", "Attempting to modify resource limits"));
    entries.push((r"stress(-ng)?", "Stress testing tool detected"));
    assert(entries.deep_view() =~= resource_catalogue());
    entries
}

fn network_entries() -> (entries: Vec<(&'static str, &'static str)>)
    ensures
        entries.deep_view() == network_catalogue(),
{
    let mut entries: Vec<(&'static str, &'static str)> = Vec::new();
    entries.push((r"socket\s*\(", "Raw socket creation attempted"));
    entries.push((r"connect\s*\(", "Network connection attempted"));
    entries.push((r"(curl|wget|nc|netcat|telnet|ssh)", "Network tool usage detected"));
    entries.push((r"iptables", "Firewall manipulation attempted"));
    entries.push((r"ip\s+(route|addr|link)", "Network configuration attempted"));
    entries.push((r"/proc/net/", "Network information access attempted"));
    entries.push((r"AF_INET", "Network socket family referenced"));
    entries.push((r"SOCK_RAW", "Raw socket type referenced"));
    assert(entries.deep_view() =~= network_catalogue());
    entries
}

/// Every entry of the catalogue, category after category.
pub open spec fn whole_catalogue() -> Seq<(Seq<char>, Seq<char>)> {
    filesystem_catalogue() + privilege_catalogue() + escape_catalogue() + resource_catalogue()
        + network_catalogue()
}

/// The complaint about the first of `entries` that `regex` refuses, if it
/// refuses any: the pattern and the reason.
pub open spec fn compile_verdict(entries: Seq<(Seq<char>, Seq<char>)>) -> Option<ErrorView>
    decreases entries.len(),
{
    if entries.len() == 0 {
        None
    } else {
        match regex_refusal(entries[0].0) {
            Some(why) => Some(
                ErrorView {
                    kind: ErrorKind::Other,
                    detail: invalid_regex_text(entries[0].0, why),
                },
            ),
            None => compile_verdict(entries.drop_first()),
        }
    }
}

/// There is no complaint exactly when every pattern compiles.
pub proof fn lemma_compile_verdict_none(entries: Seq<(Seq<char>, Seq<char>)>)
    ensures
        compile_verdict(entries) is None <==> forall|j: int|
            0 <= j < entries.len() ==> regex_refusal(#[trigger] entries[j].0) is None,
    decreases entries.len(),
{
    if entries.len() > 0 {
        let rest = entries.drop_first();
        lemma_compile_verdict_none(rest);
        if regex_refusal(entries[0].0) is None {
            if compile_verdict(rest) is None {
                assert forall|j: int| 0 <= j < entries.len() implies regex_refusal(
                    #[trigger] entries[j].0,
                ) is None by {
                    if j > 0 {
                        assert(rest[j - 1] == entries[j]);
                    }
                }
            } else {
                let j = choose|j: int|
                    0 <= j < rest.len() && !(regex_refusal(#[trigger] rest[j].0) is None);
                assert(rest[j] == entries[j + 1]);
            }
        }
    }
}

/// The complaint about two lists, one after the other, is the complaint
/// about the first list, or else the one about the second.
pub proof fn lemma_compile_verdict_concat(
    first: Seq<(Seq<char>, Seq<char>)>,
    second: Seq<(Seq<char>, Seq<char>)>,
)
    ensures
        compile_verdict(first + second) == match compile_verdict(first) {
            Some(e) => Some(e),
            None => compile_verdict(second),
        },
    decreases first.len(),
{
    if first.len() == 0 {
        assert(first + second =~= second);
    } else {
        assert((first + second)[0] == first[0]);
        assert((first + second).drop_first() =~= first.drop_first() + second);
        lemma_compile_verdict_concat(first.drop_first(), second);
    }
}

/// The compiled catalogue.
pub struct SecurityPatterns {
    pub filesystem_patterns: Vec<CompiledPattern>,
    pub privilege_patterns: Vec<CompiledPattern>,
    pub escape_patterns: Vec<CompiledPattern>,
    pub resource_patterns: Vec<CompiledPattern>,
    pub network_patterns: Vec<CompiledPattern>,
}

impl SecurityPatterns {
    /// Compiles the whole catalogue, category after category. It is there
    /// exactly when every pattern compiles; else the first pattern that does
    /// not is complained about.
    pub fn new() -> (r: Result<Self, SingleloadError>)
        ensures
            r is Ok <==> compile_verdict(whole_catalogue()) is None,
            r matches Ok(catalogue) ==> {
                &&& catalogue.filesystem_patterns.deep_view() == filesystem_catalogue()
                &&& catalogue.privilege_patterns.deep_view() == privilege_catalogue()
                &&& catalogue.escape_patterns.deep_view() == escape_catalogue()
                &&& catalogue.resource_patterns.deep_view() == resource_catalogue()
                &&& catalogue.network_patterns.deep_view() == network_catalogue()
            },
            r matches Err(e) ==> Some(e@) == compile_verdict(whole_catalogue()),
    {
        proof {
            let a = filesystem_catalogue();
            let b = privilege_catalogue();
            let c = escape_catalogue();
            let d = resource_catalogue();
            let e = network_catalogue();
            lemma_compile_verdict_concat(a, b);
            lemma_compile_verdict_concat(a + b, c);
            lemma_compile_verdict_concat(a + b + c, d);
            lemma_compile_verdict_concat(a + b + c + d, e);
        }
        let filesystem_patterns = match Self::compile_patterns(&filesystem_entries()) {
            Ok(compiled) => compiled,
            Err(e) => {
                return Err(e);
            },
        };
        let privilege_patterns = match Self::compile_patterns(&privilege_entries()) {
            Ok(compiled) => compiled,
            Err(e) => {
                return Err(e);
            },
        };
        let escape_patterns = match Self::compile_patterns(&escape_entries()) {
            Ok(compiled) => compiled,
            Err(e) => {
                return Err(e);
            },
        };
        let resource_patterns = match Self::compile_patterns(&resource_entries()) {
            Ok(compiled) => compiled,
            Err(e) => {
                return Err(e);
            },
        };
        let network_patterns = match Self::compile_patterns(&network_entries()) {
            Ok(compiled) => compiled,
            Err(e) => {
                return Err(e);
            },
        };
        Ok(
            SecurityPatterns {
                filesystem_patterns,
                privilege_patterns,
                escape_patterns,
                resource_patterns,
                network_patterns,
            },
        )
    }

    /// What becomes of one entry once its compilation was tried: the compiled
    /// pattern with its source and description, or the complaint that names
    /// the pattern and the reason.
    pub fn pattern_compiled(
        pattern: &str,
        description: &str,
        outcome: Result<regex::Regex, String>,
    ) -> (r: Result<CompiledPattern, SingleloadError>)
        ensures
            match outcome {
                Ok(regex) => r matches Ok(compiled) && compiled.regex == regex
                    && compiled.deep_view() == (pattern@, description@),
                Err(why) => r matches Err(e) && e@ == (ErrorView {
                    kind: ErrorKind::Other,
                    detail: invalid_regex_text(pattern@, why@),
                }),
            },
    {
        match outcome {
            Ok(regex) => Ok(
                CompiledPattern {
                    regex,
                    source: String::from_str(pattern),
                    description: String::from_str(description),
                },
            ),
            Err(why) => {
                let mut text = String::from_str("Invalid regex ");
                text.append(pattern);
                text.append(": ");
                text.append(why.as_str());
                Err(SingleloadError::Other(text))
            },
        }
    }

    /// Compiles the entries in order and stops at the first that does not
    /// compile, with a complaint that names it and gives the reason.
    pub fn compile_patterns(entries: &Vec<(&'static str, &'static str)>) -> (r: Result<
        Vec<CompiledPattern>,
        SingleloadError,
    >)
        ensures
            r is Ok <==> compile_verdict(entries.deep_view()) is None,
            r matches Ok(compiled) ==> compiled.deep_view() == entries.deep_view(),
            r matches Err(e) ==> Some(e@) == compile_verdict(entries.deep_view()),
    {
        let mut compiled: Vec<CompiledPattern> = Vec::new();
        let mut i: usize = 0;
        assert(entries.deep_view().skip(0) =~= entries.deep_view());
        while i < entries.len()
            invariant
                i <= entries@.len(),
                compiled@.len() == i,
                compiled.deep_view() == entries.deep_view().take(i as int),
                compile_verdict(entries.deep_view()) == compile_verdict(
                    entries.deep_view().skip(i as int),
                ),
            decreases entries@.len() - i,
        {
            let (pattern, description) = entries[i];
            let ghost rest = entries.deep_view().skip(i as int);
            assert(rest[0] == (pattern@, description@));
            assert(rest.drop_first() =~= entries.deep_view().skip(i + 1));
            let outcome = compile_regex(pattern);
            match Self::pattern_compiled(pattern, description, outcome) {
                Ok(one) => {
                    let ghost before = compiled.deep_view();
                    compiled.push(one);
                    assert(compiled.deep_view() =~= before.push((pattern@, description@)));
                    assert(compiled.deep_view() =~= entries.deep_view().take(i + 1));
                },
                Err(e) => {
                    return Err(e);
                },
            }
            i += 1;
        }
        assert(entries.deep_view().take(i as int) =~= entries.deep_view());
        assert(entries.deep_view().skip(i as int) =~= Seq::<(Seq<char>, Seq<char>)>::empty());
        Ok(compiled)
    }
}

} // verus!
