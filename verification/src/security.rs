//! The guard in front of the execution pipeline: what may enter as a script,
//! which host directories may be mounted, and the default syscall filter.

use vstd::prelude::*;
use vstd::string::{StrSliceExecFns, StringExecFns};
use crate::errors::{ErrorKind, ErrorView, SingleloadError};
use crate::paths::{
    dotted_extension,
    find_extension,
    has_parent_component,
    path_depth,
    scan_components,
};
use crate::seccomp::{default_profile_text, SeccompPolicy};
use crate::text::{
    ascii_bytes,
    bytes_contain,
    bytes_of_ascii,
    chars_are,
    chars_of,
    chars_start_with,
    contains_run,
    decimal,
    decimal_text,
    list_contains,
    render_list,
    rendered_list,
};

verus! {

/// The largest script that is accepted, in bytes.
pub const MAX_SCRIPT_SIZE: u64 = 10485760;

/// The largest number of components that a script's canonical path may have.
pub const MAX_PATH_DEPTH: usize = 10;

/// What the file system says about a script, gathered before validation.
#[derive(Debug, PartialEq, Eq)]
pub struct ScriptFile {
    /// The path as the caller gave it.
    pub path: String,
    pub exists: bool,
    /// Whether the path names a regular file.
    pub is_file: bool,
    /// The size in bytes, or why it could not be read.
    pub size: Result<u64, String>,
    /// The path with every symbolic link resolved, or why it could not be.
    pub canonical: Result<String, String>,
}

/// The facts about a script as contracts see them.
pub struct ScriptFileView {
    pub path: Seq<char>,
    pub exists: bool,
    pub is_file: bool,
    pub size: Result<nat, Seq<char>>,
    pub canonical: Result<Seq<char>, Seq<char>>,
}

impl View for ScriptFile {
    type V = ScriptFileView;

    open spec fn view(&self) -> ScriptFileView {
        ScriptFileView {
            path: self.path@,
            exists: self.exists,
            is_file: self.is_file,
            size: match self.size {
                Ok(n) => Ok(n as nat),
                Err(e) => Err(e@),
            },
            canonical: match self.canonical {
                Ok(p) => Ok(p@),
                Err(e) => Err(e@),
            },
        }
    }
}

/// An extension of native code that is loaded rather than run.
pub open spec fn is_suspicious_extension(ext: Seq<char>) -> bool {
    ext == ".so"@ || ext == ".dll"@ || ext == ".dylib"@ || ext == ".ko"@ || ext == ".sys"@
}

/// The complaint about an extension outside the allow-list.
pub open spec fn not_allowed_text(ext: Seq<char>, allowed: Seq<Seq<char>>) -> Seq<char> {
    "File extension '"@ + ext + "' not allowed. Allowed: "@ + rendered_list(allowed)
}

/// The complaint about a file larger than the cap.
pub open spec fn too_large_text(size: nat, max: nat) -> Seq<char> {
    "File size "@ + decimal(size) + " exceeds maximum allowed size of "@ + decimal(max)
        + " bytes"@
}

/// The complaint about a canonical path with too many components.
pub open spec fn too_deep_text(depth: nat) -> Seq<char> {
    "Path too deep: "@ + decimal(depth) + " levels (max: "@ + decimal(MAX_PATH_DEPTH as nat)
        + ")"@
}

/// The first reason to reject a script's path, if there is one. The checks
/// run in this order: existence, kind of file, canonicalization, allow-list,
/// native-code extensions, size, depth, parent components. The extension
/// that the allow-list and the native-code rule judge is that of the
/// canonical path: where the path is a link, its target decides.
pub open spec fn path_verdict(
    allowed: Seq<Seq<char>>,
    max_size: nat,
    file: ScriptFileView,
) -> Option<ErrorView> {
    if !file.exists {
        Some(ErrorView { kind: ErrorKind::ScriptNotFound, detail: file.path })
    } else if !file.is_file {
        Some(
            ErrorView {
                kind: ErrorKind::InvalidInput,
                detail: "Path must be a file, not a directory"@,
            },
        )
    } else {
        match file.canonical {
            Err(why) => Some(ErrorView { kind: ErrorKind::Io, detail: why }),
            Ok(canonical) => {
                let ext = dotted_extension(canonical);
                if !allowed.contains(ext) {
                    Some(
                        ErrorView {
                            kind: ErrorKind::InvalidInput,
                            detail: not_allowed_text(ext, allowed),
                        },
                    )
                } else if is_suspicious_extension(ext) {
                    Some(
                        ErrorView {
                            kind: ErrorKind::SecurityViolation,
                            detail: "Suspicious file extension detected: "@ + ext,
                        },
                    )
                } else {
                    match file.size {
                        Err(why) => Some(ErrorView { kind: ErrorKind::Io, detail: why }),
                        Ok(size) => if size > max_size {
                            Some(
                                ErrorView {
                                    kind: ErrorKind::InvalidInput,
                                    detail: too_large_text(size, max_size),
                                },
                            )
                        } else if path_depth(canonical) > MAX_PATH_DEPTH {
                            Some(
                                ErrorView {
                                    kind: ErrorKind::SecurityViolation,
                                    detail: too_deep_text(path_depth(canonical)),
                                },
                            )
                        } else if has_parent_component(canonical) {
                            Some(
                                ErrorView {
                                    kind: ErrorKind::SecurityViolation,
                                    detail: "Path traversal detected"@,
                                },
                            )
                        } else {
                            None
                        },
                    }
                }
            },
        }
    }
}

/// Whether an error belongs to one of the categories of a rejected path.
pub open spec fn is_rejection(e: ErrorView) -> bool {
    e.kind == ErrorKind::ScriptNotFound || e.kind == ErrorKind::InvalidInput || e.kind
        == ErrorKind::SecurityViolation || e.kind == ErrorKind::Io
}

/// A path is rejected, with a categorized error, whenever the extension of
/// its canonical form is outside the allow-list, its file is larger than the
/// cap, or its canonical form has more than ten components or a `..`
/// component, whatever else holds of it.
pub proof fn lemma_path_rejections(allowed: Seq<Seq<char>>, max_size: nat, file: ScriptFileView)
    requires
        ({
            ||| file.canonical matches Ok(canonical) && !allowed.contains(
                dotted_extension(canonical),
            )
            ||| file.size matches Ok(size) && size > max_size
            ||| file.canonical matches Ok(canonical) && path_depth(canonical) > MAX_PATH_DEPTH
            ||| file.canonical matches Ok(canonical) && has_parent_component(canonical)
        }),
    ensures
        path_verdict(allowed, max_size, file) matches Some(e) && is_rejection(e),
{
}

/// The substrings whose presence in a script is worth a warning.
pub open spec fn suspicious_patterns() -> Seq<Seq<char>> {
    seq![
        "/proc/self/"@,
        "/sys/kernel/"@,
        "LD_PRELOAD"@,
        "LD_LIBRARY_PATH"@,
        "/etc/passwd"@,
        "/etc/shadow"@,
        "chmod +s"@,
        "setuid"@,
        "CAP_SYS_ADMIN"@,
    ]
}

/// Whether the bytes of `pattern` stand somewhere in `content`.
pub open spec fn pattern_occurs(content: Seq<u8>, pattern: Seq<char>) -> bool {
    contains_run(content, ascii_bytes(pattern))
}

/// The suspicious substrings that occur in `content`, in catalogue order.
pub open spec fn warnings_for(content: Seq<u8>) -> Seq<Seq<char>> {
    suspicious_patterns().filter(|p: Seq<char>| pattern_occurs(content, p))
}

/// Whether `content` holds a zero byte.
pub open spec fn has_null_byte(content: Seq<u8>) -> bool {
    content.contains(0u8)
}

/// The catalogue entry at `index`.
fn suspicious_pattern(index: usize) -> (pattern: &'static str)
    requires
        index < 9,
    ensures
        pattern@ == suspicious_patterns()[index as int],
        vstd::utf8::is_ascii_chars(pattern@),
{
    proof {
        reveal_strlit("/proc/self/");
        reveal_strlit("/sys/kernel/");
        reveal_strlit("LD_PRELOAD");
        reveal_strlit("LD_LIBRARY_PATH");
        reveal_strlit("/etc/passwd");
        reveal_strlit("/etc/shadow");
        reveal_strlit("chmod +s");
        reveal_strlit("setuid");
        reveal_strlit("CAP_SYS_ADMIN");
    }
    if index == 0 {
        "/proc/self/"
    } else if index == 1 {
        "/sys/kernel/"
    } else if index == 2 {
        "LD_PRELOAD"
    } else if index == 3 {
        "LD_LIBRARY_PATH"
    } else if index == 4 {
        "/etc/passwd"
    } else if index == 5 {
        "/etc/shadow"
    } else if index == 6 {
        "chmod +s"
    } else if index == 7 {
        "setuid"
    } else {
        "CAP_SYS_ADMIN"
    }
}

/// The validator of scripts: the extensions that it accepts and the size cap.
#[derive(Debug, Clone, PartialEq, Eq)]
pub struct SecurityValidator {
    pub allowed_extensions: Vec<String>,
    pub max_file_size: u64,
}

impl SecurityValidator {
    /// A validator that accepts the given dotted extensions and scripts of at
    /// most ten mebibytes.
    pub fn new(allowed_extensions: Vec<String>) -> (v: Self)
        ensures
            v.allowed_extensions == allowed_extensions,
            v.max_file_size == MAX_SCRIPT_SIZE,
    {
        SecurityValidator { allowed_extensions, max_file_size: MAX_SCRIPT_SIZE }
    }

    /// Accepts the script's path, or gives the first reason against it.
    pub fn validate_script_path(&self, file: &ScriptFile) -> (r: Result<(), SingleloadError>)
        ensures
            r is Ok <==> path_verdict(
                self.allowed_extensions.deep_view(),
                self.max_file_size as nat,
                file@,
            ) is None,
            r matches Err(e) ==> Some(e@) == path_verdict(
                self.allowed_extensions.deep_view(),
                self.max_file_size as nat,
                file@,
            ),
    {
        if !file.exists {
            return Err(SingleloadError::ScriptNotFound(file.path.clone()));
        }
        if !file.is_file {
            return Err(
                SingleloadError::InvalidInput(
                    String::from_str("Path must be a file, not a directory"),
                ),
            );
        }
        let canonical_text = match &file.canonical {
            Err(why) => {
                return Err(SingleloadError::Io(why.clone()));
            },
            Ok(canonical) => canonical.as_str(),
        };
        let canonical = chars_of(canonical_text);
        let (from, to) = find_extension(&canonical);
        let extension = canonical_text.substring_char(from, to);
        let ext_chars = chars_of(extension);
        assert(ext_chars@ =~= dotted_extension(canonical@));
        if !list_contains(&self.allowed_extensions, &ext_chars) {
            let mut text = String::from_str("File extension '");
            text.append(extension);
            text.append("' not allowed. Allowed: ");
            let list = render_list(&self.allowed_extensions);
            text.append(list.as_str());
            return Err(SingleloadError::InvalidInput(text));
        }
        if chars_are(&ext_chars, ".so") || chars_are(&ext_chars, ".dll") || chars_are(
            &ext_chars,
            ".dylib",
        ) || chars_are(&ext_chars, ".ko") || chars_are(&ext_chars, ".sys") {
            let mut text = String::from_str("Suspicious file extension detected: ");
            text.append(extension);
            return Err(SingleloadError::SecurityViolation(text));
        }
        let size = match &file.size {
            Err(why) => {
                return Err(SingleloadError::Io(why.clone()));
            },
            Ok(size) => *size,
        };
        if size > self.max_file_size {
            let mut text = String::from_str("File size ");
            text.append(decimal_text(size).as_str());
            text.append(" exceeds maximum allowed size of ");
            text.append(decimal_text(self.max_file_size).as_str());
            text.append(" bytes");
            return Err(SingleloadError::InvalidInput(text));
        }
        let (depth, parent) = scan_components(&canonical);
        if depth > MAX_PATH_DEPTH {
            let mut text = String::from_str("Path too deep: ");
            text.append(decimal_text(depth as u64).as_str());
            text.append(" levels (max: ");
            text.append(decimal_text(MAX_PATH_DEPTH as u64).as_str());
            text.append(")");
            return Err(SingleloadError::SecurityViolation(text));
        }
        if parent {
            return Err(SingleloadError::SecurityViolation(String::from_str("Path traversal detected")));
        }
        Ok(())
    }

    /// Rejects content that holds a zero byte. Accepted content comes back
    /// with the suspicious substrings found in it, which are grounds for a
    /// warning and never for a rejection.
    pub fn validate_script_content(&self, content: &[u8]) -> (r: Result<
        Vec<String>,
        SingleloadError,
    >)
        ensures
            r is Err <==> has_null_byte(content@),
            r matches Err(e) ==> e@ == (ErrorView {
                kind: ErrorKind::SecurityViolation,
                detail: "Script contains null bytes"@,
            }),
            r matches Ok(warnings) ==> warnings.deep_view() == warnings_for(content@),
    {
        let mut k: usize = 0;
        while k < content.len()
            invariant
                k <= content@.len(),
                forall|j: int| 0 <= j < k ==> content@[j] != 0u8,
            decreases content@.len() - k,
        {
            if content[k] == 0 {
                return Err(
                    SingleloadError::SecurityViolation(String::from_str("Script contains null bytes")),
                );
            }
            k += 1;
        }
        let ghost occurs = |p: Seq<char>| pattern_occurs(content@, p);
        let mut warnings: Vec<String> = Vec::new();
        let mut i: usize = 0;
        assert(suspicious_patterns().take(0).filter(occurs) =~= Seq::<Seq<char>>::empty()) by {
            assert(suspicious_patterns().take(0) =~= Seq::<Seq<char>>::empty());
            Seq::<Seq<char>>::empty().lemma_filter_len(occurs);
        }
        while i < 9
            invariant
                i <= 9,
                occurs == |p: Seq<char>| pattern_occurs(content@, p),
                warnings.deep_view() == suspicious_patterns().take(i as int).filter(occurs),
            decreases 9 - i,
        {
            let pattern = suspicious_pattern(i);
            let ghost seen = suspicious_patterns().take(i as int);
            proof {
                assert(suspicious_patterns().take(i + 1) =~= seen.push(pattern@));
                seen.lemma_filter_push(pattern@, occurs);
            }
            if bytes_contain(content, bytes_of_ascii(pattern)) {
                warnings.push(String::from_str(pattern));
                assert(warnings.deep_view() =~= seen.filter(occurs).push(pattern@));
            }
            i += 1;
        }
        assert(suspicious_patterns().take(9) =~= suspicious_patterns());
        Ok(warnings)
    }
}

/// The host directories that are never mounted into a container.
pub open spec fn forbidden_prefixes() -> Seq<Seq<char>> {
    seq![
        "/proc"@,
        "/sys"@,
        "/dev"@,
        "/etc"@,
        "/root"@,
        "/boot"@,
        "/lib"@,
        "/lib64"@,
        "/usr/lib"@,
        "/usr/lib64"@,
    ]
}

/// The first of `prefixes` that `path` begins with, if any.
pub open spec fn first_prefix_of(prefixes: Seq<Seq<char>>, path: Seq<char>) -> Option<Seq<char>>
    decreases prefixes.len(),
{
    if prefixes.len() == 0 {
        None
    } else if prefixes[0].is_prefix_of(path) {
        Some(prefixes[0])
    } else {
        first_prefix_of(prefixes.drop_first(), path)
    }
}

/// What becomes of a directory offered for mounting, given the outcome of
/// resolving it: the canonical path, or the reason it is refused.
pub open spec fn mount_verdict(canonical: Result<Seq<char>, Seq<char>>) -> Result<
    Seq<char>,
    ErrorView,
> {
    match canonical {
        Err(why) => Err(
            ErrorView { kind: ErrorKind::InvalidInput, detail: "Invalid path: "@ + why },
        ),
        Ok(path) => match first_prefix_of(forbidden_prefixes(), path) {
            Some(prefix) => Err(
                ErrorView {
                    kind: ErrorKind::SecurityViolation,
                    detail: "Cannot mount system directory: "@ + prefix,
                },
            ),
            None => Ok(path),
        },
    }
}

/// No prefix is found exactly when the path begins with none of them.
pub proof fn lemma_first_prefix_none(prefixes: Seq<Seq<char>>, path: Seq<char>)
    ensures
        first_prefix_of(prefixes, path) is None <==> forall|i: int|
            0 <= i < prefixes.len() ==> !(#[trigger] prefixes[i]).is_prefix_of(path),
        first_prefix_of(prefixes, path) matches Some(found) ==> prefixes.contains(found)
            && found.is_prefix_of(path),
    decreases prefixes.len(),
{
    if prefixes.len() > 0 {
        let rest = prefixes.drop_first();
        lemma_first_prefix_none(rest, path);
        if prefixes[0].is_prefix_of(path) {
            assert(prefixes.contains(prefixes[0]));
        } else {
            assert forall|i: int| 0 <= i < rest.len() implies rest[i] == prefixes[i + 1] by {}
            if first_prefix_of(rest, path) is None {
                assert forall|i: int| 0 <= i < prefixes.len() implies !(
                #[trigger] prefixes[i]).is_prefix_of(path) by {
                    if i > 0 {
                        assert(rest[i - 1] == prefixes[i]);
                    }
                }
            } else {
                let found = first_prefix_of(rest, path)->0;
                let k = choose|k: int| 0 <= k < rest.len() && rest[k] == found;
                assert(prefixes[k + 1] == found);
            }
        }
    }
}

/// A directory is accepted for mounting exactly when it could be resolved
/// and its canonical path begins with none of the forbidden prefixes; it
/// then comes back unchanged.
pub proof fn lemma_mount_accepted(canonical: Result<Seq<char>, Seq<char>>)
    ensures
        mount_verdict(canonical) is Ok <==> canonical is Ok && forall|i: int|
            0 <= i < forbidden_prefixes().len() ==> !(#[trigger] forbidden_prefixes()[i]).is_prefix_of(
                canonical->Ok_0,
            ),
        mount_verdict(canonical) matches Ok(path) ==> canonical == Ok::<Seq<char>, Seq<char>>(path),
{
    if canonical is Ok {
        lemma_first_prefix_none(forbidden_prefixes(), canonical->Ok_0);
    }
}

fn forbidden_prefix(index: usize) -> (prefix: &'static str)
    requires
        index < 10,
    ensures
        prefix@ == forbidden_prefixes()[index as int],
{
    if index == 0 {
        "/proc"
    } else if index == 1 {
        "/sys"
    } else if index == 2 {
        "/dev"
    } else if index == 3 {
        "/etc"
    } else if index == 4 {
        "/root"
    } else if index == 5 {
        "/boot"
    } else if index == 6 {
        "/lib"
    } else if index == 7 {
        "/lib64"
    } else if index == 8 {
        "/usr/lib"
    } else {
        "/usr/lib64"
    }
}

/// A lower-case hexadecimal digit.
pub open spec fn is_lower_hex(c: char) -> bool {
    ('0' <= c && c <= '9') || ('a' <= c && c <= 'f')
}

/// The shape of an identifier in hyphenated form: 36 characters, hyphens
/// after the groups of 8, 4, 4 and 4 digits, lower-case hexadecimal digits
/// everywhere else.
pub open spec fn is_hyphenated_id(token: Seq<char>) -> bool {
    &&& token.len() == 36
    &&& forall|i: int|
        0 <= i < 36 ==> if i == 8 || i == 13 || i == 18 || i == 23 {
            #[trigger] token[i] == '-'
        } else {
            is_lower_hex(token[i])
        }
}

/// Draws a random identifier with `uuid::Uuid::new_v4` and writes it with
/// the identifier's `Display`, the hyphenated lower-case form. Nothing is
/// claimed of which identifier comes out, only of its shape. The call does
/// not return where the operating system gives no random bytes: it panics
/// then, and no condition on the arguments can rule that out.
#[verifier::external_body]
fn fresh_token() -> (token: String)
    ensures
        is_hyphenated_id(token@),
{
    uuid::Uuid::new_v4().to_string()
}

/// The sanitizer of host paths and the source of container names.
#[derive(Debug, Clone, Copy, PartialEq, Eq)]
pub struct PathSanitizer;

impl PathSanitizer {
    /// Decides whether a host directory may be mounted. `canonical` is the
    /// outcome of resolving the directory on the host: the canonical path, or
    /// the reason the resolution failed.
    pub fn sanitize_mount_path(canonical: Result<String, String>) -> (r: Result<
        String,
        SingleloadError,
    >)
        ensures
            match mount_verdict(
                match canonical {
                    Ok(p) => Ok(p@),
                    Err(e) => Err(e@),
                },
            ) {
                Ok(path) => r matches Ok(p) && p@ == path,
                Err(error) => r matches Err(e) && e@ == error,
            },
    {
        let path = match canonical {
            Err(why) => {
                let mut text = String::from_str("Invalid path: ");
                text.append(why.as_str());
                return Err(SingleloadError::InvalidInput(text));
            },
            Ok(path) => path,
        };
        let path_chars = chars_of(path.as_str());
        let mut i: usize = 0;
        assert(forbidden_prefixes().skip(0) =~= forbidden_prefixes());
        while i < 10
            invariant
                i <= 10,
                path_chars@ == path@,
                canonical matches Ok(p) && p@ == path@,
                first_prefix_of(forbidden_prefixes(), path@) == first_prefix_of(
                    forbidden_prefixes().skip(i as int),
                    path@,
                ),
            decreases 10 - i,
        {
            let prefix = forbidden_prefix(i);
            let prefix_chars = chars_of(prefix);
            let ghost rest = forbidden_prefixes().skip(i as int);
            assert(rest.len() > 0 && rest[0] == prefix@);
            assert(rest.drop_first() =~= forbidden_prefixes().skip(i + 1));
            assert(first_prefix_of(rest, path@) == if prefix@.is_prefix_of(path@) {
                Some(prefix@)
            } else {
                first_prefix_of(rest.drop_first(), path@)
            });
            if chars_start_with(&path_chars, &prefix_chars) {
                let mut text = String::from_str("Cannot mount system directory: ");
                text.append(prefix);
                return Err(SingleloadError::SecurityViolation(text));
            }
            i += 1;
        }
        assert(forbidden_prefixes().skip(10).len() == 0);
        Ok(path)
    }

    /// A fresh container name: the prefix, a hyphen and a random identifier.
    pub fn generate_safe_container_name(prefix: &str) -> (name: String)
        ensures
            name@.len() == prefix@.len() + 37,
            name@.take(prefix@.len() as int) == prefix@,
            name@[prefix@.len() as int] == '-',
            is_hyphenated_id(name@.skip(prefix@.len() as int + 1)),
    {
        let token = fresh_token();
        let mut name = String::from_str(prefix);
        name.append("-");
        name.append(token.as_str());
        proof {
            reveal_strlit("-");
            assert(name@.take(prefix@.len() as int) =~= prefix@);
            assert(name@.skip(prefix@.len() as int + 1) =~= token@);
        }
        name
    }
}

/// A syscall-filter profile as the text that is written to a file and handed
/// to the engine.
#[derive(Debug, Clone, PartialEq, Eq)]
pub struct SeccompProfile {
    pub content: String,
}

impl Default for SeccompProfile {
    /// The profile document of the default filter: everything is allowed but
    /// the denied syscalls, which fail with error number 1, `clone` with a
    /// namespace flag, and `chmod` with the set-user-id bit.
    fn default() -> (p: Self)
        ensures
            p.content@ == default_profile_text(),
    {
        SeccompProfile { content: SeccompPolicy::default().render() }
    }
}

} // verus!
