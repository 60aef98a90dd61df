//! The syscall filter: which syscalls a container is denied, under which
//! conditions, and the profile document that tells the engine so.

use vstd::prelude::*;
use vstd::string::StringExecFns;
use crate::text::{decimal, decimal_text, render_list, rendered_list};

verus! {

/// The action that lets a syscall through.
pub open spec fn act_allow() -> Seq<char> {
    "SCMP_ACT_ALLOW"@
}

/// The action that fails a syscall with an error number.
pub open spec fn act_errno() -> Seq<char> {
    "SCMP_ACT_ERRNO"@
}

/// The comparison of a masked argument with a value.
pub open spec fn op_masked_eq() -> Seq<char> {
    "SCMP_CMP_MASKED_EQ"@
}

/// The flag of `clone` that asks for a new mount namespace.
pub const CLONE_NEWNS: u64 = 0x0002_0000;

/// The flag of `clone` that asks for a new cgroup namespace.
pub const CLONE_NEWCGROUP: u64 = 0x0200_0000;

/// The flag of `clone` that asks for a new UTS namespace.
pub const CLONE_NEWUTS: u64 = 0x0400_0000;

/// The flag of `clone` that asks for a new IPC namespace.
pub const CLONE_NEWIPC: u64 = 0x0800_0000;

/// The flag of `clone` that asks for a new user namespace.
pub const CLONE_NEWUSER: u64 = 0x1000_0000;

/// The flag of `clone` that asks for a new PID namespace.
pub const CLONE_NEWPID: u64 = 0x2000_0000;

/// The flag of `clone` that asks for a new network namespace.
pub const CLONE_NEWNET: u64 = 0x4000_0000;

/// The flags of `clone` that create a namespace, together.
pub const CLONE_NAMESPACE_MASK: u64 = 2114060288;

/// The bit of a file mode that sets the user id on execution.
pub const MODE_SETUID: u64 = 2048;

/// The namespace mask holds exactly the seven flags that create a namespace.
pub proof fn lemma_namespace_mask()
    ensures
        CLONE_NAMESPACE_MASK == CLONE_NEWNS | CLONE_NEWCGROUP | CLONE_NEWUTS | CLONE_NEWIPC
            | CLONE_NEWUSER | CLONE_NEWPID | CLONE_NEWNET,
{
    assert(2114060288u64 == 0x0002_0000u64 | 0x0200_0000u64 | 0x0400_0000u64 | 0x0800_0000u64
        | 0x1000_0000u64 | 0x2000_0000u64 | 0x4000_0000u64) by (bit_vector);
}

/// A condition on one argument of a syscall.
#[derive(Debug, Clone, PartialEq, Eq)]
pub struct SyscallCondition {
    /// Which argument, counted from 0.
    pub index: u32,
    pub value: u64,
    pub op: String,
}

/// A condition as contracts see it.
pub struct SyscallConditionView {
    pub index: nat,
    pub value: nat,
    pub op: Seq<char>,
}

impl DeepView for SyscallCondition {
    type V = SyscallConditionView;

    open spec fn deep_view(&self) -> SyscallConditionView {
        SyscallConditionView { index: self.index as nat, value: self.value as nat, op: self.op@ }
    }
}

/// One rule of the filter: what happens to the named syscalls, when the
/// conditions on their arguments hold.
#[derive(Debug, Clone, PartialEq, Eq)]
pub struct SyscallRule {
    pub names: Vec<String>,
    pub action: String,
    pub args: Vec<SyscallCondition>,
    pub comment: String,
    /// The error number that a failed syscall reports, where the rule sets one.
    pub errno_ret: Option<u32>,
}

/// A rule as contracts see it.
pub struct SyscallRuleView {
    pub names: Seq<Seq<char>>,
    pub action: Seq<char>,
    pub args: Seq<SyscallConditionView>,
    pub comment: Seq<char>,
    pub errno_ret: Option<nat>,
}

impl DeepView for SyscallRule {
    type V = SyscallRuleView;

    open spec fn deep_view(&self) -> SyscallRuleView {
        SyscallRuleView {
            names: self.names.deep_view(),
            action: self.action@,
            args: self.args.deep_view(),
            comment: self.comment@,
            errno_ret: match self.errno_ret {
                Some(n) => Some(n as nat),
                None => None,
            },
        }
    }
}

/// The whole filter.
#[derive(Debug, Clone, PartialEq, Eq)]
pub struct SeccompPolicy {
    /// What happens to a syscall that no rule names.
    pub default_action: String,
    pub default_errno_ret: u32,
    pub architecture: String,
    pub sub_architectures: Vec<String>,
    pub rules: Vec<SyscallRule>,
}

/// A filter as contracts see it.
pub struct SeccompPolicyView {
    pub default_action: Seq<char>,
    pub default_errno_ret: nat,
    pub architecture: Seq<char>,
    pub sub_architectures: Seq<Seq<char>>,
    pub rules: Seq<SyscallRuleView>,
}

impl View for SeccompPolicy {
    type V = SeccompPolicyView;

    open spec fn view(&self) -> SeccompPolicyView {
        SeccompPolicyView {
            default_action: self.default_action@,
            default_errno_ret: self.default_errno_ret as nat,
            architecture: self.architecture@,
            sub_architectures: self.sub_architectures.deep_view(),
            rules: self.rules.deep_view(),
        }
    }
}

/// The syscalls that no container may make: kernel modules, mounting and
/// namespaces, keyrings, kexec, the memory of other processes, tracing, the
/// clock, swap, reboot, performance counters and the like.
pub open spec fn denied_syscalls() -> Seq<Seq<char>> {
    seq![
        "acct"@,
        "add_key"@,
        "bpf"@,
        "clock_adjtime"@,
        "clock_settime"@,
        "create_module"@,
        "delete_module"@,
        "finit_module"@,
        "get_kernel_syms"@,
        "get_mempolicy"@,
        "init_module"@,
        "io_cancel"@,
        "io_destroy"@,
        "io_getevents"@,
        "io_setup"@,
        "io_submit"@,
        "ioperm"@,
        "iopl"@,
        "kexec_file_load"@,
        "kexec_load"@,
        "keyctl"@,
        "lookup_dcookie"@,
        "mbind"@,
        "mount"@,
        "move_pages"@,
        "name_to_handle_at"@,
        "nfsservctl"@,
        "open_by_handle_at"@,
        "perf_event_open"@,
        "personality"@,
        "pivot_root"@,
        "process_vm_readv"@,
        "process_vm_writev"@,
        "ptrace"@,
        "query_module"@,
        "quotactl"@,
        "reboot"@,
        "request_key"@,
        "set_mempolicy"@,
        "setns"@,
        "settimeofday"@,
        "stime"@,
        "swapoff"@,
        "swapon"@,
        "sysfs"@,
        "syslog"@,
        "umount"@,
        "umount2"@,
        "unshare"@,
        "uselib"@,
        "userfaultfd"@,
        "ustat"@,
        "vm86"@,
        "vm86old"@,
    ]
}

/// The rule that fails every denied syscall with error number 1.
pub open spec fn deny_rule() -> SyscallRuleView {
    SyscallRuleView {
        names: denied_syscalls(),
        action: act_errno(),
        args: Seq::empty(),
        comment: "System calls that could be used for container escape or privilege escalation"@,
        errno_ret: Some(1nat),
    }
}

/// The rule on `clone`: it is let through when its flags, masked with the
/// namespace flags, are zero, so threads can be made and namespaces cannot.
pub open spec fn clone_rule() -> SyscallRuleView {
    SyscallRuleView {
        names: seq!["clone"@],
        action: act_allow(),
        args: seq![
            SyscallConditionView {
                index: 0,
                value: CLONE_NAMESPACE_MASK as nat,
                op: op_masked_eq(),
            },
        ],
        comment: "Allow clone for thread creation but not new namespaces"@,
        errno_ret: None,
    }
}

/// The rule on the `chmod` family: a mode with the set-user-id bit fails
/// with error number 1.
pub open spec fn chmod_rule() -> SyscallRuleView {
    SyscallRuleView {
        names: seq!["chmod"@, "fchmod"@, "fchmodat"@],
        action: act_allow(),
        args: seq![
            SyscallConditionView { index: 1, value: MODE_SETUID as nat, op: op_masked_eq() },
        ],
        comment: "Block chmod with SUID/SGID bits"@,
        errno_ret: Some(1nat),
    }
}

/// The default filter: everything is allowed but what the three rules say.
pub open spec fn default_policy() -> SeccompPolicyView {
    SeccompPolicyView {
        default_action: act_allow(),
        default_errno_ret: 1,
        architecture: "SCMP_ARCH_X86_64"@,
        sub_architectures: seq!["SCMP_ARCH_X86"@, "SCMP_ARCH_X32"@],
        rules: seq![deny_rule(), clone_rule(), chmod_rule()],
    }
}

/// A condition in the profile document.
pub open spec fn rendered_condition(c: SyscallConditionView) -> Seq<char> {
    "{\"index\": "@ + decimal(c.index) + ", \"value\": "@ + decimal(c.value) + ", \"op\": \""@
        + c.op + "\"}"@
}

/// The conditions of a rule, separated by commas.
pub open spec fn joined_conditions(args: Seq<SyscallConditionView>) -> Seq<char>
    decreases args.len(),
{
    if args.len() == 0 {
        Seq::empty()
    } else if args.len() == 1 {
        rendered_condition(args[0])
    } else {
        joined_conditions(args.drop_last()) + ", "@ + rendered_condition(args.last())
    }
}

/// A rule in the profile document.
pub open spec fn rendered_rule(rule: SyscallRuleView) -> Seq<char> {
    "{\"names\": "@ + rendered_list(rule.names) + ", \"action\": \""@ + rule.action
        + "\", \"args\": ["@ + joined_conditions(rule.args) + "], \"comment\": \""@ + rule.comment
        + "\", \"includes\": {}, \"excludes\": {}"@ + match rule.errno_ret {
        Some(n) => ", \"errnoRet\": "@ + decimal(n),
        None => Seq::empty(),
    } + "}"@
}

/// The rules of a filter, separated by commas.
pub open spec fn joined_rules(rules: Seq<SyscallRuleView>) -> Seq<char>
    decreases rules.len(),
{
    if rules.len() == 0 {
        Seq::empty()
    } else if rules.len() == 1 {
        rendered_rule(rules[0])
    } else {
        joined_rules(rules.drop_last()) + ", "@ + rendered_rule(rules.last())
    }
}

/// The profile document of a filter, in the engine's JSON format. Names,
/// actions and comments are written as they are, between double quotes.
pub open spec fn rendered_policy(policy: SeccompPolicyView) -> Seq<char> {
    "{\"defaultAction\": \""@ + policy.default_action + "\", \"defaultErrnoRet\": "@ + decimal(
        policy.default_errno_ret,
    ) + ", \"archMap\": [{\"architecture\": \""@ + policy.architecture
        + "\", \"subArchitectures\": "@ + rendered_list(policy.sub_architectures)
        + "}], \"syscalls\": ["@ + joined_rules(policy.rules) + "]}"@
}

/// The profile document of the default filter.
pub open spec fn default_profile_text() -> Seq<char> {
    rendered_policy(default_policy())
}

fn denied_names() -> (names: Vec<String>)
    ensures
        names.deep_view() == denied_syscalls(),
{
    let mut names: Vec<String> = Vec::new();
    names.push(String::from_str("acct"));
    names.push(String::from_str("add_key"));
    names.push(String::from_str("bpf"));
    names.push(String::from_str("clock_adjtime"));
    names.push(String::from_str("clock_settime"));
    names.push(String::from_str("create_module"));
    names.push(String::from_str("delete_module"));
    names.push(String::from_str("finit_module"));
    names.push(String::from_str("get_kernel_syms"));
    names.push(String::from_str("get_mempolicy"));
    names.push(String::from_str("init_module"));
    names.push(String::from_str("io_cancel"));
    names.push(String::from_str("io_destroy"));
    names.push(String::from_str("io_getevents"));
    names.push(String::from_str("io_setup"));
    names.push(String::from_str("io_submit"));
    names.push(String::from_str("ioperm"));
    names.push(String::from_str("iopl"));
    names.push(String::from_str("kexec_file_load"));
    names.push(String::from_str("kexec_load"));
    names.push(String::from_str("keyctl"));
    names.push(String::from_str("lookup_dcookie"));
    names.push(String::from_str("mbind"));
    names.push(String::from_str("mount"));
    names.push(String::from_str("move_pages"));
    names.push(String::from_str("name_to_handle_at"));
    names.push(String::from_str("nfsservctl"));
    names.push(String::from_str("open_by_handle_at"));
    names.push(String::from_str("perf_event_open"));
    names.push(String::from_str("personality"));
    names.push(String::from_str("pivot_root"));
    names.push(String::from_str("process_vm_readv"));
    names.push(String::from_str("process_vm_writev"));
    names.push(String::from_str("ptrace"));
    names.push(String::from_str("query_module"));
    names.push(String::from_str("quotactl"));
    names.push(String::from_str("reboot"));
    names.push(String::from_str("request_key"));
    names.push(String::from_str("set_mempolicy"));
    names.push(String::from_str("setns"));
    names.push(String::from_str("settimeofday"));
    names.push(String::from_str("stime"));
    names.push(String::from_str("swapoff"));
    names.push(String::from_str("swapon"));
    names.push(String::from_str("sysfs"));
    names.push(String::from_str("syslog"));
    names.push(String::from_str("umount"));
    names.push(String::from_str("umount2"));
    names.push(String::from_str("unshare"));
    names.push(String::from_str("uselib"));
    names.push(String::from_str("userfaultfd"));
    names.push(String::from_str("ustat"));
    names.push(String::from_str("vm86"));
    names.push(String::from_str("vm86old"));
    assert(names.deep_view() =~= denied_syscalls());
    names
}

fn masked_eq(index: u32, value: u64) -> (c: SyscallCondition)
    ensures
        c.deep_view() == (SyscallConditionView {
            index: index as nat,
            value: value as nat,
            op: op_masked_eq(),
        }),
{
    SyscallCondition { index, value, op: String::from_str("SCMP_CMP_MASKED_EQ") }
}

impl SyscallCondition {
    /// Writes the condition as it stands in the profile document.
    pub fn render(&self) -> (text: String)
        ensures
            text@ == rendered_condition(self.deep_view()),
    {
        let mut text = String::from_str("{\"index\": ");
        text.append(decimal_text(self.index as u64).as_str());
        text.append(", \"value\": ");
        text.append(decimal_text(self.value).as_str());
        text.append(", \"op\": \"");
        text.append(self.op.as_str());
        text.append("\"}");
        text
    }
}

impl SyscallRule {
    /// Writes the rule as it stands in the profile document.
    pub fn render(&self) -> (text: String)
        ensures
            text@ == rendered_rule(self.deep_view()),
    {
        let mut text = String::from_str("{\"names\": ");
        text.append(render_list(&self.names).as_str());
        text.append(", \"action\": \"");
        text.append(self.action.as_str());
        text.append("\", \"args\": [");
        let ghost head = text@;
        let mut i: usize = 0;
        assert(self.args.deep_view().take(0) =~= Seq::<SyscallConditionView>::empty());
        assert(text@ =~= head + joined_conditions(self.args.deep_view().take(0)));
        while i < self.args.len()
            invariant
                i <= self.args@.len(),
                text@ == head + joined_conditions(self.args.deep_view().take(i as int)),
            decreases self.args@.len() - i,
        {
            let ghost before = self.args.deep_view().take(i as int);
            let ghost after = self.args.deep_view().take(i + 1);
            if i > 0 {
                text.append(", ");
            }
            text.append(self.args[i].render().as_str());
            proof {
                assert(after.drop_last() =~= before);
                assert(after.last() == self.args@[i as int].deep_view());
                if i == 0 {
                    assert(joined_conditions(before) =~= Seq::<char>::empty());
                    assert(after[0] == after.last());
                }
                assert(text@ =~= head + joined_conditions(after));
            }
            i += 1;
        }
        assert(self.args.deep_view().take(i as int) =~= self.args.deep_view());
        text.append("], \"comment\": \"");
        text.append(self.comment.as_str());
        text.append("\", \"includes\": {}, \"excludes\": {}");
        match self.errno_ret {
            Some(n) => {
                text.append(", \"errnoRet\": ");
                text.append(decimal_text(n as u64).as_str());
            },
            None => {},
        }
        text.append("}");
        assert(text@ =~= rendered_rule(self.deep_view()));
        text
    }
}

impl Default for SeccompPolicy {
    /// The default filter.
    fn default() -> (policy: Self)
        ensures
            policy@ == default_policy(),
    {
        let mut clone_names: Vec<String> = Vec::new();
        clone_names.push(String::from_str("clone"));
        let mut clone_args: Vec<SyscallCondition> = Vec::new();
        clone_args.push(masked_eq(0, CLONE_NAMESPACE_MASK));
        let mut chmod_names: Vec<String> = Vec::new();
        chmod_names.push(String::from_str("chmod"));
        chmod_names.push(String::from_str("fchmod"));
        chmod_names.push(String::from_str("fchmodat"));
        let mut chmod_args: Vec<SyscallCondition> = Vec::new();
        chmod_args.push(masked_eq(1, MODE_SETUID));
        let deny = SyscallRule {
            names: denied_names(),
            action: String::from_str("SCMP_ACT_ERRNO"),
            args: Vec::new(),
            comment: String::from_str(
                "System calls that could be used for container escape or privilege escalation",
            ),
            errno_ret: Some(1),
        };
        let clone = SyscallRule {
            names: clone_names,
            action: String::from_str("SCMP_ACT_ALLOW"),
            args: clone_args,
            comment: String::from_str("Allow clone for thread creation but not new namespaces"),
            errno_ret: None,
        };
        let chmod = SyscallRule {
            names: chmod_names,
            action: String::from_str("SCMP_ACT_ALLOW"),
            args: chmod_args,
            comment: String::from_str("Block chmod with SUID/SGID bits"),
            errno_ret: Some(1),
        };
        proof {
            assert(deny.deep_view().args =~= deny_rule().args);
            assert(clone.deep_view().names =~= clone_rule().names);
            assert(clone.deep_view().args =~= clone_rule().args);
            assert(chmod.deep_view().names =~= chmod_rule().names);
            assert(chmod.deep_view().args =~= chmod_rule().args);
            assert(deny.deep_view() == deny_rule());
            assert(clone.deep_view() == clone_rule());
            assert(chmod.deep_view() == chmod_rule());
        }
        let mut rules: Vec<SyscallRule> = Vec::new();
        rules.push(deny);
        rules.push(clone);
        rules.push(chmod);
        let mut sub_architectures: Vec<String> = Vec::new();
        sub_architectures.push(String::from_str("SCMP_ARCH_X86"));
        sub_architectures.push(String::from_str("SCMP_ARCH_X32"));
        let policy = SeccompPolicy {
            default_action: String::from_str("SCMP_ACT_ALLOW"),
            default_errno_ret: 1,
            architecture: String::from_str("SCMP_ARCH_X86_64"),
            sub_architectures,
            rules,
        };
        proof {
            assert(policy@.sub_architectures =~= default_policy().sub_architectures);
            assert(policy@.rules =~= default_policy().rules);
        }
        policy
    }
}

impl SeccompPolicy {
    /// Writes the profile document of this filter.
    pub fn render(&self) -> (text: String)
        ensures
            text@ == rendered_policy(self@),
    {
        let mut text = String::from_str("{\"defaultAction\": \"");
        text.append(self.default_action.as_str());
        text.append("\", \"defaultErrnoRet\": ");
        text.append(decimal_text(self.default_errno_ret as u64).as_str());
        text.append(", \"archMap\": [{\"architecture\": \"");
        text.append(self.architecture.as_str());
        text.append("\", \"subArchitectures\": ");
        text.append(render_list(&self.sub_architectures).as_str());
        text.append("}], \"syscalls\": [");
        let ghost head = text@;
        let mut i: usize = 0;
        assert(self.rules.deep_view().take(0) =~= Seq::<SyscallRuleView>::empty());
        assert(text@ =~= head + joined_rules(self.rules.deep_view().take(0)));
        while i < self.rules.len()
            invariant
                i <= self.rules@.len(),
                text@ == head + joined_rules(self.rules.deep_view().take(i as int)),
            decreases self.rules@.len() - i,
        {
            let ghost before = self.rules.deep_view().take(i as int);
            let ghost after = self.rules.deep_view().take(i + 1);
            if i > 0 {
                text.append(", ");
            }
            text.append(self.rules[i].render().as_str());
            proof {
                assert(after.drop_last() =~= before);
                assert(after.last() == self.rules@[i as int].deep_view());
                if i == 0 {
                    assert(joined_rules(before) =~= Seq::<char>::empty());
                    assert(after[0] == after.last());
                }
                assert(text@ =~= head + joined_rules(after));
            }
            i += 1;
        }
        assert(self.rules.deep_view().take(i as int) =~= self.rules.deep_view());
        text.append("]}");
        assert(text@ =~= rendered_policy(self@));
        text
    }
}

} // verus!
