use singleload::seccomp::{
    SeccompPolicy, SyscallCondition, SyscallRule, CLONE_NAMESPACE_MASK, CLONE_NEWCGROUP,
    CLONE_NEWIPC, CLONE_NEWNET, CLONE_NEWNS, CLONE_NEWPID, CLONE_NEWUSER, CLONE_NEWUTS, MODE_SETUID,
};
use singleload::security::SeccompProfile;

fn strings(items: &[&str]) -> Vec<String> {
    items.iter().map(|s| s.to_string()).collect()
}

#[test]
fn namespace_mask_is_the_seven_flags() {
    assert_eq!(CLONE_NAMESPACE_MASK, 2114060288);
    assert_eq!(
        CLONE_NAMESPACE_MASK,
        CLONE_NEWNS | CLONE_NEWCGROUP | CLONE_NEWUTS | CLONE_NEWIPC | CLONE_NEWUSER | CLONE_NEWPID
            | CLONE_NEWNET
    );
    assert_eq!(MODE_SETUID, 0o4000);
}

#[test]
fn default_filter_allows_by_default() {
    let policy = SeccompPolicy::default();
    assert_eq!(policy.default_action, "SCMP_ACT_ALLOW");
    assert_eq!(policy.default_errno_ret, 1);
    assert_eq!(policy.architecture, "SCMP_ARCH_X86_64");
    assert_eq!(policy.sub_architectures, strings(&["SCMP_ARCH_X86", "SCMP_ARCH_X32"]));
    assert_eq!(policy.rules.len(), 3);
}

#[test]
fn default_filter_denies_the_escape_primitives() {
    let policy = SeccompPolicy::default();
    let deny = &policy.rules[0];
    assert_eq!(deny.action, "SCMP_ACT_ERRNO");
    assert_eq!(deny.errno_ret, Some(1));
    assert!(deny.args.is_empty());
    assert_eq!(
        deny.names,
        strings(&[
            "acct", "add_key", "bpf", "clock_adjtime", "clock_settime", "create_module",
            "delete_module", "finit_module", "get_kernel_syms", "get_mempolicy", "init_module",
            "io_cancel", "io_destroy", "io_getevents", "io_setup", "io_submit", "ioperm", "iopl",
            "kexec_file_load", "kexec_load", "keyctl", "lookup_dcookie", "mbind", "mount",
            "move_pages", "name_to_handle_at", "nfsservctl", "open_by_handle_at",
            "perf_event_open", "personality", "pivot_root", "process_vm_readv",
            "process_vm_writev", "ptrace", "query_module", "quotactl", "reboot", "request_key",
            "set_mempolicy", "setns", "settimeofday", "stime", "swapoff", "swapon", "sysfs",
            "syslog", "umount", "umount2", "unshare", "uselib", "userfaultfd", "ustat", "vm86",
            "vm86old",
        ])
    );
}

#[test]
fn default_filter_conditions_clone_and_chmod() {
    let policy = SeccompPolicy::default();
    assert_eq!(
        policy.rules[1],
        SyscallRule {
            names: strings(&["clone"]),
            action: "SCMP_ACT_ALLOW".to_string(),
            args: vec![SyscallCondition {
                index: 0,
                value: 2114060288,
                op: "SCMP_CMP_MASKED_EQ".to_string()
            }],
            comment: "Allow clone for thread creation but not new namespaces".to_string(),
            errno_ret: None,
        }
    );
    assert_eq!(
        policy.rules[2],
        SyscallRule {
            names: strings(&["chmod", "fchmod", "fchmodat"]),
            action: "SCMP_ACT_ALLOW".to_string(),
            args: vec![SyscallCondition {
                index: 1,
                value: 2048,
                op: "SCMP_CMP_MASKED_EQ".to_string()
            }],
            comment: "Block chmod with SUID/SGID bits".to_string(),
            errno_ret: Some(1),
        }
    );
}

#[test]
fn condition_is_written_as_an_object() {
    let c = SyscallCondition { index: 1, value: 2048, op: "SCMP_CMP_MASKED_EQ".to_string() };
    assert_eq!(c.render(), "{\"index\": 1, \"value\": 2048, \"op\": \"SCMP_CMP_MASKED_EQ\"}");
}

#[test]
fn rule_is_written_as_an_object() {
    let rule = SyscallRule {
        names: strings(&["a", "b"]),
        action: "SCMP_ACT_ERRNO".to_string(),
        args: vec![
            SyscallCondition { index: 0, value: 7, op: "SCMP_CMP_EQ".to_string() },
            SyscallCondition { index: 2, value: 0, op: "SCMP_CMP_NE".to_string() },
        ],
        comment: "why".to_string(),
        errno_ret: Some(13),
    };
    assert_eq!(
        rule.render(),
        "{\"names\": [\"a\", \"b\"], \"action\": \"SCMP_ACT_ERRNO\", \"args\": [\
         {\"index\": 0, \"value\": 7, \"op\": \"SCMP_CMP_EQ\"}, \
         {\"index\": 2, \"value\": 0, \"op\": \"SCMP_CMP_NE\"}], \
         \"comment\": \"why\", \"includes\": {}, \"excludes\": {}, \"errnoRet\": 13}"
    );
    let bare = SyscallRule {
        names: Vec::new(),
        action: "SCMP_ACT_ALLOW".to_string(),
        args: Vec::new(),
        comment: String::new(),
        errno_ret: None,
    };
    assert_eq!(
        bare.render(),
        "{\"names\": [], \"action\": \"SCMP_ACT_ALLOW\", \"args\": [], \"comment\": \"\", \
         \"includes\": {}, \"excludes\": {}}"
    );
}

#[test]
fn policy_is_written_as_a_document() {
    let policy = SeccompPolicy {
        default_action: "SCMP_ACT_ALLOW".to_string(),
        default_errno_ret: 1,
        architecture: "SCMP_ARCH_X86_64".to_string(),
        sub_architectures: strings(&["SCMP_ARCH_X86"]),
        rules: Vec::new(),
    };
    assert_eq!(
        policy.render(),
        "{\"defaultAction\": \"SCMP_ACT_ALLOW\", \"defaultErrnoRet\": 1, \"archMap\": [\
         {\"architecture\": \"SCMP_ARCH_X86_64\", \"subArchitectures\": [\"SCMP_ARCH_X86\"]}], \
         \"syscalls\": []}"
    );
}

#[test]
fn default_profile_is_the_default_filter_as_json() {
    let profile = SeccompProfile::default().content;
    assert_eq!(profile, SeccompPolicy::default().render());
    let document: serde_json::Value = serde_json::from_str(&profile).expect("valid JSON");
    assert_eq!(document["defaultAction"].as_str(), Some("SCMP_ACT_ALLOW"));
    assert_eq!(document["defaultErrnoRet"].as_u64(), Some(1));
    assert_eq!(document["archMap"][0]["architecture"].as_str(), Some("SCMP_ARCH_X86_64"));
    let rules = document["syscalls"].as_array().expect("rules");
    assert_eq!(rules.len(), 3);
    let policy = SeccompPolicy::default();
    for (rule, written) in policy.rules.iter().zip(rules) {
        let names: Vec<&str> =
            written["names"].as_array().expect("names").iter().filter_map(|n| n.as_str()).collect();
        assert_eq!(names, rule.names.iter().map(|n| n.as_str()).collect::<Vec<_>>());
        assert_eq!(written["action"].as_str(), Some(rule.action.as_str()));
        assert_eq!(written["comment"].as_str(), Some(rule.comment.as_str()));
        assert_eq!(written["errnoRet"].as_u64(), rule.errno_ret.map(u64::from));
        let args = written["args"].as_array().expect("args");
        assert_eq!(args.len(), rule.args.len());
        for (arg, condition) in args.iter().zip(&rule.args) {
            assert_eq!(arg["index"].as_u64(), Some(u64::from(condition.index)));
            assert_eq!(arg["value"].as_u64(), Some(condition.value));
            assert_eq!(arg["op"].as_str(), Some(condition.op.as_str()));
        }
    }
}
