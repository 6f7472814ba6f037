//! What is asked of a host, in words.

use shine_core::host::{
    enforce_output_limit, FileKind, HostError, HostErrorKind, NullObserver, RuntimeEvent,
    RuntimeObserver,
};
use shine_core::privileged::{
    changes_directly, executable_mode, install_command, make_directory_command, mode_command,
    move_command, remove_command, restart_resolver_command,
};
use shine_core::split_dns::{
    elevation_call, guarded_script, policy_apply, policy_query, policy_removal, policy_state,
    powershell_quote, route_split_dns, split_dns_marker, PolicyRule, SplitDnsRequest,
    SplitDnsRoute, SplitDnsState,
};

#[test]
fn output_over_its_limit_is_refused() {
    assert_eq!(enforce_output_limit(vec![1, 2], Some(2), "stdout").unwrap(), vec![1, 2]);
    assert_eq!(enforce_output_limit(vec![1, 2], None, "stdout").unwrap(), vec![1, 2]);
    assert_eq!(
        enforce_output_limit(vec![1, 2], Some(1), "stderr").unwrap_err(),
        "process stderr exceeded configured limit"
    );
}

#[test]
fn failures_are_told_apart_by_their_kind() {
    assert!(HostError::io(HostErrorKind::NotFound, "x").is_not_found());
    assert!(!HostError::io(HostErrorKind::Other, "x").is_not_found());
    assert!(HostError::io(HostErrorKind::NotADirectory, "x").is_not_directory());
    assert_eq!(FileKind::Symlink.as_str(), "Symlink");
}

#[test]
fn an_observer_may_ignore_what_it_is_told() {
    let mut observer = NullObserver;
    observer.emit(RuntimeEvent::Section { domain: "app".to_string() });
}

#[test]
fn privileged_changes_are_commands_that_ask_for_no_password() {
    assert!(changes_directly(false, false));
    assert!(changes_directly(true, true));
    assert!(!changes_directly(true, false));
    let command = install_command("/tmp/x", "/etc/x");
    assert_eq!(command.program, "sudo");
    assert_eq!(command.args, vec!["-n", "install", "-m", "0644", "--", "/tmp/x", "/etc/x"]);
    assert_eq!(make_directory_command("/etc/d").args, vec!["-n", "mkdir", "-p", "/etc/d"]);
    assert_eq!(move_command("/a", "/b").args, vec!["-n", "mv", "--", "/a", "/b"]);
    assert_eq!(remove_command("/a").args, vec!["-n", "rm", "-f", "--", "/a"]);
    assert_eq!(mode_command("/a", 0o100755).args, vec!["-n", "chmod", "755", "/a"]);
    assert_eq!(mode_command("/a", 0o104000).args, vec!["-n", "chmod", "4000", "/a"]);
    assert_eq!(mode_command("/a", 0).args, vec!["-n", "chmod", "0", "/a"]);
    assert_eq!(restart_resolver_command(true).program, "systemctl");
    assert_eq!(
        restart_resolver_command(false).args,
        vec!["-n", "systemctl", "restart", "systemd-resolved"]
    );
    assert_eq!(executable_mode(0o100644), 0o100755);
}

fn request() -> SplitDnsRequest {
    SplitDnsRequest {
        os_id: "windows".to_string(),
        item_id: "corp's".to_string(),
        domain: "corp".to_string(),
        servers: vec!["10.0.0.1".to_string(), "10.0.0.2".to_string()],
        resource: ".corp".to_string(),
        content: b"wanted".to_vec(),
    }
}

fn rule(comment: &str) -> PolicyRule {
    PolicyRule {
        comment: comment.to_string(),
        namespace: vec![".corp".to_string()],
        name_servers: vec!["10.0.0.1".to_string(), "10.0.0.2".to_string()],
    }
}

#[test]
fn each_operating_system_has_its_resolver() {
    assert_eq!(route_split_dns("windows"), SplitDnsRoute::PolicyRule);
    assert_eq!(route_split_dns("ubuntu"), SplitDnsRoute::File { restart_resolver: true });
    assert_eq!(route_split_dns("macos"), SplitDnsRoute::File { restart_resolver: false });
}

#[test]
fn quotes_are_doubled() {
    assert_eq!(powershell_quote("a'b''c"), "a''b''''c");
    assert_eq!(powershell_quote(""), "");
    assert_eq!(split_dns_marker("corp"), "Managed by shine: split-dns:corp");
}

#[test]
fn policy_scripts_name_the_rules_of_their_item() {
    let marker = "Managed by shine: split-dns:corp''s";
    let removal = format!(
        "$rules=@(Get-DnsClientNrptRule | Where-Object {{$_.Comment -eq '{marker}'}}); foreach($rule in $rules){{Remove-DnsClientNrptRule -Name $rule.Name -Force}}"
    );
    assert_eq!(policy_removal("corp's"), removal);
    assert_eq!(
        policy_apply(&request()),
        format!(
            "{removal}; Add-DnsClientNrptRule -Namespace '.corp' -NameServers @('10.0.0.1','10.0.0.2') -Comment '{marker}' | Out-Null"
        )
    );
    assert_eq!(
        policy_query("corp's"),
        format!(
            "$rules=@(Get-DnsClientNrptRule | Where-Object {{$_.Comment -ceq '{marker}'}} | ForEach-Object {{[PSCustomObject]@{{Comment=$_.Comment;Namespace=@($_.Namespace | ForEach-Object {{$_.ToString()}});NameServers=@($_.NameServers | ForEach-Object {{$_.ToString()}})}}}}); [PSCustomObject]@{{Rules=@($rules)}} | ConvertTo-Json -Compress -Depth 3"
        )
    );
    assert_eq!(
        guarded_script("go", "C:\\o'k"),
        "$ErrorActionPreference='Stop'\ntry {\ngo\nSet-Content -LiteralPath 'C:\\o''k' -Value 'ok'\nexit 0\n} catch {\nSet-Content -LiteralPath 'C:\\o''k' -Value $_.Exception.Message\nexit 1\n}\n"
    );
    assert_eq!(
        elevation_call("C:\\s.ps1"),
        "$p=Start-Process powershell.exe -Verb RunAs -Wait -PassThru -ArgumentList @('-NoProfile','-ExecutionPolicy','Bypass','-File','\"C:\\s.ps1\"'); exit $p.ExitCode"
    );
}

#[test]
fn rules_that_are_not_exactly_those_asked_for_are_told_apart() {
    let marker = "Managed by shine: split-dns:corp's";
    let none = policy_state(&Vec::new(), &request());
    assert!(!none.exists);
    let exact = policy_state(&vec![rule(marker)], &request());
    assert!(exact.exists);
    assert_eq!(exact.content, b"wanted");
    let two = policy_state(&vec![rule(marker), rule(marker)], &request());
    assert_eq!(two.content, marker.as_bytes());
    let mut other = rule(marker);
    other.name_servers.pop();
    assert_eq!(policy_state(&vec![other], &request()).content, marker.as_bytes());
    assert!(!SplitDnsState::default().exists);
}
