use linux_toolkit::commands::{is_permission_denied_error, Command};
use linux_toolkit::config::Config;
use linux_toolkit::dispatch::{
    capture_step, combine_retry, command_output_text, interactive_retry, resolve_invocation,
    retry_called_for, script_invocation, script_output_text, terminal_step, CaptureStep, Invocation,
    RunReport, TerminalOutcome, TerminalStep,
};

fn done(text: &str, succeeded: bool) -> Result<RunReport, String> {
    Ok(RunReport { text: text.to_string(), succeeded })
}

fn entry(command: &str, args: &[&str], requires_sudo: bool) -> Command {
    Command {
        name: "Entry".to_string(),
        description: "An entry".to_string(),
        command: command.to_string(),
        args: args.iter().map(|a| a.to_string()).collect(),
        usage: String::new(),
        tags: Vec::new(),
        requires_sudo,
        category: "test".to_string(),
    }
}

fn config(auto_sudo: bool) -> Config {
    let mut c = Config::for_home(Some("/home/user".to_string()));
    c.behavior.auto_sudo = auto_sudo;
    c
}

fn copy(r: &Result<RunReport, String>) -> Result<RunReport, String> {
    match r {
        Ok(rep) => Ok(RunReport { text: rep.text.clone(), succeeded: rep.succeeded }),
        Err(e) => Err(e.clone()),
    }
}

fn parts(inv: &Invocation) -> (String, Vec<String>) {
    (inv.program.clone(), inv.args.clone())
}

fn strings(v: &[&str]) -> Vec<String> {
    v.iter().map(|s| s.to_string()).collect()
}

#[test]
fn plain_arguments_run_directly() {
    let c = entry("ls", &["-la", "/root"], false);
    let inv = resolve_invocation(&c, false, false);
    assert_eq!(parts(&inv), ("ls".to_string(), strings(&["-la", "/root"])));
}

#[test]
fn plain_arguments_run_directly_as_root_too() {
    let c = entry("cat", &["/etc/passwd"], true);
    let inv = resolve_invocation(&c, true, true);
    assert_eq!(parts(&inv), ("cat".to_string(), strings(&["/etc/passwd"])));
}

#[test]
fn and_operator_runs_through_shell() {
    let c = entry("ufw", &["enable", "&&", "ufw", "status"], false);
    let inv = resolve_invocation(&c, false, false);
    assert_eq!(parts(&inv), ("sh".to_string(), strings(&["-c", "ufw enable && ufw status"])));
}

#[test]
fn redirect_and_pipe_run_through_shell() {
    let c = entry("find", &["/", "-perm", "-4000", "2>/dev/null"], false);
    let inv = resolve_invocation(&c, false, false);
    assert_eq!(parts(&inv), ("sh".to_string(), strings(&["-c", "find / -perm -4000 2>/dev/null"])));
    let p = entry("ps", &["aux", "|", "grep", "ssh"], false);
    let inv = resolve_invocation(&p, false, false);
    assert_eq!(parts(&inv), ("sh".to_string(), strings(&["-c", "ps aux | grep ssh"])));
}

#[test]
fn elevation_wraps_plain_invocation() {
    let c = entry("ls", &["-la", "/root"], false);
    let inv = resolve_invocation(&c, true, false);
    assert_eq!(parts(&inv), ("sudo".to_string(), strings(&["ls", "-la", "/root"])));
}

#[test]
fn elevation_nests_shell_invocation() {
    let c = entry("ufw", &["enable", "&&", "ufw", "status"], false);
    let inv = resolve_invocation(&c, true, false);
    assert_eq!(
        parts(&inv),
        ("sudo".to_string(), strings(&["sh", "-c", "ufw enable && ufw status"]))
    );
}

#[test]
fn resolution_is_repeatable() {
    let c = entry("grep", &["Failed", "/var/log/auth.log"], true);
    let a = resolve_invocation(&c, true, false);
    let b = resolve_invocation(&c, true, false);
    assert_eq!(parts(&a), parts(&b));
    assert_eq!(parts(&a), ("sudo".to_string(), strings(&["grep", "Failed", "/var/log/auth.log"])));
}

#[test]
fn permission_phrase_matching_ignores_case() {
    assert!(is_permission_denied_error("Permission Denied"));
    assert!(is_permission_denied_error("permission denied"));
    assert!(is_permission_denied_error("ERROR: OPERATION NOT PERMITTED"));
    assert!(is_permission_denied_error("this tool: You Must Be Root"));
    assert!(!is_permission_denied_error("No such file or directory"));
    assert!(!is_permission_denied_error(""));
}

#[test]
fn elevated_listing_after_denied_listing() {
    let c = entry("ls", &["-la", "/root"], false);
    let cfg = config(true);
    let mut runs: Vec<Result<RunReport, String>> = Vec::new();
    match capture_step(&c, &cfg, &runs) {
        CaptureStep::Run { elevate } => assert!(!elevate),
        CaptureStep::Finish(_) => panic!("a first run is due"),
    }
    let first = command_output_text(
        "",
        "ls: cannot open directory '/root': Permission denied",
        false,
        "exit status: 2",
    );
    assert_eq!(
        first,
        "Permission denied. Try running with elevated privileges.\nError: ls: cannot open directory '/root': Permission denied"
    );
    runs.push(done(&first, false));
    match capture_step(&c, &cfg, &runs) {
        CaptureStep::Run { elevate } => assert!(elevate),
        CaptureStep::Finish(_) => panic!("an elevated retry is due"),
    }
    let listing = "total 8\ndrwx------  2 root root 4096 .\n";
    runs.push(done(&command_output_text(listing, "", true, "exit status: 0"), true));
    match capture_step(&c, &cfg, &runs) {
        CaptureStep::Finish(Ok(text)) => {
            assert!(text.starts_with("Command elevated with sudo:\n"));
            assert!(text.contains(listing));
        }
        _ => panic!("the dispatch is finished"),
    }
}

#[test]
fn failed_retry_returns_first_text() {
    let c = entry("ls", &["-la", "/root"], false);
    let cfg = config(true);
    let first = "Permission denied. Try running with elevated privileges.\nError: denied".to_string();
    let runs = vec![done(&first, false), Err("No such file or directory (os error 2)".to_string())];
    match capture_step(&c, &cfg, &runs) {
        CaptureStep::Finish(r) => assert_eq!(r, Ok(first.clone())),
        _ => panic!("the dispatch is finished"),
    }
    let runs = vec![done(&first, false), done("Error: sudo: a password is required", false)];
    match capture_step(&c, &cfg, &runs) {
        CaptureStep::Finish(r) => assert_eq!(r, Ok(first.clone())),
        _ => panic!("the dispatch is finished"),
    }
    assert_eq!(combine_retry(&done(&first, false), &Err("sudo: not found".to_string())), Ok(first));
}

#[test]
fn failed_retry_returns_first_launch_error() {
    let first: Result<RunReport, String> = Err("No such file or directory (os error 2)".to_string());
    let r = combine_retry(&first, &done("Error: denied again", false));
    assert_eq!(r, Err("No such file or directory (os error 2)".to_string()));
    let r = combine_retry(&first, &Err("sudo missing".to_string()));
    assert_eq!(r, Err("No such file or directory (os error 2)".to_string()));
}

#[test]
fn elevation_required_entry_gets_one_retry() {
    let c = entry("lsof", &["-i"], true);
    let cfg = config(false);
    let first: Result<RunReport, String> = Err("No such file or directory (os error 2)".to_string());
    assert!(retry_called_for(&first, &c, &cfg));
    let runs = vec![copy(&first)];
    assert!(matches!(capture_step(&c, &cfg, &runs), CaptureStep::Run { elevate: true }));
    let runs = vec![copy(&first), done("COMMAND PID", true)];
    match capture_step(&c, &cfg, &runs) {
        CaptureStep::Finish(r) => assert_eq!(r, Ok("Command elevated with sudo:\nCOMMAND PID".to_string())),
        _ => panic!("only one elevated retry is made"),
    }
}

#[test]
fn any_failed_run_is_retried_when_allowed() {
    let c = entry("lsof", &["-i"], true);
    let cfg = config(false);
    let first = command_output_text("", "lsof: unknown option", false, "exit status: 1");
    assert_eq!(first, "Error: lsof: unknown option");
    let runs = vec![done(&first, false)];
    assert!(matches!(capture_step(&c, &cfg, &runs), CaptureStep::Run { elevate: true }));
}

#[test]
fn successful_run_is_not_retried_without_denial() {
    let c = entry("lsof", &["-i"], true);
    let cfg = config(false);
    let runs = vec![done("COMMAND PID", true)];
    match capture_step(&c, &cfg, &runs) {
        CaptureStep::Finish(r) => assert_eq!(r, Ok("COMMAND PID".to_string())),
        _ => panic!("no retry is due"),
    }
    let runs = vec![done("warning: permission denied for some files", true)];
    assert!(matches!(capture_step(&c, &cfg, &runs), CaptureStep::Run { elevate: true }));
}

#[test]
fn failure_without_policy_is_not_retried() {
    let c = entry("ls", &["-la", "/root"], false);
    let cfg = config(false);
    let runs = vec![done("Permission denied. Try running with elevated privileges.", false)];
    assert!(matches!(capture_step(&c, &cfg, &runs), CaptureStep::Finish(Ok(_))));
}

#[test]
fn privileged_tool_allows_retry() {
    let c = entry("apt", &["update"], false);
    let cfg = config(false);
    let first = done("E: Could not open lock file - open (13: Permission denied)", true);
    assert!(retry_called_for(&first, &c, &cfg));
}

#[test]
fn terminal_steps_follow_policy() {
    let c = entry("ls", &["/root"], false);
    let cfg = config(true);
    let mut outcomes: Vec<TerminalOutcome> = Vec::new();
    match terminal_step(&c, &cfg, false, &outcomes) {
        TerminalStep::Run(inv) => assert_eq!(parts(&inv), ("ls".to_string(), strings(&["/root"]))),
        TerminalStep::Done => panic!("a first run is due"),
    }
    outcomes.push(TerminalOutcome::Failed { code: Some(1) });
    match terminal_step(&c, &cfg, false, &outcomes) {
        TerminalStep::Run(inv) => assert_eq!(parts(&inv), ("sudo".to_string(), strings(&["ls", "/root"]))),
        TerminalStep::Done => panic!("an elevated retry is due"),
    }
    outcomes.push(TerminalOutcome::Failed { code: Some(1) });
    assert!(matches!(terminal_step(&c, &cfg, false, &outcomes), TerminalStep::Done));
    let elevated = entry("lsof", &["-i"], true);
    match terminal_step(&elevated, &cfg, false, &Vec::new()) {
        TerminalStep::Run(inv) => assert_eq!(parts(&inv), ("sudo".to_string(), strings(&["lsof", "-i"]))),
        TerminalStep::Done => panic!("a first run is due"),
    }
    let ok = vec![TerminalOutcome::Succeeded];
    assert!(matches!(terminal_step(&c, &cfg, false, &ok), TerminalStep::Done));
}

#[test]
fn interactive_retry_on_permission_like_codes() {
    let c = entry("ls", &["/root"], false);
    let cfg = config(true);
    for code in [1, 126, 127] {
        assert!(interactive_retry(&c, &cfg, &TerminalOutcome::Failed { code: Some(code) }));
    }
    assert!(!interactive_retry(&c, &cfg, &TerminalOutcome::Failed { code: Some(2) }));
    assert!(!interactive_retry(&c, &cfg, &TerminalOutcome::Failed { code: None }));
    assert!(!interactive_retry(&c, &cfg, &TerminalOutcome::Succeeded));
    assert!(interactive_retry(&c, &cfg, &TerminalOutcome::LaunchFailed));
}

#[test]
fn interactive_retry_skipped_when_already_elevated_or_not_allowed() {
    let elevated = entry("lsof", &["-i"], true);
    assert!(!interactive_retry(&elevated, &config(true), &TerminalOutcome::Failed { code: Some(1) }));
    let plain = entry("ls", &["/root"], false);
    assert!(!interactive_retry(&plain, &config(false), &TerminalOutcome::Failed { code: Some(1) }));
    let tool = entry("systemctl", &["restart", "ssh"], false);
    assert!(interactive_retry(&tool, &config(false), &TerminalOutcome::Failed { code: Some(126) }));
}

#[test]
fn command_text_forms() {
    assert_eq!(command_output_text("out\n", "warn", true, "exit status: 0"), "out\n");
    assert_eq!(command_output_text("", "only stderr", true, "exit status: 0"), "only stderr");
    assert_eq!(command_output_text("", "", true, "exit status: 0"), "");
    assert_eq!(
        command_output_text("partial", "", false, "exit status: 3"),
        "Command failed with exit code: exit status: 3"
    );
    assert_eq!(
        command_output_text("", "mount: Must be root", false, "exit status: 1"),
        "Permission denied. Try running with elevated privileges.\nError: mount: Must be root"
    );
}

#[test]
fn script_text_forms() {
    assert_eq!(script_output_text("done\n", "", true, "exit status: 0"), "done\n");
    assert_eq!(script_output_text("", "note", true, "exit status: 0"), "note");
    assert_eq!(
        script_output_text("", "boom", false, "exit status: 1"),
        "Script execution failed: boom"
    );
    assert_eq!(
        script_output_text("", "", false, "exit status: 4"),
        "Script failed with exit code: exit status: 4"
    );
}

#[test]
fn script_invocation_forms() {
    let rest = strings(&["-v"]);
    let inv = script_invocation("/s/network/a.sh", &rest, false, false, true);
    assert_eq!(parts(&inv), ("bash".to_string(), strings(&["/s/network/a.sh", "-v"])));
    let inv = script_invocation("/s/network/a.sh", &rest, false, false, false);
    assert_eq!(
        parts(&inv),
        ("powershell".to_string(), strings(&["-File", "/s/network/a.sh", "-v"]))
    );
    let inv = script_invocation("/s/network/a.sh", &rest, true, false, true);
    assert_eq!(parts(&inv), ("sudo".to_string(), strings(&["bash", "/s/network/a.sh", "-v"])));
    let inv = script_invocation("/s/network/a.sh", &Vec::new(), true, true, true);
    assert_eq!(parts(&inv), ("bash".to_string(), strings(&["/s/network/a.sh"])));
}
