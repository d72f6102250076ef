use linux_toolkit::commands::Command;
use linux_toolkit::scripts::{
    pick_present, script_launch_error_text, script_plan, ScriptCategory, ScriptCommand, ScriptManager,
    ScriptsConfig, ACTIVE_PORTS_SCRIPT,
};

fn script_entry(args: &[&str]) -> Command {
    Command {
        name: "📜 Port Scanner".to_string(),
        description: String::new(),
        command: "script".to_string(),
        args: args.iter().map(|a| a.to_string()).collect(),
        usage: String::new(),
        tags: Vec::new(),
        requires_sudo: true,
        category: "Network Security".to_string(),
    }
}

fn manager(dir: &str, category_dir: &str, files: &[&str]) -> ScriptManager {
    let commands = files
        .iter()
        .map(|f| ScriptCommand {
            name: f.to_string(),
            description: String::new(),
            script: f.to_string(),
            usage: String::new(),
            requires_sudo: false,
            tags: Vec::new(),
        })
        .collect();
    ScriptManager {
        config: ScriptsConfig {
            scripts: vec![(
                "k".to_string(),
                ScriptCategory {
                    name: "Cat".to_string(),
                    description: String::new(),
                    directory: category_dir.to_string(),
                    commands,
                },
            )],
        },
        scripts_dir: dir.to_string(),
    }
}

#[test]
fn deleted_script_reports_not_found() {
    let m = ScriptManager {
        config: ScriptManager::create_default_config(),
        scripts_dir: "/nonexistent/linux-toolkit-scripts".to_string(),
    };
    let r = m.prepare_script(&script_entry(&["active_ports.sh"]), false, false);
    assert_eq!(r.unwrap_err(), "Error: Script 'active_ports.sh' not found");
}

#[test]
fn script_entry_without_arguments() {
    let m = manager("/", "etc", &["passwd"]);
    let r = m.prepare_script(&script_entry(&[]), false, false);
    assert_eq!(r.unwrap_err(), "Error: No script specified");
}

#[test]
fn present_script_is_located() {
    let m = manager("/", "etc", &["passwd"]);
    assert_eq!(m.locate_script("passwd"), Some("/etc/passwd".to_string()));
    assert_eq!(m.locate_script("no-such-file-here"), None);
    let inv = m.prepare_script(&script_entry(&["passwd", "-x"]), false, false).unwrap();
    assert!(inv.program == "bash" || inv.program == "powershell");
    assert!(inv.args.contains(&"/etc/passwd".to_string()));
    assert_eq!(inv.args.last().unwrap(), "-x");
}

#[test]
fn script_plan_forms() {
    let c = script_entry(&["a.sh", "1", "2"]);
    let inv = script_plan(&c, Some("/s/n/a.sh".to_string()), true, false, true).unwrap();
    assert_eq!(inv.program, "sudo");
    assert_eq!(inv.args, vec!["bash", "/s/n/a.sh", "1", "2"]);
    let missing = script_plan(&c, None, false, false, true).unwrap_err();
    assert_eq!(missing, "Error: Script 'a.sh' not found");
}

#[test]
fn listing_keeps_present_scripts() {
    let m = manager("/", "etc", &["passwd", "no-such-file-here", "hostname"]);
    let flags = vec![vec![true, false, true]];
    let listing = m.available_scripts(&flags);
    assert_eq!(listing.len(), 1);
    assert_eq!(listing[0].0, "Cat");
    let kept: Vec<String> = listing[0].1.iter().map(|c| c.script.clone()).collect();
    assert_eq!(kept, vec!["passwd", "hostname"]);
    assert!(m.available_scripts(&vec![vec![false, false, false]]).is_empty());
    assert!(m.available_scripts(&Vec::new()).is_empty());
}

#[test]
fn listing_from_disk() {
    let m = manager("/", "etc", &["passwd", "no-such-file-here"]);
    let listing = m.list_available_scripts();
    assert_eq!(listing.len(), 1);
    assert_eq!(listing[0].1.len(), 1);
    assert_eq!(listing[0].1[0].script, "passwd");
    let gone = manager("/nonexistent", "etc", &["passwd"]);
    assert!(gone.list_available_scripts().is_empty());
}

#[test]
fn candidates_in_category_order() {
    let m = manager("/opt/kit/scripts", "network", &["a.sh"]);
    assert_eq!(m.script_candidates("a.sh"), vec!["/opt/kit/scripts/network/a.sh"]);
    assert_eq!(m.script_path("network/", "b.sh"), "/opt/kit/scripts/network/b.sh");
    let picked = pick_present(&vec!["x".to_string(), "y".to_string(), "z".to_string()], &vec![false, true, true]);
    assert_eq!(picked, Some("y".to_string()));
    assert_eq!(pick_present(&vec!["x".to_string()], &vec![]), None);
}

#[test]
fn default_scripts() {
    let ports = ScriptManager::create_default_script("active_ports.sh", "ignored");
    assert_eq!(ports, ACTIVE_PORTS_SCRIPT);
    assert!(ports.starts_with("#!/bin/bash\n# Linux Toolkit Script: Active Ports Scanner\n"));
    let other = ScriptManager::create_default_script("disk.sh", "Show disks");
    assert_eq!(
        other,
        "#!/bin/bash\n# Linux Toolkit Script: disk.sh\n# Description: Show disks\n\necho \"This is a placeholder script for: disk.sh\"\necho \"Description: Show disks\"\necho \"Please edit this script to add your functionality.\"\n\n# Add your script logic here\necho \"Script executed successfully!\"\n"
    );
}

#[test]
fn launch_error_text() {
    assert_eq!(script_launch_error_text("bash: not found"), "Script execution error: bash: not found");
}

#[test]
fn default_files_cover_every_script() {
    let m = manager("/opt/kit/scripts", "network", &["active_ports.sh", "scan.sh"]);
    let files = m.default_files();
    assert_eq!(files.len(), 2);
    assert_eq!(files[0].0, "/opt/kit/scripts/network/active_ports.sh");
    assert_eq!(files[0].1, ACTIVE_PORTS_SCRIPT);
    assert_eq!(files[1].0, "/opt/kit/scripts/network/scan.sh");
    assert!(files[1].1.contains("This is a placeholder script for: scan.sh"));
}

#[test]
fn bundled_scripts_go_under_scripts_dir() {
    let files = linux_toolkit::scripts::bundled_files("/opt/kit/scripts");
    assert_eq!(files.len(), 1);
    assert_eq!(files[0].0, "/opt/kit/scripts/network/active_ports.sh");
    assert_eq!(files[0].1, ACTIVE_PORTS_SCRIPT);
}
