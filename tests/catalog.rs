use linux_toolkit::catalog::{build_catalog, find_command, first_match, merge_listing, merge_script_commands};
use linux_toolkit::commands::{
    has_permission_phrase, is_privileged_tool, load_builtin_categories, should_retry_with_sudo,
    Command, CommandCategory,
};
use linux_toolkit::config::Config;
use linux_toolkit::scripts::{ScriptCommand, ScriptManager, ScriptsConfig};
use linux_toolkit::sort::sort_by_name;

fn script(name: &str, file: &str) -> ScriptCommand {
    ScriptCommand {
        name: name.to_string(),
        description: format!("{} description", name),
        script: file.to_string(),
        usage: file.to_string(),
        requires_sudo: false,
        tags: vec!["t".to_string()],
    }
}

fn entry(name: &str) -> Command {
    Command {
        name: name.to_string(),
        description: String::new(),
        command: "du".to_string(),
        args: vec!["-sh".to_string(), ".".to_string()],
        usage: String::new(),
        tags: Vec::new(),
        requires_sudo: false,
        category: "system".to_string(),
    }
}

fn names(c: &CommandCategory) -> Vec<String> {
    c.commands.iter().map(|x| x.name.clone()).collect()
}

#[test]
fn builtin_catalog_has_security_entries() {
    let cats = load_builtin_categories();
    assert_eq!(cats.len(), 1);
    assert_eq!(cats[0].name, "Security");
    assert_eq!(
        names(&cats[0]),
        vec!["Check Failed Logins", "List Users", "Check SUID Files", "Open Files"]
    );
    assert_eq!(cats[0].commands[2].args.last().unwrap(), "2>/dev/null");
    assert!(cats[0].commands[0].requires_sudo);
    assert!(!cats[0].commands[1].requires_sudo);
}

#[test]
fn retry_policy_sources() {
    let mut cfg = Config::for_home(None);
    let mut c = entry("Disk Usage");
    assert!(!should_retry_with_sudo(&c, &cfg));
    c.command = "iptables".to_string();
    assert!(should_retry_with_sudo(&c, &cfg));
    c.command = "du".to_string();
    c.requires_sudo = true;
    assert!(should_retry_with_sudo(&c, &cfg));
    c.requires_sudo = false;
    cfg.behavior.auto_sudo = true;
    assert!(should_retry_with_sudo(&c, &cfg));
    assert!(is_privileged_tool("firewall-cmd"));
    assert!(!is_privileged_tool("firewall"));
    assert!(has_permission_phrase("sudo required for this"));
    assert!(!has_permission_phrase("Permission Denied"));
}

#[test]
fn catalog_with_new_script_category() {
    let listing = vec![(
        "Network Security".to_string(),
        vec![script("Port Scanner", "active_ports.sh"), script("Arp Table", "arp.sh")],
    )];
    let cats = build_catalog(&listing);
    let cat_names: Vec<String> = cats.iter().map(|c| c.name.clone()).collect();
    assert_eq!(cat_names, vec!["Network Security", "Security"]);
    assert_eq!(cats[0].description, "Script-based commands");
    assert_eq!(names(&cats[0]), vec!["📜 Arp Table", "📜 Port Scanner"]);
    let port = &cats[0].commands[1];
    assert_eq!(port.command, "script");
    assert_eq!(port.args, vec!["active_ports.sh".to_string()]);
    assert_eq!(port.category, "Network Security");
    assert_eq!(
        names(&cats[1]),
        vec!["Check Failed Logins", "Check SUID Files", "List Users", "Open Files"]
    );
}

#[test]
fn scripts_join_existing_category() {
    let mut cats = load_builtin_categories();
    let listing = vec![("Security".to_string(), vec![script("Zeta", "z.sh"), script("Audit", "a.sh")])];
    merge_listing(&mut cats, &listing);
    assert_eq!(cats.len(), 1);
    assert_eq!(cats[0].commands.len(), 6);
    assert_eq!(cats[0].commands[4].name, "📜 Audit");
    assert_eq!(cats[0].commands[5].name, "📜 Zeta");
    assert_eq!(cats[0].commands[5].category, "Security");
}

#[test]
fn empty_listing_keeps_catalog() {
    let mut cats = load_builtin_categories();
    merge_listing(&mut cats, &Vec::new());
    assert_eq!(cats.len(), 1);
    assert_eq!(cats[0].commands.len(), 4);
}

#[test]
fn merge_from_registry_without_files() {
    let manager = ScriptManager {
        config: ScriptManager::create_default_config(),
        scripts_dir: "/nonexistent/linux-toolkit-scripts".to_string(),
    };
    let mut cats = load_builtin_categories();
    merge_script_commands(&mut cats, &manager);
    assert_eq!(cats.len(), 1);
    assert_eq!(cats[0].commands.len(), 4);
}

#[test]
fn execute_query_matches_name_ignoring_case() {
    let cats = vec![
        CommandCategory {
            name: "Files".to_string(),
            description: String::new(),
            commands: vec![entry("List Files")],
        },
        CommandCategory {
            name: "System".to_string(),
            description: String::new(),
            commands: vec![entry("Memory"), entry("Disk Usage"), entry("Disk Usage Detail")],
        },
    ];
    assert_eq!(find_command(&cats, "disk usage"), Some((1, 1)));
    assert_eq!(find_command(&cats, "DISK"), Some((1, 1)));
    assert_eq!(find_command(&cats, "files"), Some((0, 0)));
    assert_eq!(find_command(&cats, "network"), None);
    assert_eq!(find_command(&cats, ""), Some((0, 0)));
}

#[test]
fn sort_keeps_equal_names_in_order() {
    let mut a = entry("Same");
    a.command = "first".to_string();
    let mut b = entry("Same");
    b.command = "second".to_string();
    let sorted = sort_by_name(vec![entry("b"), a, entry("B"), b, entry("a")]);
    let got: Vec<(String, String)> = sorted.iter().map(|c| (c.name.clone(), c.command.clone())).collect();
    assert_eq!(
        got,
        vec![
            ("B".to_string(), "du".to_string()),
            ("Same".to_string(), "first".to_string()),
            ("Same".to_string(), "second".to_string()),
            ("a".to_string(), "du".to_string()),
            ("b".to_string(), "du".to_string()),
        ]
    );
}

#[test]
fn default_index_is_well_formed() {
    let ScriptsConfig { scripts } = ScriptManager::create_default_config();
    assert_eq!(scripts.len(), 1);
    assert_eq!(scripts[0].0, "network");
    assert_eq!(scripts[0].1.name, "Network Security");
    assert_eq!(scripts[0].1.commands[0].script, "active_ports.sh");
    assert_eq!(scripts[0].1.commands[0].tags, vec!["network", "security", "ports", "active"]);
}

#[test]
fn first_match_on_lowered_names() {
    let lowered = vec![
        vec!["list files".to_string()],
        vec!["memory".to_string(), "disk usage".to_string()],
    ];
    assert_eq!(first_match(&lowered, "disk"), Some((1, 1)));
    assert_eq!(first_match(&lowered, "DISK"), None);
    assert_eq!(first_match(&Vec::new(), ""), None);
}
