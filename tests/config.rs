use linux_toolkit::config::Config;
use linux_toolkit::text::{contains_str, join, join_path, str_eq, str_less};

#[test]
fn default_configuration_for_home() {
    let c = Config::for_home(Some("/home/ada".to_string()));
    assert_eq!(c.directories.config_dir, "/home/ada/.config/linux-toolkit");
    assert_eq!(c.directories.cache_dir, "/home/ada/.cache/linux-toolkit");
    assert_eq!(c.directories.data_dir, "/home/ada/.local/share/linux-toolkit");
    assert_eq!(c.theme.accent_color, "Green");
    assert_eq!(c.theme.highlight_color, "Yellow");
    assert!(!c.behavior.auto_sudo);
    assert_eq!(c.behavior.max_output_lines, 1000);
}

#[test]
fn unknown_home_falls_back_to_tmp() {
    let c = Config::for_home(None);
    assert_eq!(c.directories.config_dir, "/tmp/.config/linux-toolkit");
}

#[test]
fn file_paths() {
    let c = Config::for_home(Some("/root/".to_string()));
    assert_eq!(c.get_config_path(), "/root/.config/linux-toolkit/config.toml");
    assert_eq!(c.get_history_path(), "/root/.local/share/linux-toolkit/command_history.json");
    assert_eq!(c.get_cache_path(), "/root/.cache/linux-toolkit/cache.json");
}

#[test]
fn text_helpers() {
    assert_eq!(join_path("a", "/abs"), "/abs");
    assert_eq!(join_path("", "rel"), "rel");
    assert_eq!(join_path("a/", "b"), "a/b");
    assert!(contains_str("abcabd", "abd"));
    assert!(!contains_str("ab", "abc"));
    assert!(contains_str("x", ""));
    assert_eq!(join(&vec!["a".to_string(), "b".to_string(), "c".to_string()], ", "), "a, b, c");
    assert_eq!(join(&Vec::new(), " "), "");
    assert!(str_eq("é", "é"));
    assert!(str_less("Apple", "apple"));
    assert!(str_less("ab", "abc"));
    assert!(!str_less("abc", "abc"));
}
