//! User configuration: theme, behaviour flags and the directories the
//! toolkit keeps its files in. Paths are held as text.

use vstd::prelude::*;
use vstd::string::*;
use crate::text::{join_path, path_join};

verus! {

pub struct Theme {
    pub accent_color: String,
    pub background_color: String,
    pub text_color: String,
    pub highlight_color: String,
}

pub struct Behavior {
    pub auto_sudo: bool,
    pub confirm_destructive_commands: bool,
    pub save_command_history: bool,
    pub max_output_lines: usize,
}

pub struct Directories {
    pub config_dir: String,
    pub cache_dir: String,
    pub data_dir: String,
}

pub struct Config {
    pub theme: Theme,
    pub behavior: Behavior,
    pub directories: Directories,
}

/// The home directory used when the user's own cannot be found.
pub open spec fn fallback_home() -> Seq<char> {
    "/tmp"@
}

/// The toolkit's directory under `base/first` (or `base/first/second`).
pub open spec fn app_dir(home: Seq<char>, first: Seq<char>, second: Seq<char>) -> Seq<char> {
    if second.len() == 0 {
        path_join(path_join(home, first), "linux-toolkit"@)
    } else {
        path_join(path_join(path_join(home, first), second), "linux-toolkit"@)
    }
}

impl Config {
    /// The default configuration for a user whose home directory is `home`
    /// (`None` when it is unknown, in which case `/tmp` stands in for it).
    pub fn for_home(home: Option<String>) -> (r: Config)
        ensures
            ({
                let h = match home {
                    Some(h) => h@,
                    None => fallback_home(),
                };
                &&& r.directories.config_dir@ == app_dir(h, ".config"@, seq![])
                &&& r.directories.cache_dir@ == app_dir(h, ".cache"@, seq![])
                &&& r.directories.data_dir@ == app_dir(h, ".local"@, "share"@)
            }),
            r.theme.accent_color@ == "Green"@,
            r.theme.background_color@ == "Black"@,
            r.theme.text_color@ == "White"@,
            r.theme.highlight_color@ == "Yellow"@,
            !r.behavior.auto_sudo,
            r.behavior.confirm_destructive_commands,
            r.behavior.save_command_history,
            r.behavior.max_output_lines == 1000,
    {
        let home_dir = match home {
            Some(h) => h,
            None => String::from_str("/tmp"),
        };
        let config_dir = join_path(join_path(home_dir.as_str(), ".config").as_str(), "linux-toolkit");
        let cache_dir = join_path(join_path(home_dir.as_str(), ".cache").as_str(), "linux-toolkit");
        let data_dir = join_path(
            join_path(join_path(home_dir.as_str(), ".local").as_str(), "share").as_str(),
            "linux-toolkit",
        );
        Config {
            theme: Theme {
                accent_color: String::from_str("Green"),
                background_color: String::from_str("Black"),
                text_color: String::from_str("White"),
                highlight_color: String::from_str("Yellow"),
            },
            behavior: Behavior {
                auto_sudo: false,
                confirm_destructive_commands: true,
                save_command_history: true,
                max_output_lines: 1000,
            },
            directories: Directories { config_dir, cache_dir, data_dir },
        }
    }

    /// The configuration file inside the configuration directory.
    pub fn get_config_path(&self) -> (r: String)
        ensures
            r@ == path_join(self.directories.config_dir@, "config.toml"@),
    {
        join_path(self.directories.config_dir.as_str(), "config.toml")
    }

    /// The command history file inside the data directory.
    pub fn get_history_path(&self) -> (r: String)
        ensures
            r@ == path_join(self.directories.data_dir@, "command_history.json"@),
    {
        join_path(self.directories.data_dir.as_str(), "command_history.json")
    }

    /// The cache file inside the cache directory.
    pub fn get_cache_path(&self) -> (r: String)
        ensures
            r@ == path_join(self.directories.cache_dir@, "cache.json"@),
    {
        join_path(self.directories.cache_dir.as_str(), "cache.json")
    }
}

} // verus!
