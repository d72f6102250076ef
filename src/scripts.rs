//! The script registry: categories of bundled scripts kept under a scripts
//! directory, which of them are present on disk, and how a script entry of
//! the catalog becomes a process to start.

use vstd::prelude::*;
use vstd::string::*;
use crate::commands::{literal_views, strings_of, Command};
use crate::commands::CommandView;
use crate::dispatch::{script_invocation, script_resolved, Invocation, InvocationView};
use crate::text::{copy_strings, join_path, lemma_views_push, opt_view, path_join, str_eq, views_of};

verus! {

/// One script of a category: `script` is its file name inside the
/// category's directory.
#[derive(Clone, Debug)]
pub struct ScriptCommand {
    pub name: String,
    pub description: String,
    pub script: String,
    pub usage: String,
    pub requires_sudo: bool,
    pub tags: Vec<String>,
}

pub struct ScriptCommandView {
    pub name: Seq<char>,
    pub description: Seq<char>,
    pub script: Seq<char>,
    pub usage: Seq<char>,
    pub requires_sudo: bool,
    pub tags: Seq<Seq<char>>,
}

impl View for ScriptCommand {
    type V = ScriptCommandView;

    open spec fn view(&self) -> ScriptCommandView {
        ScriptCommandView {
            name: self.name@,
            description: self.description@,
            script: self.script@,
            usage: self.usage@,
            requires_sudo: self.requires_sudo,
            tags: views_of(self.tags@),
        }
    }
}

pub open spec fn script_views(v: Seq<ScriptCommand>) -> Seq<ScriptCommandView> {
    v.map_values(|c: ScriptCommand| c@)
}

/// A category of scripts, kept in its own subdirectory.
#[derive(Clone, Debug)]
pub struct ScriptCategory {
    pub name: String,
    pub description: String,
    pub directory: String,
    pub commands: Vec<ScriptCommand>,
}

pub struct ScriptCategoryView {
    pub name: Seq<char>,
    pub description: Seq<char>,
    pub directory: Seq<char>,
    pub commands: Seq<ScriptCommandView>,
}

impl View for ScriptCategory {
    type V = ScriptCategoryView;

    open spec fn view(&self) -> ScriptCategoryView {
        ScriptCategoryView {
            name: self.name@,
            description: self.description@,
            directory: self.directory@,
            commands: script_views(self.commands@),
        }
    }
}

/// The registry's index: categories under distinct keys, in a fixed order.
#[derive(Clone, Debug)]
pub struct ScriptsConfig {
    pub scripts: Vec<(String, ScriptCategory)>,
}

impl ScriptsConfig {
    /// The categories, in order.
    pub open spec fn categories(&self) -> Seq<ScriptCategoryView> {
        self.scripts@.map_values(|e: (String, ScriptCategory)| e.1@)
    }

    /// No key is used twice.
    pub open spec fn well_formed(&self) -> bool {
        forall|i: int, j: int|
            0 <= i < j < self.scripts@.len() ==> #[trigger] self.scripts@[i].0@
                != #[trigger] self.scripts@[j].0@
    }
}

/// The registry: its index and the directory that holds the scripts.
pub struct ScriptManager {
    pub config: ScriptsConfig,
    pub scripts_dir: String,
}

/// Relies on `std::path::Path::exists`: whether a file is at `path` right
/// now. Nothing is promised of the answer, which depends on the disk.
#[verifier::external_body]
fn path_exists(path: &str) -> (r: bool) {
    std::path::Path::new(path).exists()
}

/// Relies on `which::which`: whether a program of that name is found on the
/// search path. Nothing is promised of the answer, which depends on the
/// machine.
#[verifier::external_body]
fn program_available(name: &str) -> (r: bool) {
    which::which(name).is_ok()
}

/// The file of script `script` of a category kept in `directory`.
pub open spec fn script_file(scripts_dir: Seq<char>, directory: Seq<char>, script: Seq<char>) -> Seq<char> {
    path_join(path_join(scripts_dir, directory), script)
}

/// Flag `j` of `flags`; a flag that is not given counts as absent.
pub open spec fn flag_at(flags: Seq<bool>, j: int) -> bool {
    0 <= j < flags.len() && flags[j]
}

/// Row `i` of `rows`; a row that is not given is empty.
pub open spec fn row_at(rows: Seq<Seq<bool>>, i: int) -> Seq<bool> {
    if 0 <= i < rows.len() {
        rows[i]
    } else {
        seq![]
    }
}

/// The scripts of `cmds` whose flag is set, in order.
pub open spec fn kept_scripts(cmds: Seq<ScriptCommandView>, flags: Seq<bool>) -> Seq<ScriptCommandView>
    decreases cmds.len(),
{
    if cmds.len() == 0 {
        seq![]
    } else {
        let rest = kept_scripts(cmds.drop_last(), flags);
        if flag_at(flags, cmds.len() - 1) {
            rest.push(cmds.last())
        } else {
            rest
        }
    }
}

/// For each category in order, its name and its scripts that are present,
/// leaving out categories with none present. `present[i][j]` tells whether
/// script `j` of category `i` is on disk.
pub open spec fn listing_of(cats: Seq<ScriptCategoryView>, present: Seq<Seq<bool>>) -> Seq<(Seq<char>, Seq<ScriptCommandView>)>
    decreases cats.len(),
{
    if cats.len() == 0 {
        seq![]
    } else {
        let rest = listing_of(cats.drop_last(), present);
        let kept = kept_scripts(cats.last().commands, row_at(present, cats.len() - 1));
        if kept.len() > 0 {
            rest.push((cats.last().name, kept))
        } else {
            rest
        }
    }
}

pub open spec fn listing_view(v: Seq<(String, Vec<ScriptCommand>)>) -> Seq<(Seq<char>, Seq<ScriptCommandView>)> {
    v.map_values(|e: (String, Vec<ScriptCommand>)| (e.0@, script_views(e.1@)))
}

/// The bundled port-listing script, written when its file is missing.
pub const ACTIVE_PORTS_SCRIPT: &'static str = "#!/bin/bash
# Linux Toolkit Script: Active Ports Scanner
# Description: See what ports are currently active on the system.

echo \"=== Active Network Connections ===\"
echo

# Check if netstat is available
if command -v netstat >/dev/null 2>&1; then
    echo \"Using netstat to show active connections:\"
    netstat -tuln
elif command -v ss >/dev/null 2>&1; then
    echo \"Using ss to show active connections:\"
    ss -tuln
else
    echo \"Neither netstat nor ss are available. Please install net-tools or iproute2.\"
    exit 1
fi

echo
echo \"=== Listening Ports Summary ===\"
if command -v netstat >/dev/null 2>&1; then
    netstat -tuln | grep LISTEN | awk '{print $4}' | sort -u
elif command -v ss >/dev/null 2>&1; then
    ss -tuln | grep LISTEN | awk '{print $4}' | sort -u
fi
";

/// A placeholder script that names itself and its purpose.
pub open spec fn placeholder_script(name: Seq<char>, description: Seq<char>) -> Seq<char> {
    "#!/bin/bash\n# Linux Toolkit Script: "@ + name + "\n# Description: "@ + description
        + "\n\necho \"This is a placeholder script for: "@ + name + "\"\necho \"Description: "@
        + description
        + "\"\necho \"Please edit this script to add your functionality.\"\n\n# Add your script logic here\necho \"Script executed successfully!\"\n"@
}

/// The message for a script entry that names no script.
pub open spec fn no_script_message() -> Seq<char> {
    "Error: No script specified"@
}

/// The message for a script that is in no category's directory.
pub open spec fn script_missing_message(name: Seq<char>) -> Seq<char> {
    "Error: Script '"@ + name + "' not found"@
}

/// `found` is the first of `candidates` whose flag is set, or `None` when no
/// flag is set.
pub open spec fn first_present(candidates: Seq<Seq<char>>, present: Seq<bool>, found: Option<Seq<char>>) -> bool {
    match found {
        Some(p) => exists|k: int|
            0 <= k < candidates.len() && flag_at(present, k) && candidates[k] == p && forall|m: int|
                0 <= m < k ==> !#[trigger] flag_at(present, m),
        None => forall|k: int| 0 <= k < candidates.len() ==> !#[trigger] flag_at(present, k),
    }
}

fn copy_script(c: &ScriptCommand) -> (r: ScriptCommand)
    ensures
        r@ == c@,
{
    ScriptCommand {
        name: c.name.clone(),
        description: c.description.clone(),
        script: c.script.clone(),
        usage: c.usage.clone(),
        requires_sudo: c.requires_sudo,
        tags: copy_strings(&c.tags),
    }
}

proof fn lemma_prefix_step<T>(s: Seq<T>, i: int)
    requires
        0 <= i < s.len(),
    ensures
        s.subrange(0, i + 1).drop_last() == s.subrange(0, i),
        s.subrange(0, i + 1).last() == s[i],
        s.subrange(0, i + 1).len() == i + 1,
{
    assert(s.subrange(0, i + 1).drop_last() =~= s.subrange(0, i));
}

impl ScriptManager {
    /// The files where script `name` may live: one per category, in order.
    pub open spec fn candidate_files(&self, name: Seq<char>) -> Seq<Seq<char>> {
        self.config.categories().map_values(
            |c: ScriptCategoryView| script_file(self.scripts_dir@, c.directory, name),
        )
    }

    /// Where script `script` of a category kept in `directory` lives.
    pub fn script_path(&self, directory: &str, script: &str) -> (r: String)
        ensures
            r@ == script_file(self.scripts_dir@, directory@, script@),
    {
        join_path(join_path(self.scripts_dir.as_str(), directory).as_str(), script)
    }

    /// The present scripts of `cmds`, given for each whether it is present.
    fn kept(cmds: &Vec<ScriptCommand>, flags: &Vec<bool>) -> (r: Vec<ScriptCommand>)
        ensures
            script_views(r@) == kept_scripts(script_views(cmds@), flags@),
    {
        let mut r: Vec<ScriptCommand> = Vec::new();
        let mut j: usize = 0;
        while j < cmds.len()
            invariant
                j <= cmds@.len(),
                script_views(r@) == kept_scripts(script_views(cmds@.subrange(0, j as int)), flags@),
            decreases cmds@.len() - j,
        {
            let ghost before = r@;
            proof {
                lemma_prefix_step(cmds@, j as int);
                assert(script_views(cmds@.subrange(0, j + 1)).drop_last() =~= script_views(cmds@.subrange(0, j as int)));
            }
            if j < flags.len() && flags[j] {
                r.push(copy_script(&cmds[j]));
                assert(script_views(r@) =~= script_views(before).push(cmds@[j as int]@));
            }
            j = j + 1;
        }
        assert(cmds@.subrange(0, cmds@.len() as int) =~= cmds@);
        r
    }

    /// The listing of present scripts, given `present[i][j]` for script `j`
    /// of category `i`: each category in order with its present scripts,
    /// leaving out categories with none.
    pub fn available_scripts(&self, present: &Vec<Vec<bool>>) -> (r: Vec<(String, Vec<ScriptCommand>)>)
        ensures
            listing_view(r@) == listing_of(self.config.categories(), present@.map_values(|row: Vec<bool>| row@)),
    {
        let ghost rows = present@.map_values(|row: Vec<bool>| row@);
        let ghost cats = self.config.categories();
        let mut r: Vec<(String, Vec<ScriptCommand>)> = Vec::new();
        let mut i: usize = 0;
        let empty: Vec<bool> = Vec::new();
        while i < self.config.scripts.len()
            invariant
                i <= cats.len(),
                cats == self.config.categories(),
                cats.len() == self.config.scripts@.len(),
                rows == present@.map_values(|row: Vec<bool>| row@),
                empty@.len() == 0,
                listing_view(r@) == listing_of(cats.subrange(0, i as int), rows),
            decreases cats.len() - i,
        {
            let category = &self.config.scripts[i].1;
            let flags = if i < present.len() {
                &present[i]
            } else {
                &empty
            };
            assert(flags@ == row_at(rows, i as int)) by {
                if i < present.len() {
                    assert(rows[i as int] == present@[i as int]@);
                } else {
                    assert(empty@ =~= seq![]);
                }
            }
            let kept = Self::kept(&category.commands, flags);
            proof {
                lemma_prefix_step(cats, i as int);
                assert(cats[i as int] == category@);
            }
            if kept.len() > 0 {
                let ghost before = r@;
                r.push((category.name.clone(), kept));
                assert(listing_view(r@) =~= listing_view(before).push((category.name@, script_views(kept@))));
            }
            i = i + 1;
        }
        assert(cats.subrange(0, cats.len() as int) =~= cats);
        r
    }

    /// The listing of the scripts that are present on disk now. What is
    /// present is read from the disk: the listing is that of some presence
    /// of the configured scripts.
    pub fn list_available_scripts(&self) -> (r: Vec<(String, Vec<ScriptCommand>)>)
        ensures
            exists|present: Seq<Seq<bool>>| listing_view(r@) == listing_of(self.config.categories(), present),
    {
        let mut present: Vec<Vec<bool>> = Vec::new();
        let mut i: usize = 0;
        while i < self.config.scripts.len()
            decreases self.config.scripts@.len() - i,
        {
            let category = &self.config.scripts[i].1;
            let mut row: Vec<bool> = Vec::new();
            let mut j: usize = 0;
            while j < category.commands.len()
                decreases category.commands@.len() - j,
            {
                let file = self.script_path(category.directory.as_str(), category.commands[j].script.as_str());
                row.push(path_exists(file.as_str()));
                j = j + 1;
            }
            present.push(row);
            i = i + 1;
        }
        self.available_scripts(&present)
    }

    /// The files where script `name` may live: one per category, in order.
    pub fn script_candidates(&self, name: &str) -> (r: Vec<String>)
        ensures
            views_of(r@) == self.candidate_files(name@),
    {
        let ghost cats = self.config.categories();
        let mut r: Vec<String> = Vec::new();
        let mut i: usize = 0;
        while i < self.config.scripts.len()
            invariant
                i <= cats.len(),
                cats == self.config.categories(),
                cats.len() == self.config.scripts@.len(),
                r@.len() == i,
                views_of(r@) == cats.subrange(0, i as int).map_values(
                    |c: ScriptCategoryView| script_file(self.scripts_dir@, c.directory, name@),
                ),
            decreases cats.len() - i,
        {
            let ghost before = r@;
            let p = self.script_path(self.config.scripts[i].1.directory.as_str(), name);
            r.push(p);
            proof {
                let f = |c: ScriptCategoryView| script_file(self.scripts_dir@, c.directory, name@);
                assert(cats[i as int] == self.config.scripts@[i as int].1@);
                lemma_views_push(before, r@[i as int]);
                lemma_prefix_step(cats, i as int);
                assert(cats.subrange(0, i + 1).map_values(f) =~= cats.subrange(0, i as int).map_values(f).push(f(cats[i as int])));
            }
            i = i + 1;
        }
        assert(cats.subrange(0, cats.len() as int) =~= cats);
        r
    }
}

/// The first candidate whose flag is set.
pub fn pick_present(candidates: &Vec<String>, present: &Vec<bool>) -> (r: Option<String>)
    ensures
        first_present(views_of(candidates@), present@, opt_view(r)),
{
    let mut i: usize = 0;
    while i < candidates.len()
        invariant
            i <= candidates@.len(),
            forall|m: int| 0 <= m < i ==> !#[trigger] flag_at(present@, m),
        decreases candidates@.len() - i,
    {
        if i < present.len() && present[i] {
            assert(views_of(candidates@)[i as int] == candidates@[i as int]@);
            return Some(candidates[i].clone());
        }
        i = i + 1;
    }
    None
}

pub open spec fn plan_view(r: Result<Invocation, String>) -> Result<InvocationView, Seq<char>> {
    match r {
        Ok(inv) => Ok(inv@),
        Err(e) => Err(e@),
    }
}

/// What a run of script entry `c` starts, or the text it yields instead:
/// an entry without arguments names no script; a script found nowhere is
/// reported missing; else the located file runs with the remaining
/// arguments.
pub open spec fn script_plan_of(
    c: CommandView,
    located: Option<Seq<char>>,
    elevate: bool,
    is_root: bool,
    bash_available: bool,
) -> Result<InvocationView, Seq<char>> {
    if c.args.len() == 0 {
        Err(no_script_message())
    } else {
        match located {
            None => Err(script_missing_message(c.args[0])),
            Some(p) => Ok(script_resolved(p, c.args.drop_first(), elevate, is_root, bash_available)),
        }
    }
}

fn tail_of(v: &Vec<String>) -> (r: Vec<String>)
    requires
        v@.len() > 0,
    ensures
        views_of(r@) == views_of(v@).drop_first(),
{
    let mut r: Vec<String> = Vec::new();
    let mut i: usize = 1;
    while i < v.len()
        invariant
            1 <= i <= v@.len(),
            r@.len() == i - 1,
            views_of(r@) == views_of(v@).subrange(1, i as int),
        decreases v@.len() - i,
    {
        let ghost before = r@;
        r.push(v[i].clone());
        proof {
            lemma_views_push(before, v@[i as int]);
            assert(views_of(v@).subrange(1, i + 1) =~= views_of(v@).subrange(1, i as int).push(v@[i as int]@));
        }
        i = i + 1;
    }
    assert(views_of(v@).subrange(1, v@.len() as int) =~= views_of(v@).drop_first());
    r
}

/// What a run of script entry `command` starts, given where its script was
/// found (`None`: nowhere) and whether `bash` is available; `Err` holds the
/// text that the run yields instead.
pub fn script_plan(
    command: &Command,
    located: Option<String>,
    elevate: bool,
    is_root: bool,
    bash_available: bool,
) -> (r: Result<Invocation, String>)
    ensures
        plan_view(r) == script_plan_of(command@, opt_view(located), elevate, is_root, bash_available),
{
    if command.args.len() == 0 {
        return Err(String::from_str("Error: No script specified"));
    }
    assert(command@.args[0] == command.args@[0]@);
    match located {
        None => {
            let m = String::from_str("Error: Script '").concat(command.args[0].as_str());
            Err(m.concat("' not found"))
        },
        Some(path) => {
            let rest = tail_of(&command.args);
            Ok(script_invocation(path.as_str(), &rest, elevate, is_root, bash_available))
        },
    }
}

impl ScriptManager {
    /// The first file among the candidates for script `name` that is on
    /// disk now, if any.
    pub fn locate_script(&self, name: &str) -> (r: Option<String>)
        ensures
            exists|present: Seq<bool>| #[trigger] first_present(
                self.candidate_files(name@),
                present,
                opt_view(r),
            ),
    {
        let candidates = self.script_candidates(name);
        let mut present: Vec<bool> = Vec::new();
        let mut i: usize = 0;
        while i < candidates.len()
            decreases candidates@.len() - i,
        {
            present.push(path_exists(candidates[i].as_str()));
            i = i + 1;
        }
        pick_present(&candidates, &present)
    }

    /// What a run of script entry `command` starts: its script is looked up
    /// on disk in each category's directory, and `bash` on the search path.
    /// `Err` holds the text that the run yields instead.
    pub fn prepare_script(&self, command: &Command, elevate: bool, is_root: bool) -> (r: Result<Invocation, String>)
        ensures
            command@.args.len() == 0 ==> plan_view(r) == Err::<InvocationView, Seq<char>>(no_script_message()),
            command@.args.len() > 0 ==> exists|located: Option<Seq<char>>, bash_available: bool|
                plan_view(r) == #[trigger] script_plan_of(command@, located, elevate, is_root, bash_available)
                    && (located is Some ==> self.candidate_files(command@.args[0]).contains(located->0)),
    {
        if command.args.len() == 0 {
            return script_plan(command, None, elevate, is_root, true);
        }
        let located = self.locate_script(command.args[0].as_str());
        proof {
            assert(command@.args[0] == command.args@[0]@);
            let cands = self.candidate_files(command@.args[0]);
            let present = choose|present: Seq<bool>| #[trigger] first_present(cands, present, opt_view(located));
            if located is Some {
                let k = choose|k: int|
                    0 <= k < cands.len() && flag_at(present, k) && cands[k] == opt_view(located)->0
                        && forall|m: int| 0 <= m < k ==> !#[trigger] flag_at(present, m);
                assert(cands.contains(opt_view(located)->0));
            }
        }
        let bash_available = program_available("bash");
        script_plan(command, located, elevate, is_root, bash_available)
    }

    /// The index written when the registry has none: one "Network Security"
    /// category, kept in `network`, with the port-listing script.
    pub fn create_default_config() -> (r: ScriptsConfig)
        ensures
            r.well_formed(),
            r.scripts@.len() == 1,
            r.scripts@[0].0@ == "network"@,
            r.scripts@[0].1@ == (ScriptCategoryView {
                name: "Network Security"@,
                description: "Network analysis and security tools"@,
                directory: "network"@,
                commands: seq![ScriptCommandView {
                    name: "Port Scanner"@,
                    description: "See what ports are currently active on the system."@,
                    script: "active_ports.sh"@,
                    usage: "active_ports.sh"@,
                    requires_sudo: true,
                    tags: seq!["network"@, "security"@, "ports"@, "active"@],
                }],
            }),
    {
        let tags = strings_of(&vec!["network", "security", "ports", "active"]);
        let command = ScriptCommand {
            name: String::from_str("Port Scanner"),
            description: String::from_str("See what ports are currently active on the system."),
            script: String::from_str("active_ports.sh"),
            usage: String::from_str("active_ports.sh"),
            requires_sudo: true,
            tags,
        };
        let category = ScriptCategory {
            name: String::from_str("Network Security"),
            description: String::from_str("Network analysis and security tools"),
            directory: String::from_str("network"),
            commands: vec![command],
        };
        let r = ScriptsConfig { scripts: vec![(String::from_str("network"), category)] };
        assert(literal_views(seq!["network", "security", "ports", "active"]) =~= seq!["network"@, "security"@, "ports"@, "active"@]);
        assert(script_views(r.scripts@[0].1.commands@) =~= seq![r.scripts@[0].1.commands@[0]@]);
        r
    }

    /// The text written for script `script_name` when its file is missing:
    /// the bundled port-listing script for `active_ports.sh`, else a
    /// placeholder that names the script and its description.
    pub fn create_default_script(script_name: &str, description: &str) -> (r: String)
        ensures
            r@ == if script_name@ == "active_ports.sh"@ {
                ACTIVE_PORTS_SCRIPT@
            } else {
                placeholder_script(script_name@, description@)
            },
    {
        if str_eq(script_name, "active_ports.sh") {
            String::from_str(ACTIVE_PORTS_SCRIPT)
        } else {
            let r = String::from_str("#!/bin/bash\n# Linux Toolkit Script: ").concat(script_name);
            let r = r.concat("\n# Description: ").concat(description);
            let r = r.concat("\n\necho \"This is a placeholder script for: ").concat(script_name);
            let r = r.concat("\"\necho \"Description: ").concat(description);
            r.concat(
                "\"\necho \"Please edit this script to add your functionality.\"\n\n# Add your script logic here\necho \"Script executed successfully!\"\n",
            )
        }
    }
}

/// The text that a script run yields when it could not be started.
pub fn script_launch_error_text(error: &str) -> (r: String)
    ensures
        r@ == "Script execution error: "@ + error@,
{
    String::from_str("Script execution error: ").concat(error)
}

/// The text written for script `script` when its file is missing.
pub open spec fn default_script_text(script: Seq<char>, description: Seq<char>) -> Seq<char> {
    if script == "active_ports.sh"@ {
        ACTIVE_PORTS_SCRIPT@
    } else {
        placeholder_script(script, description)
    }
}

/// For each script of `cats`, in order, its file and the text written there
/// when the file is missing.
pub open spec fn default_files_of(scripts_dir: Seq<char>, cats: Seq<ScriptCategoryView>) -> Seq<(Seq<char>, Seq<char>)>
    decreases cats.len(),
{
    if cats.len() == 0 {
        seq![]
    } else {
        let c = cats.last();
        default_files_of(scripts_dir, cats.drop_last()) + c.commands.map_values(
            |sc: ScriptCommandView| (script_file(scripts_dir, c.directory, sc.script), default_script_text(sc.script, sc.description)),
        )
    }
}

pub open spec fn file_views(v: Seq<(String, String)>) -> Seq<(Seq<char>, Seq<char>)> {
    v.map_values(|f: (String, String)| (f.0@, f.1@))
}

impl ScriptManager {
    /// Every configured script's file with the text that is written there
    /// when the file is missing, category by category.
    pub fn default_files(&self) -> (r: Vec<(String, String)>)
        ensures
            file_views(r@) == default_files_of(self.scripts_dir@, self.config.categories()),
    {
        let ghost cats = self.config.categories();
        let mut r: Vec<(String, String)> = Vec::new();
        let mut i: usize = 0;
        assert(cats.subrange(0, 0) =~= seq![]);
        while i < self.config.scripts.len()
            invariant
                i <= cats.len(),
                cats == self.config.categories(),
                cats.len() == self.config.scripts@.len(),
                file_views(r@) == default_files_of(self.scripts_dir@, cats.subrange(0, i as int)),
            decreases cats.len() - i,
        {
            let category = &self.config.scripts[i].1;
            proof {
                lemma_prefix_step(cats, i as int);
                assert(cats[i as int] == category@);
            }
            let ghost before = file_views(r@);
            let ghost start = r@.len();
            let mut j: usize = 0;
            while j < category.commands.len()
                invariant
                    j <= category.commands@.len(),
                    r@.len() == start + j,
                    file_views(r@) == before + script_views(category.commands@).subrange(0, j as int).map_values(
                        |sc: ScriptCommandView| (script_file(self.scripts_dir@, category@.directory, sc.script), default_script_text(sc.script, sc.description)),
                    ),
                decreases category.commands@.len() - j,
            {
                let command = &category.commands[j];
                let path = self.script_path(category.directory.as_str(), command.script.as_str());
                let text = Self::create_default_script(command.script.as_str(), command.description.as_str());
                let ghost prev = r@;
                r.push((path, text));
                proof {
                    let f = |sc: ScriptCommandView| (script_file(self.scripts_dir@, category@.directory, sc.script), default_script_text(sc.script, sc.description));
                    let vs = script_views(category.commands@);
                    assert(vs[j as int] == command@);
                    assert(vs.subrange(0, j + 1).map_values(f) =~= vs.subrange(0, j as int).map_values(f).push(f(vs[j as int])));
                    assert(file_views(r@) =~= file_views(prev).push((r@[j + start].0@, r@[j + start].1@)));
                }
                j = j + 1;
            }
            proof {
                let vs = script_views(category.commands@);
                assert(vs.subrange(0, vs.len() as int) =~= vs);
            }
            i = i + 1;
        }
        assert(cats.subrange(0, cats.len() as int) =~= cats);
        r
    }
}

/// The scripts that ship with the toolkit: each file's path relative to the
/// scripts directory, and its text.
pub open spec fn bundled_scripts() -> Seq<(Seq<char>, Seq<char>)> {
    seq![("network/active_ports.sh"@, ACTIVE_PORTS_SCRIPT@)]
}

/// Where each script that ships with the toolkit goes under `scripts_dir`,
/// and its text; a file already there is kept, not overwritten.
pub fn bundled_files(scripts_dir: &str) -> (r: Vec<(String, String)>)
    ensures
        file_views(r@) == bundled_scripts().map_values(
            |b: (Seq<char>, Seq<char>)| (path_join(scripts_dir@, b.0), b.1),
        ),
{
    let path = join_path(scripts_dir, "network/active_ports.sh");
    let r = vec![(path, String::from_str(ACTIVE_PORTS_SCRIPT))];
    assert(file_views(r@) =~= bundled_scripts().map_values(
        |b: (Seq<char>, Seq<char>)| (path_join(scripts_dir@, b.0), b.1),
    ));
    r
}

} // verus!
