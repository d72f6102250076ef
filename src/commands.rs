//! Catalog entries, the predicates of the elevation policy, and the
//! built-in catalog.

use vstd::prelude::*;
use vstd::string::*;
use crate::config::Config;
use crate::text::{contains_str, lower_of, lowercase, seq_contains, str_eq, views_of};

verus! {

/// A runnable catalog entry. `command` names the program; the marker
/// `"script"` means that `args[0]` names a script of the script registry.
#[derive(Clone, Debug)]
pub struct Command {
    pub name: String,
    pub description: String,
    pub command: String,
    pub args: Vec<String>,
    pub usage: String,
    pub tags: Vec<String>,
    pub requires_sudo: bool,
    pub category: String,
}

pub struct CommandView {
    pub name: Seq<char>,
    pub description: Seq<char>,
    pub command: Seq<char>,
    pub args: Seq<Seq<char>>,
    pub usage: Seq<char>,
    pub tags: Seq<Seq<char>>,
    pub requires_sudo: bool,
    pub category: Seq<char>,
}

impl View for Command {
    type V = CommandView;

    open spec fn view(&self) -> CommandView {
        CommandView {
            name: self.name@,
            description: self.description@,
            command: self.command@,
            args: views_of(self.args@),
            usage: self.usage@,
            tags: views_of(self.tags@),
            requires_sudo: self.requires_sudo,
            category: self.category@,
        }
    }
}

/// A named group of catalog entries.
#[derive(Clone, Debug)]
pub struct CommandCategory {
    pub name: String,
    pub description: String,
    pub commands: Vec<Command>,
}

pub struct CategoryView {
    pub name: Seq<char>,
    pub description: Seq<char>,
    pub commands: Seq<CommandView>,
}

pub open spec fn command_views(v: Seq<Command>) -> Seq<CommandView> {
    v.map_values(|c: Command| c@)
}

impl View for CommandCategory {
    type V = CategoryView;

    open spec fn view(&self) -> CategoryView {
        CategoryView {
            name: self.name@,
            description: self.description@,
            commands: command_views(self.commands@),
        }
    }
}

pub open spec fn category_views(v: Seq<CommandCategory>) -> Seq<CategoryView> {
    v.map_values(|c: CommandCategory| c@)
}

/// The character views of a list of literals.
pub open spec fn literal_views(v: Seq<&str>) -> Seq<Seq<char>> {
    v.map_values(|t: &str| t@)
}

/// Programs that conventionally need elevated privileges.
pub open spec fn privileged_tools() -> Seq<Seq<char>> {
    seq![
        "apt"@, "yum"@, "dnf"@, "zypper"@, "pacman"@, "systemctl"@, "service"@, "mount"@,
        "umount"@, "iptables"@, "ufw"@, "firewall-cmd"@, "netstat"@, "tcpdump"@, "nmap"@,
        "iwlist"@, "iwconfig"@,
    ]
}

/// Phrases whose presence in lower-cased error text signals a permission
/// problem.
pub open spec fn permission_phrases() -> Seq<Seq<char>> {
    seq![
        "permission denied"@, "operation not permitted"@, "access denied"@,
        "insufficient privileges"@, "must be root"@, "sudo required"@, "you must be root"@,
        "run as root"@,
    ]
}

/// Whether an elevated retry is allowed for `c` when its first run fails.
pub open spec fn auto_elevate(c: CommandView, auto_sudo: bool) -> bool {
    c.requires_sudo || auto_sudo || privileged_tools().contains(c.command)
}

/// Whether lower-cased text holds one of the permission phrases.
pub open spec fn mentions_denial(lowered: Seq<char>) -> bool {
    exists|i: int| 0 <= i < permission_phrases().len() && seq_contains(lowered, #[trigger] permission_phrases()[i])
}

/// Whether `s` equals one of the items of `list`.
fn listed(s: &str, list: &Vec<&str>) -> (r: bool)
    ensures
        r == literal_views(list@).contains(s@),
{
    let mut i: usize = 0;
    while i < list.len()
        invariant
            i <= list@.len(),
            forall|j: int| 0 <= j < i ==> list@[j]@ != s@,
        decreases list@.len() - i,
    {
        if str_eq(s, list[i]) {
            assert(literal_views(list@)[i as int] == s@);
            return true;
        }
        i = i + 1;
    }
    assert(!literal_views(list@).contains(s@)) by {
        assert forall|j: int| 0 <= j < list@.len() implies literal_views(list@)[j] != s@ by {
            assert(list@[j]@ != s@);
        }
    }
    false
}

/// Whether `exe` is one of the programs that conventionally need elevation.
pub fn is_privileged_tool(exe: &str) -> (r: bool)
    ensures
        r == privileged_tools().contains(exe@),
{
    let tools: Vec<&str> = vec![
        "apt", "yum", "dnf", "zypper", "pacman", "systemctl", "service", "mount", "umount",
        "iptables", "ufw", "firewall-cmd", "netstat", "tcpdump", "nmap", "iwlist", "iwconfig",
    ];
    assert(literal_views(tools@) =~= privileged_tools());
    listed(exe, &tools)
}

/// Whether an elevated retry is allowed for `command` under `config`: the
/// entry asks for elevation, the configuration elevates automatically, or
/// the program conventionally needs it.
pub fn should_retry_with_sudo(command: &Command, config: &Config) -> (r: bool)
    ensures
        r == auto_elevate(command@, config.behavior.auto_sudo),
{
    if command.requires_sudo {
        return true;
    }
    if config.behavior.auto_sudo {
        return true;
    }
    is_privileged_tool(command.command.as_str())
}

/// Whether already lower-cased text holds one of the permission phrases.
pub fn has_permission_phrase(lowered: &str) -> (r: bool)
    ensures
        r == mentions_denial(lowered@),
{
    let phrases: Vec<&str> = vec![
        "permission denied", "operation not permitted", "access denied",
        "insufficient privileges", "must be root", "sudo required", "you must be root",
        "run as root",
    ];
    assert(literal_views(phrases@) =~= permission_phrases());
    let mut i: usize = 0;
    while i < phrases.len()
        invariant
            i <= phrases@.len(),
            literal_views(phrases@) == permission_phrases(),
            forall|j: int| 0 <= j < i ==> !seq_contains(lowered@, #[trigger] permission_phrases()[j]),
        decreases phrases@.len() - i,
    {
        if contains_str(lowered, phrases[i]) {
            assert(permission_phrases()[i as int] == phrases@[i as int]@);
            return true;
        }
        assert(permission_phrases()[i as int] == phrases@[i as int]@);
        i = i + 1;
    }
    false
}

/// Whether error text reports a permission problem, matching the phrases
/// without regard to case.
pub fn is_permission_denied_error(stderr: &str) -> (r: bool)
    ensures
        r == mentions_denial(lower_of(stderr@)),
{
    let lowered = lowercase(stderr);
    has_permission_phrase(lowered.as_str())
}

/// Error texts that lower-case alike are judged alike: the permission check
/// sees an error text only through its lower-cased form.
pub proof fn lemma_denial_sees_lowercase_only(a: Seq<char>, b: Seq<char>)
    requires
        lower_of(a) == lower_of(b),
    ensures
        mentions_denial(lower_of(a)) == mentions_denial(lower_of(b)),
{
}

/// Copies of the literals of `list`, in order.
pub fn strings_of(list: &Vec<&str>) -> (r: Vec<String>)
    ensures
        views_of(r@) == literal_views(list@),
{
    let mut r: Vec<String> = Vec::new();
    let mut i: usize = 0;
    while i < list.len()
        invariant
            i <= list@.len(),
            r@.len() == i,
            views_of(r@) == literal_views(list@.subrange(0, i as int)),
        decreases list@.len() - i,
    {
        let ghost before = r@;
        r.push(String::from_str(list[i]));
        assert(views_of(r@) =~= literal_views(list@.subrange(0, i + 1))) by {
            assert forall|j: int| 0 <= j <= i implies views_of(r@)[j] == literal_views(
                list@.subrange(0, i + 1),
            )[j] by {
                if j < i {
                    assert(r@[j] == before[j]);
                    assert(views_of(before)[j] == literal_views(list@.subrange(0, i as int))[j]);
                }
            }
        }
        i = i + 1;
    }
    assert(list@.subrange(0, list@.len() as int) =~= list@);
    r
}

/// The view of an entry written with literals.
pub open spec fn entry_view(
    name: Seq<char>,
    description: Seq<char>,
    command: Seq<char>,
    args: Seq<Seq<char>>,
    usage: Seq<char>,
    tags: Seq<Seq<char>>,
    requires_sudo: bool,
    category: Seq<char>,
) -> CommandView {
    CommandView { name, description, command, args, usage, tags, requires_sudo, category }
}

fn entry(
    name: &str,
    description: &str,
    command: &str,
    args: Vec<&str>,
    usage: &str,
    tags: Vec<&str>,
    requires_sudo: bool,
    category: &str,
) -> (r: Command)
    ensures
        r@ == entry_view(
            name@,
            description@,
            command@,
            literal_views(args@),
            usage@,
            literal_views(tags@),
            requires_sudo,
            category@,
        ),
{
    Command {
        name: String::from_str(name),
        description: String::from_str(description),
        command: String::from_str(command),
        args: strings_of(&args),
        usage: String::from_str(usage),
        tags: strings_of(&tags),
        requires_sudo,
        category: String::from_str(category),
    }
}

/// The catalog that ships with the toolkit.
pub open spec fn builtin_catalog() -> Seq<CategoryView> {
    seq![
        CategoryView {
            name: "Security"@,
            description: "Security analysis and forensics tools"@,
            commands: seq![
                entry_view(
                    "Check Failed Logins"@,
                    "Display failed login attempts"@,
                    "grep"@,
                    seq!["Failed"@, "/var/log/auth.log"@],
                    "grep Failed /var/log/auth.log"@,
                    seq!["security"@, "logs"@, "authentication"@],
                    true,
                    "security"@,
                ),
                entry_view(
                    "List Users"@,
                    "Display all system users"@,
                    "cat"@,
                    seq!["/etc/passwd"@],
                    "cat /etc/passwd"@,
                    seq!["users"@, "accounts"@, "system"@],
                    false,
                    "security"@,
                ),
                entry_view(
                    "Check SUID Files"@,
                    "Find SUID/SGID files (potential privilege escalation)"@,
                    "find"@,
                    seq!["/"@, "-perm"@, "-4000"@, "-o"@, "-perm"@, "-2000"@, "2>/dev/null"@],
                    "find / -perm -4000 -o -perm -2000 2>/dev/null"@,
                    seq!["suid"@, "privilege"@, "escalation"@],
                    true,
                    "security"@,
                ),
                entry_view(
                    "Open Files"@,
                    "List open files and network connections"@,
                    "lsof"@,
                    seq!["-i"@],
                    "lsof -i"@,
                    seq!["files"@, "network"@, "monitoring"@],
                    true,
                    "security"@,
                ),
            ],
        },
    ]
}

/// The built-in catalog: one "Security" category of four entries.
pub fn load_builtin_categories() -> (r: Vec<CommandCategory>)
    ensures
        category_views(r@) == builtin_catalog(),
{
    let c0 = entry(
        "Check Failed Logins",
        "Display failed login attempts",
        "grep",
        vec!["Failed", "/var/log/auth.log"],
        "grep Failed /var/log/auth.log",
        vec!["security", "logs", "authentication"],
        true,
        "security",
    );
    let c1 = entry(
        "List Users",
        "Display all system users",
        "cat",
        vec!["/etc/passwd"],
        "cat /etc/passwd",
        vec!["users", "accounts", "system"],
        false,
        "security",
    );
    let c2 = entry(
        "Check SUID Files",
        "Find SUID/SGID files (potential privilege escalation)",
        "find",
        vec!["/", "-perm", "-4000", "-o", "-perm", "-2000", "2>/dev/null"],
        "find / -perm -4000 -o -perm -2000 2>/dev/null",
        vec!["suid", "privilege", "escalation"],
        true,
        "security",
    );
    let c3 = entry(
        "Open Files",
        "List open files and network connections",
        "lsof",
        vec!["-i"],
        "lsof -i",
        vec!["files", "network", "monitoring"],
        true,
        "security",
    );
    let ghost expected = builtin_catalog()[0].commands;
    assert(c0@.args =~= expected[0].args && c0@.tags =~= expected[0].tags);
    assert(c1@.args =~= expected[1].args && c1@.tags =~= expected[1].tags);
    assert(c2@.args =~= expected[2].args && c2@.tags =~= expected[2].tags);
    assert(c3@.args =~= expected[3].args && c3@.tags =~= expected[3].tags);
    let commands = vec![c0, c1, c2, c3];
    let r = vec![
        CommandCategory {
            name: String::from_str("Security"),
            description: String::from_str("Security analysis and forensics tools"),
            commands,
        },
    ];
    assert(command_views(r@[0].commands@) =~= builtin_catalog()[0].commands);
    assert(category_views(r@) =~= builtin_catalog());
    r
}

} // verus!
