//! Assembling the catalog: built-in entries merged with the scripts found
//! on disk, ordered by name; and finding an entry by part of its name.

use vstd::prelude::*;
use vstd::string::*;
use crate::commands::{
    category_views, command_views, load_builtin_categories, builtin_catalog, CategoryView, Command,
    CommandCategory, CommandView,
};
use crate::scripts::{listing_of, listing_view, script_views, ScriptCommand, ScriptCommandView, ScriptManager};
use crate::sort::{lemma_sorted_map, name_key, sort_by_name, sorted_seq, Named};
use crate::text::{contains_str, copy_strings, lower_of, lowercase, seq_contains, str_eq};

verus! {

impl Named for Command {
    open spec fn key(&self) -> Seq<char> {
        self.name@
    }

    fn name_text(&self) -> (r: &str) {
        self.name.as_str()
    }
}

impl Named for CommandCategory {
    open spec fn key(&self) -> Seq<char> {
        self.name@
    }

    fn name_text(&self) -> (r: &str) {
        self.name.as_str()
    }
}

impl Named for ScriptCommand {
    open spec fn key(&self) -> Seq<char> {
        self.name@
    }

    fn name_text(&self) -> (r: &str) {
        self.name.as_str()
    }
}

/// Entries are ordered by name.
pub open spec fn command_name() -> spec_fn(CommandView) -> Seq<char> {
    |c: CommandView| c.name
}

/// Categories are ordered by name.
pub open spec fn category_name() -> spec_fn(CategoryView) -> Seq<char> {
    |c: CategoryView| c.name
}

/// Scripts are ordered by name.
pub open spec fn script_name() -> spec_fn(ScriptCommandView) -> Seq<char> {
    |c: ScriptCommandView| c.name
}

/// The catalog entry for a script of the named category; its command is the
/// script marker and its one argument the script's file name.
pub open spec fn script_entry(sc: ScriptCommandView, category: Seq<char>) -> CommandView {
    CommandView {
        name: "📜 "@ + sc.name,
        description: sc.description,
        command: "script"@,
        args: seq![sc.script],
        usage: sc.usage,
        tags: sc.tags,
        requires_sudo: sc.requires_sudo,
        category,
    }
}

pub open spec fn script_entries(scripts: Seq<ScriptCommandView>, category: Seq<char>) -> Seq<CommandView> {
    scripts.map_values(|sc: ScriptCommandView| script_entry(sc, category))
}

/// The position of the first category named `name`, or the length when none is.
pub open spec fn first_named(cats: Seq<CategoryView>, name: Seq<char>) -> int
    decreases cats.len(),
{
    if cats.len() == 0 {
        0
    } else if cats[0].name == name {
        0
    } else {
        1 + first_named(cats.drop_first(), name)
    }
}

/// `cats` with the scripts of category `name` added: appended to the first
/// category of that name, or as a new category at the end.
pub open spec fn merge_group(cats: Seq<CategoryView>, name: Seq<char>, scripts: Seq<ScriptCommandView>) -> Seq<CategoryView> {
    let entries = script_entries(scripts, name);
    let k = first_named(cats, name);
    if k < cats.len() {
        cats.update(k, CategoryView { commands: cats[k].commands + entries, ..cats[k] })
    } else {
        cats.push(CategoryView { name, description: "Script-based commands"@, commands: entries })
    }
}

/// The groups of `listing`, each with its scripts ordered by name.
pub open spec fn sorted_listing(listing: Seq<(Seq<char>, Seq<ScriptCommandView>)>) -> Seq<(Seq<char>, Seq<ScriptCommandView>)> {
    listing.map_values(
        |e: (Seq<char>, Seq<ScriptCommandView>)| (e.0, sorted_seq(e.1, script_name())),
    )
}

/// `cats` with each group of `listing` merged in, in order.
pub open spec fn merged(cats: Seq<CategoryView>, listing: Seq<(Seq<char>, Seq<ScriptCommandView>)>) -> Seq<CategoryView>
    decreases listing.len(),
{
    if listing.len() == 0 {
        cats
    } else {
        let rest = merged(cats, listing.drop_last());
        merge_group(rest, listing.last().0, listing.last().1)
    }
}

/// The catalog ordered: categories by name, and the entries of each by name.
pub open spec fn ordered_catalog(cats: Seq<CategoryView>) -> Seq<CategoryView> {
    sorted_seq(cats, category_name()).map_values(|c: CategoryView| with_sorted_entries(c))
}

/// Category `c` with its entries ordered by name.
pub open spec fn with_sorted_entries(c: CategoryView) -> CategoryView {
    CategoryView { commands: sorted_seq(c.commands, command_name()), ..c }
}

proof fn lemma_first_named(cats: Seq<CategoryView>, name: Seq<char>, k: int)
    requires
        0 <= k <= cats.len(),
        forall|j: int| 0 <= j < k ==> #[trigger] cats[j].name != name,
        k == cats.len() || cats[k].name == name,
    ensures
        first_named(cats, name) == k,
    decreases cats.len(),
{
    if cats.len() > 0 && k > 0 {
        let t = cats.drop_first();
        assert forall|j: int| 0 <= j < k - 1 implies #[trigger] t[j].name != name by {
            assert(t[j] == cats[j + 1]);
        }
        lemma_first_named(t, name, k - 1);
    }
}

fn script_entry_exec(sc: &ScriptCommand, category: &String) -> (r: Command)
    ensures
        r@ == script_entry(sc@, category@),
{
    let r = Command {
        name: String::from_str("📜 ").concat(sc.name.as_str()),
        description: sc.description.clone(),
        command: String::from_str("script"),
        args: vec![sc.script.clone()],
        usage: sc.usage.clone(),
        tags: copy_strings(&sc.tags),
        requires_sudo: sc.requires_sudo,
        category: category.clone(),
    };
    assert(r@.args =~= seq![sc.script@]);
    r
}

fn copy_scripts(v: &Vec<ScriptCommand>) -> (r: Vec<ScriptCommand>)
    ensures
        script_views(r@) == script_views(v@),
{
    let mut r: Vec<ScriptCommand> = Vec::new();
    let mut i: usize = 0;
    while i < v.len()
        invariant
            i <= v@.len(),
            r@.len() == i,
            forall|j: int| 0 <= j < i ==> #[trigger] r@[j]@ == v@[j]@,
        decreases v@.len() - i,
    {
        let c = &v[i];
        r.push(ScriptCommand {
            name: c.name.clone(),
            description: c.description.clone(),
            script: c.script.clone(),
            usage: c.usage.clone(),
            requires_sudo: c.requires_sudo,
            tags: copy_strings(&c.tags),
        });
        i = i + 1;
    }
    assert(script_views(r@) =~= script_views(v@));
    r
}

fn entries_for(scripts: &Vec<ScriptCommand>, category: &String) -> (r: Vec<Command>)
    ensures
        command_views(r@) == script_entries(script_views(scripts@), category@),
{
    let mut r: Vec<Command> = Vec::new();
    let mut i: usize = 0;
    while i < scripts.len()
        invariant
            i <= scripts@.len(),
            r@.len() == i,
            forall|j: int| 0 <= j < i ==> #[trigger] r@[j]@ == script_entry(scripts@[j]@, category@),
        decreases scripts@.len() - i,
    {
        r.push(script_entry_exec(&scripts[i], category));
        i = i + 1;
    }
    assert(command_views(r@) =~= script_entries(script_views(scripts@), category@));
    r
}

/// The scripts of one group, ordered by name.
fn sorted_scripts(scripts: &Vec<ScriptCommand>) -> (r: Vec<ScriptCommand>)
    ensures
        script_views(r@) == sorted_seq(script_views(scripts@), script_name()),
{
    let copies = copy_scripts(scripts);
    let r = sort_by_name(copies);
    proof {
        let f = |c: ScriptCommand| c@;
        let kb = script_name();
        assert forall|a: ScriptCommand| #[trigger] kb(f(a)) == name_key::<ScriptCommand>()(a) by {}
        lemma_sorted_map(copies@, name_key::<ScriptCommand>(), f, kb);
        assert(script_views(copies@) == copies@.map_values(f));
        assert(script_views(r@) == r@.map_values(f));
    }
    r
}

/// Adds one group of scripts to the catalog.
fn merge_one(categories: &mut Vec<CommandCategory>, name: &String, scripts: &Vec<ScriptCommand>)
    ensures
        category_views(final(categories)@) == merge_group(
            category_views(old(categories)@),
            name@,
            script_views(scripts@),
        ),
{
    let ghost cats = category_views(categories@);
    let entries = entries_for(scripts, name);
    let mut k: usize = 0;
    while k < categories.len() && !str_eq(categories[k].name.as_str(), name.as_str())
        invariant
            k <= categories@.len(),
            cats == category_views(categories@),
            forall|j: int| 0 <= j < k ==> #[trigger] cats[j].name != name@,
        decreases categories@.len() - k,
    {
        assert(cats[k as int] == categories@[k as int]@);
        k = k + 1;
    }
    proof {
        if k < categories@.len() {
            assert(cats[k as int] == categories@[k as int]@);
        }
        lemma_first_named(cats, name@, k as int);
    }
    if k < categories.len() {
        let mut category = categories.remove(k);
        let ghost before_commands = category.commands@;
        let mut e = entries;
        let ghost added = e@;
        category.commands.append(&mut e);
        categories.insert(k, category);
        proof {
            assert(command_views(before_commands + added) =~= command_views(before_commands) + command_views(added));
            assert(category_views(categories@) =~= cats.update(
                k as int,
                CategoryView { commands: cats[k as int].commands + command_views(added), ..cats[k as int] },
            ));
        }
    } else {
        let ghost before = categories@;
        categories.push(
            CommandCategory {
                name: name.clone(),
                description: String::from_str("Script-based commands"),
                commands: entries,
            },
        );
        assert(category_views(categories@) =~= category_views(before).push(categories@.last()@));
    }
}

/// Adds the groups of scripts in `listing` to the catalog, in order, each
/// with its scripts ordered by name: a group joins the first category of
/// its name, or becomes a new category at the end.
pub fn merge_listing(categories: &mut Vec<CommandCategory>, listing: &Vec<(String, Vec<ScriptCommand>)>)
    ensures
        category_views(final(categories)@) == merged(
            category_views(old(categories)@),
            sorted_listing(listing_view(listing@)),
        ),
{
    let ghost start = category_views(categories@);
    let ghost groups = sorted_listing(listing_view(listing@));
    let mut i: usize = 0;
    assert(groups.subrange(0, 0) =~= seq![]);
    while i < listing.len()
        invariant
            i <= listing@.len(),
            groups == sorted_listing(listing_view(listing@)),
            category_views(categories@) == merged(start, groups.subrange(0, i as int)),
        decreases listing@.len() - i,
    {
        let sorted = sorted_scripts(&listing[i].1);
        merge_one(categories, &listing[i].0, &sorted);
        proof {
            let p = groups.subrange(0, i + 1);
            assert(p.drop_last() =~= groups.subrange(0, i as int));
            assert(p.last() == groups[i as int]);
        }
        i = i + 1;
    }
    assert(groups.subrange(0, listing@.len() as int) =~= groups);
}

/// Adds the scripts of `script_manager` that are on disk now to the
/// catalog, as `merge_listing` does: the listing merged is that of the
/// registry's categories for some presence of their scripts on disk.
pub fn merge_script_commands(categories: &mut Vec<CommandCategory>, script_manager: &ScriptManager)
    ensures
        exists|present: Seq<Seq<bool>>| #[trigger] merged(
            category_views(old(categories)@),
            sorted_listing(listing_of(script_manager.config.categories(), present)),
        ) == category_views(final(categories)@),
{
    let listing = script_manager.list_available_scripts();
    proof {
        let present = choose|present: Seq<Seq<bool>>|
            listing_view(listing@) == listing_of(script_manager.config.categories(), present);
        assert(listing_view(listing@) == listing_of(script_manager.config.categories(), present));
    }
    merge_listing(categories, &listing);
}

/// The catalog: the built-in categories with the groups of scripts in
/// `listing` merged in, then categories ordered by name and the entries of
/// each ordered by name.
pub fn build_catalog(listing: &Vec<(String, Vec<ScriptCommand>)>) -> (r: Vec<CommandCategory>)
    ensures
        category_views(r@) == ordered_catalog(merged(builtin_catalog(), sorted_listing(listing_view(listing@)))),
{
    let mut categories = load_builtin_categories();
    merge_listing(&mut categories, listing);
    let ghost merged_cats = categories@;
    let sorted = sort_by_name(categories);
    proof {
        let f = |c: CommandCategory| c@;
        let kb = category_name();
        assert forall|a: CommandCategory| #[trigger] kb(f(a)) == name_key::<CommandCategory>()(a) by {}
        lemma_sorted_map(merged_cats, name_key::<CommandCategory>(), f, kb);
        assert(category_views(merged_cats) == merged_cats.map_values(f));
        assert(category_views(sorted@) == sorted@.map_values(f));
    }
    let ghost order = category_views(sorted@);
    let mut rest = sorted;
    let mut out: Vec<CommandCategory> = Vec::new();
    while rest.len() > 0
        invariant
            out@.len() + rest@.len() == order.len(),
            category_views(rest@) == order.subrange(out@.len() as int, order.len() as int),
            forall|j: int| 0 <= j < out@.len() ==> #[trigger] out@[j]@ == with_sorted_entries(order[j]),
        decreases rest@.len(),
    {
        let ghost before_rest = rest@;
        let mut c = rest.remove(0);
        let ghost old_view = c@;
        assert(c@ == order[out@.len() as int]) by {
            assert(category_views(before_rest)[0] == before_rest[0]@);
        }
        let ghost cmds = c.commands@;
        c.commands = sort_by_name(c.commands);
        proof {
            let f = |x: Command| x@;
            let kb = command_name();
            assert forall|a: Command| #[trigger] kb(f(a)) == name_key::<Command>()(a) by {}
            lemma_sorted_map(cmds, name_key::<Command>(), f, kb);
            assert(command_views(cmds) == cmds.map_values(f));
            assert(command_views(c.commands@) == c.commands@.map_values(f));
            assert(old_view.commands == command_views(cmds));
            assert(command_views(c.commands@) == sorted_seq(old_view.commands, command_name()));
            assert(c@ == with_sorted_entries(order[out@.len() as int]));
        }
        out.push(c);
        assert(category_views(rest@) =~= order.subrange(out@.len() as int, order.len() as int)) by {
            assert forall|j: int| 0 <= j < rest@.len() implies category_views(rest@)[j] == category_views(before_rest)[j + 1] by {
                assert(rest@[j] == before_rest[j + 1]);
            }
        }
    }
    assert(category_views(out@) =~= order.map_values(|c: CategoryView| with_sorted_entries(c)));
    out
}

/// Whether the name of entry `c` contains `query`, ignoring case.
pub open spec fn name_matches(c: CommandView, query: Seq<char>) -> bool {
    seq_contains(lower_of(c.name), lower_of(query))
}

/// Entry `j` of category `i` comes before entry `j2` of category `i2`.
pub open spec fn before(i: int, j: int, i2: int, j2: int) -> bool {
    i < i2 || (i == i2 && j < j2)
}

/// The first entry, by category and then by position, whose lower-cased
/// name (given in `lowered`, one row per category) contains the lower-cased
/// query `query_lowered`.
pub fn first_match(lowered: &Vec<Vec<String>>, query_lowered: &str) -> (r: Option<(usize, usize)>)
    ensures
        match r {
            Some((i, j)) => {
                &&& i < lowered@.len()
                &&& j < lowered@[i as int]@.len()
                &&& seq_contains(lowered@[i as int]@[j as int]@, query_lowered@)
                &&& forall|i2: int, j2: int|
                    0 <= i2 < lowered@.len() && 0 <= j2 < lowered@[i2]@.len() && before(i2, j2, i as int, j as int)
                        ==> !seq_contains(#[trigger] lowered@[i2]@[j2]@, query_lowered@)
            },
            None => forall|i2: int, j2: int|
                0 <= i2 < lowered@.len() && 0 <= j2 < lowered@[i2]@.len() ==> !seq_contains(
                    #[trigger] lowered@[i2]@[j2]@,
                    query_lowered@,
                ),
        },
{
    let mut i: usize = 0;
    while i < lowered.len()
        invariant
            i <= lowered@.len(),
            forall|i2: int, j2: int|
                0 <= i2 < i && 0 <= j2 < lowered@[i2]@.len() ==> !seq_contains(
                    #[trigger] lowered@[i2]@[j2]@,
                    query_lowered@,
                ),
        decreases lowered@.len() - i,
    {
        let row = &lowered[i];
        let mut j: usize = 0;
        while j < row.len()
            invariant
                i < lowered@.len(),
                *row == lowered@[i as int],
                j <= row@.len(),
                forall|i2: int, j2: int|
                    0 <= i2 < i && 0 <= j2 < lowered@[i2]@.len() ==> !seq_contains(
                        #[trigger] lowered@[i2]@[j2]@,
                        query_lowered@,
                    ),
                forall|j2: int| 0 <= j2 < j ==> !seq_contains(#[trigger] row@[j2]@, query_lowered@),
            decreases row@.len() - j,
        {
            if contains_str(row[j].as_str(), query_lowered) {
                return Some((i, j));
            }
            j = j + 1;
        }
        i = i + 1;
    }
    None
}

/// The first entry, by category and then by position, whose name contains
/// `query` without regard to case.
pub fn find_command(categories: &Vec<CommandCategory>, query: &str) -> (r: Option<(usize, usize)>)
    ensures
        match r {
            Some((i, j)) => {
                &&& i < categories@.len()
                &&& j < categories@[i as int].commands@.len()
                &&& name_matches(categories@[i as int].commands@[j as int]@, query@)
                &&& forall|i2: int, j2: int|
                    0 <= i2 < categories@.len() && 0 <= j2 < categories@[i2].commands@.len()
                        && before(i2, j2, i as int, j as int) ==> !name_matches(
                        #[trigger] categories@[i2].commands@[j2]@,
                        query@,
                    )
            },
            None => forall|i2: int, j2: int|
                0 <= i2 < categories@.len() && 0 <= j2 < categories@[i2].commands@.len()
                    ==> !name_matches(#[trigger] categories@[i2].commands@[j2]@, query@),
        },
{
    let mut lowered: Vec<Vec<String>> = Vec::new();
    let mut i: usize = 0;
    while i < categories.len()
        invariant
            i <= categories@.len(),
            lowered@.len() == i,
            forall|i2: int| 0 <= i2 < i ==> #[trigger] lowered@[i2]@.len() == categories@[i2].commands@.len(),
            forall|i2: int, j2: int|
                0 <= i2 < i && 0 <= j2 < categories@[i2].commands@.len() ==> #[trigger] lowered@[i2]@[j2]@
                    == lower_of(categories@[i2].commands@[j2].name@),
        decreases categories@.len() - i,
    {
        let commands = &categories[i].commands;
        let mut row: Vec<String> = Vec::new();
        let mut j: usize = 0;
        while j < commands.len()
            invariant
                i < categories@.len(),
                *commands == categories@[i as int].commands,
                j <= commands@.len(),
                row@.len() == j,
                forall|j2: int| 0 <= j2 < j ==> #[trigger] row@[j2]@ == lower_of(commands@[j2].name@),
            decreases commands@.len() - j,
        {
            row.push(lowercase(commands[j].name.as_str()));
            j = j + 1;
        }
        lowered.push(row);
        i = i + 1;
    }
    let q = lowercase(query);
    let r = first_match(&lowered, q.as_str());
    proof {
        assert forall|i2: int, j2: int|
            0 <= i2 < categories@.len() && 0 <= j2 < categories@[i2].commands@.len() implies name_matches(
            #[trigger] categories@[i2].commands@[j2]@,
            query@,
        ) == seq_contains(lowered@[i2]@[j2]@, q@) by {
            assert(lowered@[i2]@[j2]@ == lower_of(categories@[i2].commands@[j2].name@));
        }
    }
    r
}

} // verus!
