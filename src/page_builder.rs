//! A builder for menu pages with the toolkit's standard kinds of options.

use vstd::prelude::*;
use vstd::string::*;
use crate::commands::literal_views;
use crate::menu::{option_view, separator_view, with_option, Menu, MenuActionView, MenuView, PageId};
use crate::text::{join, join_seq, lower_of, lowercase, views_of};

verus! {

/// A page under construction: its title and its menu so far.
pub struct PageBuilder {
    pub title: String,
    pub menu: Menu,
}

/// The option that runs a shell command line elevated, with messages made
/// from `description`.
pub open spec fn system_option(
    number: Seq<char>,
    text: Seq<char>,
    command: Seq<char>,
    description: Seq<char>,
) -> crate::menu::MenuOptionView {
    option_view(
        number,
        text,
        MenuActionView::Command {
            sudo: true,
            args: seq!["sh"@, "-c"@, command],
            start_message: description + "..."@,
            success_message: description + " completed successfully."@,
            error_message: "Failed to "@ + lower_of(description) + "."@,
        },
    )
}

/// The package list of an install option: the names joined by spaces.
pub open spec fn package_list(packages: Seq<Seq<char>>) -> Seq<char> {
    join_seq(packages, " "@)
}

/// The option that installs the listed packages with apt.
pub open spec fn apt_option(number: Seq<char>, text: Seq<char>, list: Seq<char>) -> crate::menu::MenuOptionView {
    system_option(
        number,
        text,
        "apt update && apt install "@ + list + " -y"@,
        "Installing "@ + list,
    )
}

/// One standard option of a page, to be added by `PageBuilder::with`.
pub enum PageItem {
    Page { number: String, text: String, page: PageId },
    SystemCommand { number: String, text: String, command: String, description: String },
    AptInstall { number: String, text: String, package_list: String },
    Separator,
    Back { number: String, page: PageId },
    Exit { number: String },
}

/// The option that item `item` adds.
pub open spec fn item_option(item: PageItem) -> crate::menu::MenuOptionView {
    match item {
        PageItem::Page { number, text, page } => option_view(number@, text@, MenuActionView::Navigate(page)),
        PageItem::SystemCommand { number, text, command, description } => system_option(
            number@,
            text@,
            command@,
            description@,
        ),
        PageItem::AptInstall { number, text, package_list } => apt_option(number@, text@, package_list@),
        PageItem::Separator => separator_view(),
        PageItem::Back { number, page } => option_view(
            number@,
            "Return to Main Menu"@,
            MenuActionView::Back(page),
        ),
        PageItem::Exit { number } => option_view(number@, "Exit"@, MenuActionView::Exit),
    }
}

fn joined_packages(packages: &[&str]) -> (r: String)
    ensures
        r@ == package_list(literal_views(packages@)),
{
    let mut names: Vec<String> = Vec::new();
    let mut i: usize = 0;
    while i < packages.len()
        invariant
            i <= packages@.len(),
            names@.len() == i,
            forall|j: int| 0 <= j < i ==> #[trigger] names@[j]@ == packages@[j]@,
        decreases packages@.len() - i,
    {
        names.push(String::from_str(packages[i]));
        i = i + 1;
    }
    assert(views_of(names@) =~= literal_views(packages@));
    join(&names, " ")
}

impl PageBuilder {
    /// A page with the given title and no options yet.
    pub fn new(title: &str) -> (r: PageBuilder)
        ensures
            r.title@ == title@,
            r.menu@ == (MenuView { title: title@, options: seq![] }),
    {
        PageBuilder { title: String::from_str(title), menu: Menu::new(title) }
    }

    /// Adds an option that shows page `page`.
    pub fn add_page(self, number: &str, text: &str, page: PageId) -> (r: PageBuilder)
        ensures
            r.title == self.title,
            r.menu@ == with_option(self.menu@, option_view(number@, text@, MenuActionView::Navigate(page))),
    {
        let mut b = self;
        b.menu.add_navigation(number, text, page);
        b
    }

    /// Adds an option that runs the shell command line `command` elevated,
    /// announced, confirmed and reported failed with messages made from
    /// `description`.
    pub fn add_system_command(self, number: &str, text: &str, command: &str, description: &str) -> (r: PageBuilder)
        ensures
            r.title == self.title,
            r.menu@ == with_option(self.menu@, system_option(number@, text@, command@, description@)),
    {
        let start = String::from_str(description).concat("...");
        let success = String::from_str(description).concat(" completed successfully.");
        let error = String::from_str("Failed to ").concat(lowercase(description).as_str()).concat(".");
        let mut b = self;
        b.menu.add_command(
            number,
            text,
            true,
            vec!["sh", "-c", command],
            start.as_str(),
            success.as_str(),
            error.as_str(),
        );
        proof {
            assert(literal_views(seq!["sh", "-c", command]) =~= seq!["sh"@, "-c"@, command@]);
        }
        b
    }

    /// Adds an option that installs `packages` with apt.
    pub fn add_apt_install(self, number: &str, text: &str, packages: &[&str]) -> (r: PageBuilder)
        ensures
            r.title == self.title,
            r.menu@ == with_option(self.menu@, apt_option(number@, text@, package_list(literal_views(packages@)))),
    {
        let list = joined_packages(packages);
        self.add_apt_list(number, text, &list)
    }

    fn add_apt_list(self, number: &str, text: &str, list: &String) -> (r: PageBuilder)
        ensures
            r.title == self.title,
            r.menu@ == with_option(self.menu@, apt_option(number@, text@, list@)),
    {
        let command = String::from_str("apt update && apt install ").concat(list.as_str()).concat(" -y");
        let description = String::from_str("Installing ").concat(list.as_str());
        self.add_system_command(number, text, command.as_str(), description.as_str())
    }

    /// Adds an option that runs `args` with the given messages.
    pub fn add_custom_command(
        self,
        number: &str,
        text: &str,
        sudo: bool,
        args: Vec<&str>,
        start_message: &str,
        success_message: &str,
        error_message: &str,
    ) -> (r: PageBuilder)
        ensures
            r.title == self.title,
            r.menu@ == with_option(
                self.menu@,
                option_view(
                    number@,
                    text@,
                    MenuActionView::Command {
                        sudo,
                        args: literal_views(args@),
                        start_message: start_message@,
                        success_message: success_message@,
                        error_message: error_message@,
                    },
                ),
            ),
    {
        let mut b = self;
        b.menu.add_command(number, text, sudo, args, start_message, success_message, error_message);
        b
    }

    /// Adds a blank separator line.
    pub fn add_separator(self) -> (r: PageBuilder)
        ensures
            r.title == self.title,
            r.menu@ == with_option(self.menu@, separator_view()),
    {
        let mut b = self;
        b.menu.add_separator();
        b
    }

    /// Adds an option that returns to page `page`.
    pub fn add_back(self, number: &str, page: PageId) -> (r: PageBuilder)
        ensures
            r.title == self.title,
            r.menu@ == with_option(self.menu@, option_view(number@, "Return to Main Menu"@, MenuActionView::Back(page))),
    {
        let mut b = self;
        b.menu.add_back(number, "Return to Main Menu", page);
        b
    }

    /// Adds an option that leaves the toolkit.
    pub fn add_exit(self, number: &str) -> (r: PageBuilder)
        ensures
            r.title == self.title,
            r.menu@ == with_option(self.menu@, option_view(number@, "Exit"@, MenuActionView::Exit)),
    {
        let mut b = self;
        b.menu.add_exit(number, "Exit");
        b
    }

    /// The menu built so far.
    pub fn get_menu(self) -> (r: Menu)
        ensures
            r@ == self.menu@,
    {
        self.menu
    }

    /// Adds the option that `item` describes.
    pub fn with(self, item: &PageItem) -> (r: PageBuilder)
        ensures
            r.title == self.title,
            r.menu@ == with_option(self.menu@, item_option(*item)),
    {
        match item {
            PageItem::Page { number, text, page } => self.add_page(number.as_str(), text.as_str(), *page),
            PageItem::SystemCommand { number, text, command, description } => self.add_system_command(
                number.as_str(),
                text.as_str(),
                command.as_str(),
                description.as_str(),
            ),
            PageItem::AptInstall { number, text, package_list } => self.add_apt_list(
                number.as_str(),
                text.as_str(),
                package_list,
            ),
            PageItem::Separator => self.add_separator(),
            PageItem::Back { number, page } => self.add_back(number.as_str(), *page),
            PageItem::Exit { number } => self.add_exit(number.as_str()),
        }
    }
}

/// The menu option list of `items`, in order.
pub open spec fn item_options(items: Seq<PageItem>) -> Seq<crate::menu::MenuOptionView> {
    items.map_values(|i: PageItem| item_option(i))
}

/// A page titled `title` with the options that `items` describe, in order.
pub fn create_page(title: &str, items: &Vec<PageItem>) -> (r: PageBuilder)
    ensures
        r.title@ == title@,
        r.menu@ == (MenuView { title: title@, options: item_options(items@) }),
{
    let mut b = PageBuilder::new(title);
    let mut i: usize = 0;
    assert(item_options(items@.subrange(0, 0)) =~= seq![]);
    while i < items.len()
        invariant
            i <= items@.len(),
            b.title@ == title@,
            b.menu@ == (MenuView { title: title@, options: item_options(items@.subrange(0, i as int)) }),
        decreases items@.len() - i,
    {
        b = b.with(&items[i]);
        assert(item_options(items@.subrange(0, i + 1)) =~= item_options(items@.subrange(0, i as int)).push(
            item_option(items@[i as int]),
        ));
        i = i + 1;
    }
    assert(items@.subrange(0, items@.len() as int) =~= items@);
    b
}

/// The item for an option that shows page `page`.
pub fn page_option(number: &str, text: &str, page: PageId) -> (r: PageItem)
    ensures
        item_option(r) == option_view(number@, text@, MenuActionView::Navigate(page)),
{
    PageItem::Page { number: String::from_str(number), text: String::from_str(text), page }
}

/// The item for an option that runs a shell command line elevated.
pub fn system_command(number: &str, text: &str, command: &str, description: &str) -> (r: PageItem)
    ensures
        item_option(r) == system_option(number@, text@, command@, description@),
{
    PageItem::SystemCommand {
        number: String::from_str(number),
        text: String::from_str(text),
        command: String::from_str(command),
        description: String::from_str(description),
    }
}

/// The item for an option that installs `packages` with apt.
pub fn apt_install(number: &str, text: &str, packages: &[&str]) -> (r: PageItem)
    ensures
        item_option(r) == apt_option(number@, text@, package_list(literal_views(packages@))),
{
    PageItem::AptInstall {
        number: String::from_str(number),
        text: String::from_str(text),
        package_list: joined_packages(packages),
    }
}

/// The item for a separator line.
pub fn separator() -> (r: PageItem)
    ensures
        item_option(r) == separator_view(),
{
    PageItem::Separator
}

/// The item for an option that returns to page `page`.
pub fn back_option(number: &str, page: PageId) -> (r: PageItem)
    ensures
        item_option(r) == option_view(number@, "Return to Main Menu"@, MenuActionView::Back(page)),
{
    PageItem::Back { number: String::from_str(number), page }
}

/// The item for an option that leaves the toolkit.
pub fn exit_option(number: &str) -> (r: PageItem)
    ensures
        item_option(r) == option_view(number@, "Exit"@, MenuActionView::Exit),
{
    PageItem::Exit { number: String::from_str(number) }
}

} // verus!
