//! Numbered menu pages. Navigation names a page instead of holding a
//! function, so pages can refer to each other without a reference cycle.

use vstd::prelude::*;
use vstd::string::*;
use crate::commands::{literal_views, strings_of};
use crate::text::{chars_of, trim, trim_of, views_of};

verus! {

/// The pages of the numbered menu.
#[derive(Clone, Copy, Debug, PartialEq, Eq, Structural)]
pub enum PageId {
    Main,
    Antivirus,
    Security,
    Network,
}

/// What choosing a menu option does.
#[derive(Clone, Debug)]
pub enum MenuAction {
    /// Show another page.
    Navigate(PageId),
    /// Run a program: `args[0]` is the program, unless `sudo` runs all of
    /// `args` through the elevation tool.
    Command {
        sudo: bool,
        args: Vec<String>,
        start_message: String,
        success_message: String,
        error_message: String,
    },
    /// Leave the toolkit.
    Exit,
    /// Return to a page.
    Back(PageId),
    /// Nothing (a separator).
    NoAction,
}

pub enum MenuActionView {
    Navigate(PageId),
    Command {
        sudo: bool,
        args: Seq<Seq<char>>,
        start_message: Seq<char>,
        success_message: Seq<char>,
        error_message: Seq<char>,
    },
    Exit,
    Back(PageId),
    NoAction,
}

impl View for MenuAction {
    type V = MenuActionView;

    open spec fn view(&self) -> MenuActionView {
        match self {
            MenuAction::Navigate(p) => MenuActionView::Navigate(*p),
            MenuAction::Command { sudo, args, start_message, success_message, error_message } => {
                MenuActionView::Command {
                    sudo: *sudo,
                    args: views_of(args@),
                    start_message: start_message@,
                    success_message: success_message@,
                    error_message: error_message@,
                }
            },
            MenuAction::Exit => MenuActionView::Exit,
            MenuAction::Back(p) => MenuActionView::Back(*p),
            MenuAction::NoAction => MenuActionView::NoAction,
        }
    }
}

/// A line of a menu: the number to type, its text, and its action.
#[derive(Clone, Debug)]
pub struct MenuOption {
    pub number: String,
    pub text: String,
    pub action: MenuAction,
}

pub struct MenuOptionView {
    pub number: Seq<char>,
    pub text: Seq<char>,
    pub action: MenuActionView,
}

impl View for MenuOption {
    type V = MenuOptionView;

    open spec fn view(&self) -> MenuOptionView {
        MenuOptionView { number: self.number@, text: self.text@, action: self.action@ }
    }
}

/// A menu page: a title and its options in display order.
pub struct Menu {
    pub title: String,
    pub options: Vec<MenuOption>,
}

pub struct MenuView {
    pub title: Seq<char>,
    pub options: Seq<MenuOptionView>,
}

impl View for Menu {
    type V = MenuView;

    open spec fn view(&self) -> MenuView {
        MenuView { title: self.title@, options: self.options@.map_values(|o: MenuOption| o@) }
    }
}

/// `m` with one more option at the end.
pub open spec fn with_option(m: MenuView, o: MenuOptionView) -> MenuView {
    MenuView { options: m.options.push(o), ..m }
}

pub open spec fn option_view(number: Seq<char>, text: Seq<char>, action: MenuActionView) -> MenuOptionView {
    MenuOptionView { number, text, action }
}

/// The option that a separator line is.
pub open spec fn separator_view() -> MenuOptionView {
    MenuOptionView { number: seq![], text: seq![], action: MenuActionView::NoAction }
}

/// `s` without its trailing dots.
pub open spec fn strip_dots(s: Seq<char>) -> Seq<char>
    decreases s.len(),
{
    if s.len() > 0 && s.last() == '.' {
        strip_dots(s.drop_last())
    } else {
        s
    }
}

/// Whether option `o` answers the choice `wanted` (already without
/// surrounding white space): its number without trailing dots is `wanted`,
/// and it does something.
pub open spec fn answers_trimmed(o: MenuOptionView, wanted: Seq<char>) -> bool {
    strip_dots(o.number) == wanted && !(o.action is NoAction)
}

/// Whether option `o` answers the typed choice, white space around it aside.
pub open spec fn answers(o: MenuOptionView, choice: Seq<char>) -> bool {
    answers_trimmed(o, trim_of(choice))
}

fn same_chars(a: &Vec<char>, b: &Vec<char>) -> (r: bool)
    ensures
        r == (a@ == b@),
{
    if a.len() != b.len() {
        return false;
    }
    let mut i: usize = 0;
    while i < a.len()
        invariant
            a@.len() == b@.len(),
            i <= a@.len(),
            forall|j: int| 0 <= j < i ==> a@[j] == b@[j],
        decreases a@.len() - i,
    {
        if a[i] != b[i] {
            return false;
        }
        i = i + 1;
    }
    assert(a@ =~= b@);
    true
}

/// `s` without its trailing dots.
pub fn strip_trailing_dots(s: &str) -> (r: Vec<char>)
    ensures
        r@ == strip_dots(s@),
{
    let mut r = chars_of(s);
    while r.len() > 0 && r[r.len() - 1] == '.'
        invariant
            strip_dots(r@) == strip_dots(s@),
        decreases r@.len(),
    {
        let ghost before = r@;
        r.pop();
        assert(r@ =~= before.drop_last());
    }
    r
}

impl Menu {
    /// An empty menu with the given title.
    pub fn new(title: &str) -> (r: Menu)
        ensures
            r@ == (MenuView { title: title@, options: seq![] }),
    {
        let r = Menu { title: String::from_str(title), options: Vec::new() };
        assert(r@.options =~= seq![]);
        r
    }

    fn push_option(&mut self, option: MenuOption)
        ensures
            final(self)@ == with_option(old(self)@, option@),
    {
        let ghost before = self.options@;
        self.options.push(option);
        assert(self.options@.map_values(|o: MenuOption| o@) =~= before.map_values(|o: MenuOption| o@).push(option@));
    }

    /// Adds an option that shows page `action`.
    pub fn add_navigation(&mut self, number: &str, text: &str, action: PageId) -> (r: &mut Self)
        ensures
            (*r)@ == with_option(old(self)@, option_view(number@, text@, MenuActionView::Navigate(action))),
            *final(self) == *final(r),
    {
        self.push_option(
            MenuOption {
                number: String::from_str(number),
                text: String::from_str(text),
                action: MenuAction::Navigate(action),
            },
        );
        self
    }

    /// Adds an option that runs a program: `args[0]` is the program unless
    /// `sudo` runs all of `args` through the elevation tool.
    pub fn add_command(
        &mut self,
        number: &str,
        text: &str,
        sudo: bool,
        args: Vec<&str>,
        start_message: &str,
        success_message: &str,
        error_message: &str,
    ) -> (r: &mut Self)
        ensures
            (*r)@ == with_option(
                old(self)@,
                option_view(
                    number@,
                    text@,
                    MenuActionView::Command {
                        sudo,
                        args: literal_views(args@),
                        start_message: start_message@,
                        success_message: success_message@,
                        error_message: error_message@,
                    },
                ),
            ),
            *final(self) == *final(r),
    {
        self.push_option(
            MenuOption {
                number: String::from_str(number),
                text: String::from_str(text),
                action: MenuAction::Command {
                    sudo,
                    args: strings_of(&args),
                    start_message: String::from_str(start_message),
                    success_message: String::from_str(success_message),
                    error_message: String::from_str(error_message),
                },
            },
        );
        self
    }

    /// Adds an option that returns to page `action`.
    pub fn add_back(&mut self, number: &str, text: &str, action: PageId) -> (r: &mut Self)
        ensures
            (*r)@ == with_option(old(self)@, option_view(number@, text@, MenuActionView::Back(action))),
            *final(self) == *final(r),
    {
        self.push_option(
            MenuOption {
                number: String::from_str(number),
                text: String::from_str(text),
                action: MenuAction::Back(action),
            },
        );
        self
    }

    /// Adds an option that leaves the toolkit.
    pub fn add_exit(&mut self, number: &str, text: &str) -> (r: &mut Self)
        ensures
            (*r)@ == with_option(old(self)@, option_view(number@, text@, MenuActionView::Exit)),
            *final(self) == *final(r),
    {
        self.push_option(
            MenuOption {
                number: String::from_str(number),
                text: String::from_str(text),
                action: MenuAction::Exit,
            },
        );
        self
    }

    /// Adds a blank separator line.
    pub fn add_separator(&mut self) -> (r: &mut Self)
        ensures
            (*r)@ == with_option(old(self)@, separator_view()),
            *final(self) == *final(r),
    {
        self.push_option(MenuOption { number: String::new(), text: String::new(), action: MenuAction::NoAction });
        self
    }

    /// The position of the first option that answers the typed `choice`, if
    /// any; separators answer nothing.
    pub fn select_option(&self, choice: &str) -> (r: Option<usize>)
        ensures
            match r {
                Some(k) => k < self@.options.len() && answers(self@.options[k as int], choice@)
                    && forall|m: int| 0 <= m < k ==> !answers(#[trigger] self@.options[m], choice@),
                None => forall|m: int| 0 <= m < self@.options.len() ==> !answers(#[trigger] self@.options[m], choice@),
            },
    {
        let wanted = trim(choice);
        self.select_chars(&wanted)
    }

    /// The position of the first option that answers `wanted`, a choice
    /// already without surrounding white space.
    pub fn select_trimmed(&self, wanted: &str) -> (r: Option<usize>)
        ensures
            match r {
                Some(k) => k < self@.options.len() && answers_trimmed(self@.options[k as int], wanted@)
                    && forall|m: int| 0 <= m < k ==> !answers_trimmed(#[trigger] self@.options[m], wanted@),
                None => forall|m: int| 0 <= m < self@.options.len() ==> !answers_trimmed(#[trigger] self@.options[m], wanted@),
            },
    {
        self.select_chars(&chars_of(wanted))
    }

    fn select_chars(&self, wanted_chars: &Vec<char>) -> (r: Option<usize>)
        ensures
            match r {
                Some(k) => k < self@.options.len() && answers_trimmed(self@.options[k as int], wanted_chars@)
                    && forall|m: int| 0 <= m < k ==> !answers_trimmed(#[trigger] self@.options[m], wanted_chars@),
                None => forall|m: int| 0 <= m < self@.options.len() ==> !answers_trimmed(#[trigger] self@.options[m], wanted_chars@),
            },
    {
        let mut k: usize = 0;
        while k < self.options.len()
            invariant
                k <= self.options@.len(),
                forall|m: int| 0 <= m < k ==> !answers_trimmed(#[trigger] self@.options[m], wanted_chars@),
            decreases self.options@.len() - k,
        {
            let option = &self.options[k];
            assert(self@.options[k as int] == option@);
            let number = strip_trailing_dots(option.number.as_str());
            let separator = match &option.action {
                MenuAction::NoAction => true,
                _ => false,
            };
            if !separator && same_chars(&number, wanted_chars) {
                return Some(k);
            }
            k = k + 1;
        }
        None
    }
}

} // verus!
