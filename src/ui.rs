//! The state of the two-panel browser and how keys change it. Drawing it
//! and running the selected entry are the front end's part.

use vstd::prelude::*;
use crate::commands::CommandCategory;

verus! {

/// The panel that has the keyboard focus.
#[derive(Clone, Copy, Debug, PartialEq, Eq, Structural)]
pub enum FocusedPanel {
    Categories,
    Commands,
    Details,
}

/// A key press, as far as the browser tells keys apart.
#[derive(Clone, Copy, Debug, PartialEq, Eq, Structural)]
pub enum Key {
    Char(char),
    Enter,
    Esc,
    Tab,
    Up,
    Down,
    Left,
    Right,
    Backspace,
    F(u8),
    Other,
}

/// What the front end does after a key: nothing more, or run the selected
/// entry.
#[derive(Clone, Copy, Debug, PartialEq, Eq, Structural)]
pub enum KeyEffect {
    Nothing,
    ExecuteSelected,
}

/// The browser's state: the selected category and entry, which lists show a
/// selection, the focused panel, and the flags of the help and details
/// views and of text input.
#[derive(Clone, Debug)]
pub struct Browser {
    pub should_quit: bool,
    pub current_category: usize,
    pub current_command: usize,
    pub category_selection: Option<usize>,
    pub command_selection: Option<usize>,
    pub focused_panel: FocusedPanel,
    pub show_help: bool,
    pub show_command_details: bool,
    pub input_mode: bool,
    pub input_buffer: Vec<char>,
}

pub struct BrowserView {
    pub should_quit: bool,
    pub current_category: int,
    pub current_command: int,
    pub category_selection: Option<usize>,
    pub command_selection: Option<usize>,
    pub focused_panel: FocusedPanel,
    pub show_help: bool,
    pub show_command_details: bool,
    pub input_mode: bool,
    pub input_buffer: Seq<char>,
}

impl View for Browser {
    type V = BrowserView;

    open spec fn view(&self) -> BrowserView {
        BrowserView {
            should_quit: self.should_quit,
            current_category: self.current_category as int,
            current_command: self.current_command as int,
            category_selection: self.category_selection,
            command_selection: self.command_selection,
            focused_panel: self.focused_panel,
            show_help: self.show_help,
            show_command_details: self.show_command_details,
            input_mode: self.input_mode,
            input_buffer: self.input_buffer@,
        }
    }
}

/// The panel after `p` in the cycle categories, entries, details.
pub open spec fn next_panel(p: FocusedPanel) -> FocusedPanel {
    match p {
        FocusedPanel::Categories => FocusedPanel::Commands,
        FocusedPanel::Commands => FocusedPanel::Details,
        FocusedPanel::Details => FocusedPanel::Categories,
    }
}

/// Up: the previous category (its first entry selected) or the previous
/// entry, in the focused list; nothing at the top or in the details.
pub open spec fn moved_up(s: BrowserView) -> BrowserView {
    match s.focused_panel {
        FocusedPanel::Categories => if s.current_category > 0 {
            BrowserView {
                current_category: s.current_category - 1,
                category_selection: Some((s.current_category - 1) as usize),
                current_command: 0,
                command_selection: Some(0),
                ..s
            }
        } else {
            s
        },
        FocusedPanel::Commands => if s.current_command > 0 {
            BrowserView {
                current_command: s.current_command - 1,
                command_selection: Some((s.current_command - 1) as usize),
                ..s
            }
        } else {
            s
        },
        FocusedPanel::Details => s,
    }
}

/// Down: the next category (its first entry selected) or the next entry of
/// the selected category, in the focused list; nothing at the bottom or in
/// the details. `n_categories` categories exist and the selected one has
/// `n_commands` entries (`None` when no category is selected).
pub open spec fn moved_down(s: BrowserView, n_categories: int, n_commands: Option<int>) -> BrowserView {
    match s.focused_panel {
        FocusedPanel::Categories => if s.current_category + 1 < n_categories {
            BrowserView {
                current_category: s.current_category + 1,
                category_selection: Some((s.current_category + 1) as usize),
                current_command: 0,
                command_selection: Some(0),
                ..s
            }
        } else {
            s
        },
        FocusedPanel::Commands => match n_commands {
            Some(n) => if s.current_command + 1 < n {
                BrowserView {
                    current_command: s.current_command + 1,
                    command_selection: Some((s.current_command + 1) as usize),
                    ..s
                }
            } else {
                s
            },
            None => s,
        },
        FocusedPanel::Details => s,
    }
}

/// The state after `key` and what the front end does next. While text is
/// being typed, keys edit it and Enter or Esc end it; otherwise `q` or Esc
/// quit, `h` or F1 toggle help, Tab cycles the focus, Enter runs the
/// selected entry and space toggles its details (both in the entries
/// panel), arrows move within a list or between the lists.
pub open spec fn after_key(s: BrowserView, key: Key, n_categories: int, n_commands: Option<int>) -> (BrowserView, KeyEffect) {
    if s.input_mode {
        let t = match key {
            Key::Enter => BrowserView { input_mode: false, input_buffer: seq![], ..s },
            Key::Esc => BrowserView { input_mode: false, input_buffer: seq![], ..s },
            Key::Char(c) => BrowserView { input_buffer: s.input_buffer.push(c), ..s },
            Key::Backspace => if s.input_buffer.len() > 0 {
                BrowserView { input_buffer: s.input_buffer.drop_last(), ..s }
            } else {
                s
            },
            _ => s,
        };
        (t, KeyEffect::Nothing)
    } else {
        let in_commands = s.focused_panel == FocusedPanel::Commands;
        match key {
            Key::Char('q') | Key::Esc => (BrowserView { should_quit: true, ..s }, KeyEffect::Nothing),
            Key::Char('h') | Key::F(1) => (BrowserView { show_help: !s.show_help, ..s }, KeyEffect::Nothing),
            Key::Tab => (BrowserView { focused_panel: next_panel(s.focused_panel), ..s }, KeyEffect::Nothing),
            Key::Enter => (s, if in_commands { KeyEffect::ExecuteSelected } else { KeyEffect::Nothing }),
            Key::Char(' ') => (
                if in_commands {
                    BrowserView { show_command_details: !s.show_command_details, ..s }
                } else {
                    s
                },
                KeyEffect::Nothing,
            ),
            Key::Up => (moved_up(s), KeyEffect::Nothing),
            Key::Down => (moved_down(s, n_categories, n_commands), KeyEffect::Nothing),
            Key::Left => (
                if in_commands {
                    BrowserView { focused_panel: FocusedPanel::Categories, ..s }
                } else {
                    s
                },
                KeyEffect::Nothing,
            ),
            Key::Right => (
                if s.focused_panel == FocusedPanel::Categories {
                    BrowserView { focused_panel: FocusedPanel::Commands, ..s }
                } else {
                    s
                },
                KeyEffect::Nothing,
            ),
            _ => (s, KeyEffect::Nothing),
        }
    }
}

/// The number of entries of the selected category, if one is selected.
pub open spec fn selected_count(categories: Seq<CommandCategory>, current: int) -> Option<int> {
    if 0 <= current < categories.len() {
        Some(categories[current].commands@.len() as int)
    } else {
        None
    }
}

impl Browser {
    /// The browser over `categories`: the categories list focused, the first
    /// category and its first entry selected when they exist.
    pub fn new(categories: &Vec<CommandCategory>) -> (r: Browser)
        ensures
            r@ == (BrowserView {
                should_quit: false,
                current_category: 0,
                current_command: 0,
                category_selection: if categories@.len() > 0 { Some(0) } else { None },
                command_selection: if categories@.len() > 0 && categories@[0].commands@.len() > 0 {
                    Some(0)
                } else {
                    None
                },
                focused_panel: FocusedPanel::Categories,
                show_help: false,
                show_command_details: false,
                input_mode: false,
                input_buffer: seq![],
            }),
    {
        let has_category = categories.len() > 0;
        let has_command = has_category && categories[0].commands.len() > 0;
        Browser {
            should_quit: false,
            current_category: 0,
            current_command: 0,
            category_selection: if has_category { Some(0) } else { None },
            command_selection: if has_command { Some(0) } else { None },
            focused_panel: FocusedPanel::Categories,
            show_help: false,
            show_command_details: false,
            input_mode: false,
            input_buffer: Vec::new(),
        }
    }

    /// Moves the focus to the next panel.
    pub fn cycle_focus(&mut self)
        ensures
            final(self)@ == (BrowserView { focused_panel: next_panel(old(self)@.focused_panel), ..old(self)@ }),
    {
        self.focused_panel = match self.focused_panel {
            FocusedPanel::Categories => FocusedPanel::Commands,
            FocusedPanel::Commands => FocusedPanel::Details,
            FocusedPanel::Details => FocusedPanel::Categories,
        };
    }

    /// Moves the selection up in the focused list.
    pub fn move_up(&mut self)
        ensures
            final(self)@ == moved_up(old(self)@),
    {
        match self.focused_panel {
            FocusedPanel::Categories => {
                if self.current_category > 0 {
                    self.current_category = self.current_category - 1;
                    self.category_selection = Some(self.current_category);
                    self.current_command = 0;
                    self.command_selection = Some(0);
                }
            },
            FocusedPanel::Commands => {
                if self.current_command > 0 {
                    self.current_command = self.current_command - 1;
                    self.command_selection = Some(self.current_command);
                }
            },
            FocusedPanel::Details => {},
        }
    }

    /// Moves the selection down in the focused list.
    pub fn move_down(&mut self, categories: &Vec<CommandCategory>)
        ensures
            final(self)@ == moved_down(
                old(self)@,
                categories@.len() as int,
                selected_count(categories@, old(self)@.current_category),
            ),
    {
        match self.focused_panel {
            FocusedPanel::Categories => {
                if self.current_category < categories.len() && self.current_category + 1 < categories.len() {
                    self.current_category = self.current_category + 1;
                    self.category_selection = Some(self.current_category);
                    self.current_command = 0;
                    self.command_selection = Some(0);
                }
            },
            FocusedPanel::Commands => {
                if self.current_category < categories.len() {
                    let n = categories[self.current_category].commands.len();
                    if self.current_command < n && self.current_command + 1 < n {
                        self.current_command = self.current_command + 1;
                        self.command_selection = Some(self.current_command);
                    }
                }
            },
            FocusedPanel::Details => {},
        }
    }

    /// Applies `key` and says what the front end does next.
    pub fn handle_key(&mut self, key: Key, categories: &Vec<CommandCategory>) -> (r: KeyEffect)
        ensures
            (final(self)@, r) == after_key(
                old(self)@,
                key,
                categories@.len() as int,
                selected_count(categories@, old(self)@.current_category),
            ),
    {
        if self.input_mode {
            match key {
                Key::Enter | Key::Esc => {
                    self.input_mode = false;
                    self.input_buffer = Vec::new();
                },
                Key::Char(c) => {
                    self.input_buffer.push(c);
                },
                Key::Backspace => {
                    if self.input_buffer.len() > 0 {
                        self.input_buffer.pop();
                    }
                },
                _ => {},
            }
            return KeyEffect::Nothing;
        }
        let in_commands = self.focused_panel == FocusedPanel::Commands;
        match key {
            Key::Char('q') | Key::Esc => {
                self.should_quit = true;
            },
            Key::Char('h') | Key::F(1) => {
                self.show_help = !self.show_help;
            },
            Key::Tab => {
                self.cycle_focus();
            },
            Key::Enter => {
                if in_commands {
                    return KeyEffect::ExecuteSelected;
                }
            },
            Key::Char(' ') => {
                if in_commands {
                    self.show_command_details = !self.show_command_details;
                }
            },
            Key::Up => {
                self.move_up();
            },
            Key::Down => {
                self.move_down(categories);
            },
            Key::Left => {
                if in_commands {
                    self.focused_panel = FocusedPanel::Categories;
                }
            },
            Key::Right => {
                if self.focused_panel == FocusedPanel::Categories {
                    self.focused_panel = FocusedPanel::Commands;
                }
            },
            _ => {},
        }
        KeyEffect::Nothing
    }

    /// The selected category and entry, when both exist.
    pub fn selected(&self, categories: &Vec<CommandCategory>) -> (r: Option<(usize, usize)>)
        ensures
            r == (if self.current_category < categories@.len()
                && self.current_command < categories@[self.current_category as int].commands@.len() {
                Some((self.current_category, self.current_command))
            } else {
                None
            }),
    {
        if self.current_category < categories.len()
            && self.current_command < categories[self.current_category].commands.len() {
            Some((self.current_category, self.current_command))
        } else {
            None
        }
    }

    /// Records that the selected entry ran: its output replaces the details.
    pub fn finish_execution(&mut self)
        ensures
            final(self)@ == (BrowserView { show_command_details: true, ..old(self)@ }),
    {
        self.show_command_details = true;
    }
}

} // verus!
