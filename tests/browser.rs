use linux_toolkit::commands::{load_builtin_categories, CommandCategory};
use linux_toolkit::ui::{Browser, FocusedPanel, Key, KeyEffect};

fn two_categories() -> Vec<CommandCategory> {
    let mut cats = load_builtin_categories();
    cats.push(CommandCategory { name: "Empty".to_string(), description: String::new(), commands: Vec::new() });
    cats
}

#[test]
fn browser_starts_on_first_entry() {
    let b = Browser::new(&load_builtin_categories());
    assert_eq!(b.category_selection, Some(0));
    assert_eq!(b.command_selection, Some(0));
    assert_eq!(b.focused_panel, FocusedPanel::Categories);
    let empty = Browser::new(&Vec::new());
    assert_eq!(empty.category_selection, None);
    assert_eq!(empty.command_selection, None);
}

#[test]
fn arrows_move_within_lists() {
    let cats = two_categories();
    let mut b = Browser::new(&cats);
    b.handle_key(Key::Down, &cats);
    assert_eq!(b.current_category, 1);
    b.handle_key(Key::Down, &cats);
    assert_eq!(b.current_category, 1);
    b.handle_key(Key::Up, &cats);
    assert_eq!((b.current_category, b.current_command), (0, 0));
    b.handle_key(Key::Right, &cats);
    assert_eq!(b.focused_panel, FocusedPanel::Commands);
    for _ in 0..5 {
        b.handle_key(Key::Down, &cats);
    }
    assert_eq!(b.current_command, 3);
    assert_eq!(b.command_selection, Some(3));
    b.handle_key(Key::Up, &cats);
    assert_eq!(b.current_command, 2);
    b.handle_key(Key::Left, &cats);
    assert_eq!(b.focused_panel, FocusedPanel::Categories);
}

#[test]
fn keys_toggle_and_quit() {
    let cats = load_builtin_categories();
    let mut b = Browser::new(&cats);
    assert_eq!(b.handle_key(Key::Enter, &cats), KeyEffect::Nothing);
    b.handle_key(Key::Tab, &cats);
    assert_eq!(b.focused_panel, FocusedPanel::Commands);
    assert_eq!(b.handle_key(Key::Enter, &cats), KeyEffect::ExecuteSelected);
    b.handle_key(Key::Char(' '), &cats);
    assert!(b.show_command_details);
    b.handle_key(Key::F(1), &cats);
    assert!(b.show_help);
    b.handle_key(Key::Char('h'), &cats);
    assert!(!b.show_help);
    b.handle_key(Key::Tab, &cats);
    b.handle_key(Key::Tab, &cats);
    assert_eq!(b.focused_panel, FocusedPanel::Categories);
    b.handle_key(Key::Char('q'), &cats);
    assert!(b.should_quit);
    assert_eq!(b.selected(&cats), Some((0, 0)));
}

#[test]
fn text_input_mode_edits_buffer() {
    let cats = load_builtin_categories();
    let mut b = Browser::new(&cats);
    b.input_mode = true;
    b.handle_key(Key::Char('a'), &cats);
    b.handle_key(Key::Char('b'), &cats);
    b.handle_key(Key::Backspace, &cats);
    assert_eq!(b.input_buffer, vec!['a']);
    b.handle_key(Key::Char('q'), &cats);
    assert!(!b.should_quit);
    b.handle_key(Key::Esc, &cats);
    assert!(!b.input_mode);
    assert!(b.input_buffer.is_empty());
}

#[test]
fn selection_needs_an_entry() {
    let cats = two_categories();
    let mut b = Browser::new(&cats);
    b.handle_key(Key::Down, &cats);
    assert_eq!(b.selected(&cats), None);
    b.finish_execution();
    assert!(b.show_command_details);
}
