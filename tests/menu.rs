use linux_toolkit::colors::{invalid_choice_text, output_background_color};
use linux_toolkit::menu::{Menu, MenuAction, PageId};
use linux_toolkit::page_builder::{
    apt_install, back_option, create_page, exit_option, page_option, separator, system_command,
    PageBuilder,
};
use linux_toolkit::pages::{network, page, page_1, page_2, security};

fn command_parts(a: &MenuAction) -> (bool, Vec<String>, String, String, String) {
    match a {
        MenuAction::Command { sudo, args, start_message, success_message, error_message } => (
            *sudo,
            args.clone(),
            start_message.clone(),
            success_message.clone(),
            error_message.clone(),
        ),
        _ => panic!("not a command option"),
    }
}

#[test]
fn menu_builders_chain() {
    let mut m = Menu::new("Title");
    m.add_navigation("1", "Go", PageId::Network)
        .add_command("2", "Run", false, vec!["echo", "hi"], "start", "ok", "bad")
        .add_separator()
        .add_back("0.", "Back", PageId::Main)
        .add_exit("9", "Exit");
    assert_eq!(m.title, "Title");
    assert_eq!(m.options.len(), 5);
    assert!(matches!(m.options[0].action, MenuAction::Navigate(PageId::Network)));
    assert_eq!(
        command_parts(&m.options[1].action),
        (false, vec!["echo".to_string(), "hi".to_string()], "start".to_string(), "ok".to_string(), "bad".to_string())
    );
    assert!(m.options[2].number.is_empty() && m.options[2].text.is_empty());
    assert!(matches!(m.options[2].action, MenuAction::NoAction));
    assert!(matches!(m.options[3].action, MenuAction::Back(PageId::Main)));
    assert!(matches!(m.options[4].action, MenuAction::Exit));
}

#[test]
fn choices_select_options() {
    let mut m = Menu::new("T");
    m.add_navigation("1.", "One", PageId::Security).add_separator().add_exit("0", "Exit");
    assert_eq!(m.select_option("1"), Some(0));
    assert_eq!(m.select_option("  1 \n"), Some(0));
    assert_eq!(m.select_option("0"), Some(2));
    assert_eq!(m.select_option(""), None);
    assert_eq!(m.select_option("7"), None);
}

#[test]
fn system_command_messages() {
    let m = PageBuilder::new("P")
        .add_system_command("1", "Update", "apt-get update", "Updating System Packages")
        .get_menu();
    assert_eq!(
        command_parts(&m.options[0].action),
        (
            true,
            vec!["sh".to_string(), "-c".to_string(), "apt-get update".to_string()],
            "Updating System Packages...".to_string(),
            "Updating System Packages completed successfully.".to_string(),
            "Failed to updating system packages.".to_string(),
        )
    );
}

#[test]
fn apt_install_command_line() {
    let m = PageBuilder::new("P").add_apt_install("1", "Install", &["nmap", "tcpdump"]).get_menu();
    let (sudo, args, start, _, error) = command_parts(&m.options[0].action);
    assert!(sudo);
    assert_eq!(args[2], "apt update && apt install nmap tcpdump -y");
    assert_eq!(start, "Installing nmap tcpdump...");
    assert_eq!(error, "Failed to installing nmap tcpdump.");
}

#[test]
fn custom_back_and_exit_options() {
    let m = PageBuilder::new("P")
        .add_custom_command("3", "Ls", false, vec!["ls", "-l"], "a", "b", "c")
        .add_back("0", PageId::Main)
        .add_exit("9")
        .get_menu();
    assert_eq!(command_parts(&m.options[0].action).1, vec!["ls".to_string(), "-l".to_string()]);
    assert_eq!(m.options[1].text, "Return to Main Menu");
    assert_eq!(m.options[2].text, "Exit");
}

#[test]
fn items_build_the_same_page() {
    let items = vec![
        apt_install("1", "Install", &["a", "b"]),
        system_command("2", "Show", "ip addr show", "Showing"),
        page_option("3", "More", PageId::Antivirus),
        separator(),
        back_option("0", PageId::Main),
        exit_option("9"),
    ];
    let built = create_page("Page", &items).get_menu();
    let direct = PageBuilder::new("Page")
        .add_apt_install("1", "Install", &["a", "b"])
        .add_system_command("2", "Show", "ip addr show", "Showing")
        .add_page("3", "More", PageId::Antivirus)
        .add_separator()
        .add_back("0", PageId::Main)
        .add_exit("9")
        .get_menu();
    assert_eq!(built.title, direct.title);
    assert_eq!(built.options.len(), 6);
    for (x, y) in built.options.iter().zip(direct.options.iter()) {
        assert_eq!(x.number, y.number);
        assert_eq!(x.text, y.text);
        assert_eq!(format!("{:?}", x.action), format!("{:?}", y.action));
    }
}

#[test]
fn pages_have_their_options() {
    let main = page_1::generate_page();
    assert_eq!(main.title, "Linux Toolkit");
    assert_eq!(main.options.len(), 6);
    assert!(matches!(main.options[3].action, MenuAction::Navigate(PageId::Network)));
    let net = network::generate_page();
    assert_eq!(net.title, "Network Tools");
    assert_eq!(
        command_parts(&net.options[0].action).1[2],
        "apt update && apt install net-tools nmap netstat-nat -y"
    );
    assert!(matches!(net.options[6].action, MenuAction::Back(PageId::Main)));
    let av = page_2::generate_page();
    assert_eq!(av.options.len(), 5);
    let sec = security::generate_page();
    assert_eq!(
        command_parts(&sec.options[0].action).1[2],
        "ufw enable && ufw default deny incoming && ufw default allow outgoing"
    );
    assert_eq!(page(PageId::Security).title, "Security");
    assert_eq!(page(PageId::Antivirus).title, "Antivirus");
}

#[test]
fn background_colors() {
    assert_eq!(output_background_color("red", "x"), "\x1b[41;1mx\x1b[0m");
    assert_eq!(output_background_color("green", "ok"), "\x1b[42;1mok\x1b[0m");
    assert_eq!(output_background_color("cyan", ""), "\x1b[46m\x1b[0m");
    assert_eq!(output_background_color("purple", "plain"), "plain");
    assert_eq!(invalid_choice_text(""), "\x1b[41;1mInvalid choice, please try again.\x1b[0m");
    assert_eq!(invalid_choice_text("Nope"), "\x1b[41;1mNope\x1b[0m");
}

#[test]
fn trimmed_choices_select_options() {
    let mut m = Menu::new("T");
    m.add_separator().add_navigation("2..", "Two", PageId::Antivirus);
    assert_eq!(m.select_trimmed("2"), Some(1));
    assert_eq!(m.select_trimmed(" 2"), None);
    assert_eq!(m.select_trimmed(""), None);
}

#[test]
fn choices_are_trimmed_of_unicode_white_space() {
    let mut m = Menu::new("T");
    m.add_navigation("2", "Two", PageId::Antivirus);
    assert_eq!(m.select_option("\u{3000}2\u{a0}\t"), Some(0));
    assert_eq!(m.select_option("2 2"), None);
}
