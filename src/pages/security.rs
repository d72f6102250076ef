//! The security page.

use vstd::prelude::*;
use crate::commands::literal_views;
use crate::menu::{option_view, separator_view, Menu, MenuActionView, MenuView, PageId};
use crate::page_builder::{apt_option, package_list, system_option, PageBuilder};

verus! {

pub open spec fn security_page() -> MenuView {
    MenuView {
        title: "Security"@,
        options: seq![
            system_option(
                "1"@,
                "Configure Firewall"@,
                "ufw enable && ufw default deny incoming && ufw default allow outgoing"@,
                "Configuring firewall"@,
            ),
            apt_option("2"@, "Install Fail2Ban"@, package_list(seq!["fail2ban"@])),
            system_option(
                "3"@,
                "Enable Fail2Ban"@,
                "systemctl enable fail2ban && systemctl start fail2ban"@,
                "Enabling Fail2Ban"@,
            ),
            apt_option("4"@, "Install Security Audit Tools"@, package_list(seq!["chkrootkit"@, "rkhunter"@])),
            system_option(
                "5"@,
                "Run Security Audit"@,
                "chkrootkit && rkhunter --check --skip-keypress"@,
                "Running security audit"@,
            ),
            separator_view(),
            option_view("0"@, "Return to Main Menu"@, MenuActionView::Back(PageId::Main)),
        ],
    }
}

/// The security page: firewall, Fail2Ban and audit tools.
pub fn generate_page() -> (r: Menu)
    ensures
        r@ == security_page(),
{
    let fail2ban: &[&str] = &["fail2ban"];
    let audit: &[&str] = &["chkrootkit", "rkhunter"];
    assert(literal_views(fail2ban@) =~= seq!["fail2ban"@]);
    assert(literal_views(audit@) =~= seq!["chkrootkit"@, "rkhunter"@]);
    let r = PageBuilder::new("Security")
        .add_system_command(
            "1",
            "Configure Firewall",
            "ufw enable && ufw default deny incoming && ufw default allow outgoing",
            "Configuring firewall",
        )
        .add_apt_install("2", "Install Fail2Ban", fail2ban)
        .add_system_command(
            "3",
            "Enable Fail2Ban",
            "systemctl enable fail2ban && systemctl start fail2ban",
            "Enabling Fail2Ban",
        )
        .add_apt_install("4", "Install Security Audit Tools", audit)
        .add_system_command(
            "5",
            "Run Security Audit",
            "chkrootkit && rkhunter --check --skip-keypress",
            "Running security audit",
        )
        .add_separator()
        .add_back("0", PageId::Main)
        .get_menu();
    assert(r@.options =~= security_page().options);
    r
}

} // verus!
