//! The antivirus page.

use vstd::prelude::*;
use crate::commands::literal_views;
use crate::menu::{option_view, separator_view, Menu, MenuActionView, MenuView, PageId};
use crate::page_builder::{apt_option, package_list, system_option, PageBuilder};

verus! {

pub open spec fn antivirus_page() -> MenuView {
    MenuView {
        title: "Antivirus"@,
        options: seq![
            apt_option("1"@, "Check for Rootkits"@, package_list(seq!["chkrootkit"@, "rkhunter"@])),
            system_option("2"@, "Run CHKRootKit Scan"@, "chkrootkit"@, "Scanning for rootkits with CHKRootKit"@),
            system_option(
                "3"@,
                "Run RKHunter Scan"@,
                "rkhunter --check --skip-keypress"@,
                "Scanning for rootkits with RKHunter"@,
            ),
            separator_view(),
            option_view("0"@, "Return to Main Menu"@, MenuActionView::Back(PageId::Main)),
        ],
    }
}

/// The antivirus page: rootkit scanners and their scans.
pub fn generate_page() -> (r: Menu)
    ensures
        r@ == antivirus_page(),
{
    let packages: &[&str] = &["chkrootkit", "rkhunter"];
    assert(literal_views(packages@) =~= seq!["chkrootkit"@, "rkhunter"@]);
    let r = PageBuilder::new("Antivirus")
        .add_apt_install("1", "Check for Rootkits", packages)
        .add_system_command("2", "Run CHKRootKit Scan", "chkrootkit", "Scanning for rootkits with CHKRootKit")
        .add_system_command(
            "3",
            "Run RKHunter Scan",
            "rkhunter --check --skip-keypress",
            "Scanning for rootkits with RKHunter",
        )
        .add_separator()
        .add_back("0", PageId::Main)
        .get_menu();
    assert(r@.options =~= antivirus_page().options);
    r
}

} // verus!
