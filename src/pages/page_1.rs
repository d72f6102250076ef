//! The main page.

use vstd::prelude::*;
use crate::menu::{option_view, separator_view, Menu, MenuActionView, MenuView, PageId};
use crate::page_builder::{system_option, PageBuilder};

verus! {

pub open spec fn main_page() -> MenuView {
    MenuView {
        title: "Linux Toolkit"@,
        options: seq![
            system_option("1"@, "Update System Packages"@, "apt-get update"@, "Updating system packages"@),
            option_view("2"@, "Antivirus"@, MenuActionView::Navigate(PageId::Antivirus)),
            option_view("3"@, "Security"@, MenuActionView::Navigate(PageId::Security)),
            option_view("4"@, "Network Tools"@, MenuActionView::Navigate(PageId::Network)),
            separator_view(),
            option_view("0"@, "Exit"@, MenuActionView::Exit),
        ],
    }
}

/// The main page: package update, the other pages, and exit.
pub fn generate_page() -> (r: Menu)
    ensures
        r@ == main_page(),
{
    let r = PageBuilder::new("Linux Toolkit")
        .add_system_command("1", "Update System Packages", "apt-get update", "Updating system packages")
        .add_page("2", "Antivirus", PageId::Antivirus)
        .add_page("3", "Security", PageId::Security)
        .add_page("4", "Network Tools", PageId::Network)
        .add_separator()
        .add_exit("0")
        .get_menu();
    assert(r@.options =~= main_page().options);
    r
}

} // verus!
