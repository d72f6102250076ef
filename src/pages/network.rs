//! The network tools page.

use vstd::prelude::*;
use crate::commands::literal_views;
use crate::menu::{option_view, separator_view, Menu, MenuActionView, MenuView, PageId};
use crate::page_builder::{apt_option, package_list, system_option, PageBuilder};

verus! {

pub open spec fn network_page() -> MenuView {
    MenuView {
        title: "Network Tools"@,
        options: seq![
            apt_option("1"@, "Install Network Tools"@, package_list(seq!["net-tools"@, "nmap"@, "netstat-nat"@])),
            system_option("2"@, "Show Network Interfaces"@, "ip addr show"@, "Displaying network interfaces"@),
            system_option("3"@, "Show Network Connections"@, "netstat -tuln"@, "Displaying network connections"@),
            system_option("4"@, "Scan Local Network"@, "nmap -sn 192.168.1.0/24"@, "Scanning local network"@),
            system_option("5"@, "Check Internet Connectivity"@, "ping -c 4 8.8.8.8"@, "Testing internet connectivity"@),
            separator_view(),
            option_view("0"@, "Return to Main Menu"@, MenuActionView::Back(PageId::Main)),
        ],
    }
}

/// The network tools page: installs, interface and connection listings, a
/// local scan and a connectivity check.
pub fn generate_page() -> (r: Menu)
    ensures
        r@ == network_page(),
{
    let packages: &[&str] = &["net-tools", "nmap", "netstat-nat"];
    assert(literal_views(packages@) =~= seq!["net-tools"@, "nmap"@, "netstat-nat"@]);
    let r = PageBuilder::new("Network Tools")
        .add_apt_install("1", "Install Network Tools", packages)
        .add_system_command("2", "Show Network Interfaces", "ip addr show", "Displaying network interfaces")
        .add_system_command("3", "Show Network Connections", "netstat -tuln", "Displaying network connections")
        .add_system_command("4", "Scan Local Network", "nmap -sn 192.168.1.0/24", "Scanning local network")
        .add_system_command("5", "Check Internet Connectivity", "ping -c 4 8.8.8.8", "Testing internet connectivity")
        .add_separator()
        .add_back("0", PageId::Main)
        .get_menu();
    assert(r@.options =~= network_page().options);
    r
}

} // verus!
