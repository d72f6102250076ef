//! The pages of the numbered menu, and the page each `PageId` names.

use vstd::prelude::*;
use crate::menu::{Menu, PageId};

pub mod network;
pub mod page_1;
pub mod page_2;
pub mod security;

verus! {

/// The menu of page `id`.
pub fn page(id: PageId) -> (r: Menu)
    ensures
        r@ == match id {
            PageId::Main => page_1::main_page(),
            PageId::Antivirus => page_2::antivirus_page(),
            PageId::Security => security::security_page(),
            PageId::Network => network::network_page(),
        },
{
    match id {
        PageId::Main => page_1::generate_page(),
        PageId::Antivirus => page_2::generate_page(),
        PageId::Security => security::generate_page(),
        PageId::Network => network::generate_page(),
    }
}

} // verus!
