//! Command dispatch core of a terminal toolkit: a catalog of commands and
//! scripts, the policy that turns a catalog entry into a process invocation
//! (plain, shell-wrapped, elevated), the elevation-retry policy, and the
//! menu and navigation models that the front end drives.

pub mod text;
pub mod config;
pub mod commands;
pub mod dispatch;
pub mod sort;
pub mod scripts;
pub mod catalog;
pub mod menu;
pub mod page_builder;
pub mod pages;
pub mod colors;
pub mod ui;
