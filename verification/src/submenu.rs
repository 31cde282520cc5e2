use crate::action::MenuAction;
use vstd::prelude::*;

verus! {

/// One line of a submenu.
#[derive(Clone, Copy, Debug, PartialEq, Eq, Structural)]
pub enum MenuEntry {
    /// A line that can be activated.
    Action(MenuAction),
    /// A rule between two groups of lines.
    Separator,
}

/// What a submenu is built from: its title and its lines, from the top down.
#[derive(Debug, PartialEq, Eq)]
pub struct Submenu {
    pub title: &'static str,
    pub entries: Vec<MenuEntry>,
}

/// The title of the Help submenu.
pub open spec fn help_title() -> Seq<char> {
    "Help"@
}

/// The lines of the Help submenu, from the top down.
pub open spec fn help_entries() -> Seq<MenuEntry> {
    seq![
        MenuEntry::Action(MenuAction::PrivacyPolicy),
        MenuEntry::Separator,
        MenuEntry::Action(MenuAction::ReportIssue),
        MenuEntry::Action(MenuAction::VlarchHelp),
    ]
}

/// The Help submenu: the privacy policy, a separator, then the issue report
/// and the help pages.
pub fn help_submenu() -> (submenu: Submenu)
    ensures
        submenu.title@ == help_title(),
        submenu.entries@ == help_entries(),
{
    let mut entries: Vec<MenuEntry> = Vec::new();
    entries.push(MenuEntry::Action(MenuAction::PrivacyPolicy));
    entries.push(MenuEntry::Separator);
    entries.push(MenuEntry::Action(MenuAction::ReportIssue));
    entries.push(MenuEntry::Action(MenuAction::VlarchHelp));
    Submenu { title: "Help", entries }
}

} // verus!
